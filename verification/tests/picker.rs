use colorpicker::color::Color;
use colorpicker::color::DEGREE;
use colorpicker::keybinding::default_keybindings;
use colorpicker::keybinding::Action;
use colorpicker::keybinding::Key;
use colorpicker::keybinding::KeyBinding;
use colorpicker::keybinding::KeyBindings;
use colorpicker::picker::App;
use colorpicker::picker::TopMenuTab;
use colorpicker::picker::MAX_HUES_STEP;
use colorpicker::picker::MAX_SHADES;
use colorpicker::picker::MAX_TINTS;
use colorpicker::picker::MIN_HUES_STEP;
use colorpicker::scheme::SchemeType;
use colorpicker::scheme::Swatch;

fn current() -> Color {
    Color::new(30 * DEGREE, 500_000, 400_000)
}

fn under_cursor() -> Color {
    Color::new(200 * DEGREE, 100_000, 900_000)
}

fn app() -> App {
    App {
        current_tab: None,
        current_color: current(),
        scheme_type: SchemeType::Complementary,
        num_of_hues: 4,
        hues_step: 18_000,
        num_of_tints: 3,
        num_of_shades: 2,
        sidepanel_show: false,
        cursor_pick_color: under_cursor(),
        auto_copy_picked_color: false,
        palette: vec![Color::new(1, 2, 3)],
    }
}

fn app_at(tab: TopMenuTab) -> App {
    App { current_tab: Some(tab), ..app() }
}

#[test]
fn an_unbound_key_changes_nothing() {
    let bindings = default_keybindings();
    for key in [Key::A, Key::Escape, Key::Num5, Key::Z, Key::ArrowUp] {
        let mut state = app_at(TopMenuTab::Hues);
        state.auto_copy_picked_color = true;
        let before = state.clone();
        assert_eq!(state.key_pressed(&bindings, key), None);
        assert_eq!(state, before);
    }
}

#[test]
fn no_key_changes_anything_without_bindings() {
    let bindings = KeyBindings::new(Vec::new());
    let mut state = app();
    assert_eq!(state.key_pressed(&bindings, Key::H), None);
    assert_eq!(state.key_pressed(&bindings, Key::P), None);
    assert_eq!(state.key_pressed(&bindings, Key::S), None);
    assert_eq!(state, app());
}

#[test]
fn h_toggles_the_side_panel() {
    let bindings = default_keybindings();
    let mut state = app();
    assert_eq!(state.key_pressed(&bindings, Key::H), None);
    assert_eq!(state, App { sidepanel_show: true, ..app() });
    assert_eq!(state.key_pressed(&bindings, Key::H), None);
    assert_eq!(state, app());
}

#[test]
fn p_picks_the_color_under_the_cursor() {
    let bindings = default_keybindings();
    let mut state = app();
    assert_eq!(state.key_pressed(&bindings, Key::P), None);
    assert_eq!(state, App { current_color: under_cursor(), ..app() });
}

#[test]
fn p_copies_the_picked_color_when_asked_to() {
    let bindings = default_keybindings();
    let mut state = App { auto_copy_picked_color: true, ..app() };
    assert_eq!(state.key_pressed(&bindings, Key::P), Some(under_cursor()));
    assert_eq!(
        state,
        App { current_color: under_cursor(), auto_copy_picked_color: true, ..app() }
    );
}

#[test]
fn s_appends_the_color_under_the_cursor_to_the_palette() {
    let bindings = default_keybindings();
    let mut state = App { auto_copy_picked_color: true, ..app() };
    assert_eq!(state.key_pressed(&bindings, Key::S), None);
    assert_eq!(state.palette, vec![Color::new(1, 2, 3), under_cursor()]);
    assert_eq!(state.key_pressed(&bindings, Key::S), None);
    assert_eq!(state.palette, vec![Color::new(1, 2, 3), under_cursor(), under_cursor()]);
    assert_eq!(state.current_color, current());
}

#[test]
fn a_key_does_what_the_registry_binds_it_to() {
    let bindings = KeyBindings::new(vec![
        KeyBinding::new("save", "h", Key::H, Action::SaveColor),
        KeyBinding::new("toggle", "space", Key::Space, Action::ToggleSidePanel),
    ]);
    let mut state = app();
    assert_eq!(state.key_pressed(&bindings, Key::H), None);
    assert_eq!(state.palette.len(), 2);
    assert!(!state.sidepanel_show);
    assert_eq!(state.key_pressed(&bindings, Key::Space), None);
    assert!(state.sidepanel_show);
    assert_eq!(state.key_pressed(&bindings, Key::P), None);
    assert_eq!(state.current_color, current());
}

#[test]
fn run_performs_each_action() {
    let mut state = App { auto_copy_picked_color: true, ..app() };
    assert_eq!(state.run(Action::ToggleSidePanel), None);
    assert!(state.sidepanel_show);
    assert_eq!(state.run(Action::SaveColor), None);
    assert_eq!(state.palette.last(), Some(&under_cursor()));
    assert_eq!(state.run(Action::PickColor), Some(under_cursor()));
    assert_eq!(state.current_color, under_cursor());
}

#[test]
fn the_hues_panel_shows_the_hues_of_the_current_color() {
    let mut state = app_at(TopMenuTab::Hues);
    let shown = state.hues(18_000, 4, true).unwrap();
    assert_eq!(shown, current().hues(4, 18_000));
    let hues: Vec<u32> = shown.iter().map(|c| c.hue()).collect();
    assert_eq!(hues, vec![30_000, 48_000, 66_000, 84_000]);
    assert_eq!(state, app_at(TopMenuTab::Hues));
}

#[test]
fn the_hues_panel_takes_what_its_controls_hold() {
    let mut state = app_at(TopMenuTab::Hues);
    let shown = state.hues(9_000, 7, true).unwrap();
    assert_eq!(state, App { hues_step: 9_000, num_of_hues: 7, ..app_at(TopMenuTab::Hues) });
    assert_eq!(shown, current().hues(7, 9_000));
}

#[test]
fn the_hues_panel_cuts_the_number_of_hues_to_half_a_turn() {
    let mut state = app_at(TopMenuTab::Hues);
    let shown = state.hues(36_000, 200, true).unwrap();
    assert_eq!(state.num_of_hues, 5);
    assert_eq!(state.hues_step, 36_000);
    assert_eq!(shown.len(), 5);
    let shown = state.hues(3_600, 200, true).unwrap();
    assert_eq!(state.num_of_hues, 50);
    assert_eq!(shown.len(), 50);
}

#[test]
fn the_hues_panel_keeps_the_step_within_its_range() {
    let mut state = app_at(TopMenuTab::Hues);
    state.hues(0, 255, true).unwrap();
    assert_eq!(state.hues_step, MIN_HUES_STEP);
    assert_eq!(state.hues_step, 3_600);
    assert_eq!(state.num_of_hues, 50);
    state.hues(u32::MAX, 255, true).unwrap();
    assert_eq!(state.hues_step, MAX_HUES_STEP);
    assert_eq!(state.hues_step, 36_000);
    assert_eq!(state.num_of_hues, 5);
}

#[test]
fn closing_the_hues_window_closes_the_tab() {
    let mut state = app_at(TopMenuTab::Hues);
    assert_eq!(state.hues(9_000, 7, false), None);
    assert_eq!(state, App { hues_step: 9_000, num_of_hues: 7, ..app() });
    assert_eq!(state.hues(18_000, 4, true), None);
    assert_eq!(state, App { hues_step: 9_000, num_of_hues: 7, ..app() });
}

#[test]
fn the_hues_panel_does_nothing_under_another_tab() {
    for tab in [None, Some(TopMenuTab::Tints), Some(TopMenuTab::Shades)] {
        let mut state = App { current_tab: tab, ..app() };
        assert_eq!(state.hues(9_000, 7, false), None);
        assert_eq!(state, App { current_tab: tab, ..app() });
    }
}

#[test]
fn the_tints_panel_shows_the_tints_of_the_current_color() {
    let mut state = app_at(TopMenuTab::Tints);
    let shown = state.tints(3, true).unwrap();
    let lightness: Vec<u32> = shown.iter().map(|c| c.lightness()).collect();
    assert_eq!(lightness, vec![400_000, 600_000, 800_000]);
    assert_eq!(shown[0], current());
    assert_eq!(state, app_at(TopMenuTab::Tints));
}

#[test]
fn the_tints_panel_shows_at_most_fifty() {
    let mut state = app_at(TopMenuTab::Tints);
    assert_eq!(state.tints(50, true).unwrap().len(), 50);
    assert_eq!(state.num_of_tints, 50);
    assert_eq!(state.tints(51, true).unwrap().len(), 50);
    assert_eq!(state.num_of_tints, MAX_TINTS);
    assert_eq!(state.tints(255, true).unwrap().len(), 50);
    assert_eq!(state.tints(0, true).unwrap().len(), 0);
    assert_eq!(state.num_of_tints, 0);
}

#[test]
fn closing_the_tints_window_closes_the_tab() {
    let mut state = app_at(TopMenuTab::Tints);
    assert_eq!(state.tints(9, false), None);
    assert_eq!(state, App { num_of_tints: 9, ..app() });
}

#[test]
fn the_tints_panel_does_nothing_under_another_tab() {
    for tab in [None, Some(TopMenuTab::Hues), Some(TopMenuTab::Shades)] {
        let mut state = App { current_tab: tab, ..app() };
        assert_eq!(state.tints(9, false), None);
        assert_eq!(state, App { current_tab: tab, ..app() });
    }
}

#[test]
fn the_shades_panel_shows_the_shades_of_the_current_color() {
    let mut state = app_at(TopMenuTab::Shades);
    let shown = state.shades(2, true).unwrap();
    let lightness: Vec<u32> = shown.iter().map(|c| c.lightness()).collect();
    assert_eq!(lightness, vec![400_000, 200_000]);
    assert_eq!(shown[0], current());
    assert_eq!(state, app_at(TopMenuTab::Shades));
}

#[test]
fn the_shades_panel_shows_at_most_fifty() {
    let mut state = app_at(TopMenuTab::Shades);
    assert_eq!(state.shades(50, true).unwrap().len(), 50);
    assert_eq!(state.shades(51, true).unwrap().len(), 50);
    assert_eq!(state.num_of_shades, MAX_SHADES);
    assert_eq!(state.shades(0, true).unwrap().len(), 0);
}

#[test]
fn closing_the_shades_window_closes_the_tab() {
    let mut state = app_at(TopMenuTab::Shades);
    assert_eq!(state.shades(9, false), None);
    assert_eq!(state, App { num_of_shades: 9, ..app() });
}

#[test]
fn the_shades_panel_does_nothing_under_another_tab() {
    for tab in [None, Some(TopMenuTab::Hues), Some(TopMenuTab::Tints)] {
        let mut state = App { current_tab: tab, ..app() };
        assert_eq!(state.shades(9, false), None);
        assert_eq!(state, App { current_tab: tab, ..app() });
    }
}

#[test]
fn the_schemes_panel_takes_the_chosen_scheme() {
    let mut state = app();
    let rows = state.schemes(SchemeType::Triadic);
    assert_eq!(state, App { scheme_type: SchemeType::Triadic, ..app() });
    assert_eq!(
        rows,
        vec![
            vec![Swatch { color: current(), wide: true }],
            vec![
                Swatch { color: Color::new(150 * DEGREE, 500_000, 400_000), wide: false },
                Swatch { color: Color::new(270 * DEGREE, 500_000, 400_000), wide: false },
            ],
        ]
    );
}

#[test]
fn the_schemes_panel_starts_with_the_current_color() {
    for scheme in SchemeType::all() {
        let mut state = app();
        let rows = state.schemes(scheme);
        assert_eq!(rows[0][0].color, current());
        assert_eq!(state.scheme_type, scheme);
        assert_eq!(state.current_color, current());
    }
}
