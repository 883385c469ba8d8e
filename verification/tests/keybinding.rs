use colorpicker::keybinding::default_keybindings;
use colorpicker::keybinding::Action;
use colorpicker::keybinding::Key;
use colorpicker::keybinding::KeyBinding;
use colorpicker::keybinding::KeyBindings;
use colorpicker::keybinding::KEY_COUNT;

fn every_key() -> Vec<Key> {
    vec![
        Key::ArrowDown,
        Key::ArrowLeft,
        Key::ArrowRight,
        Key::ArrowUp,
        Key::Escape,
        Key::Tab,
        Key::Backspace,
        Key::Enter,
        Key::Space,
        Key::Insert,
        Key::Delete,
        Key::Home,
        Key::End,
        Key::PageUp,
        Key::PageDown,
        Key::Num0,
        Key::Num1,
        Key::Num2,
        Key::Num3,
        Key::Num4,
        Key::Num5,
        Key::Num6,
        Key::Num7,
        Key::Num8,
        Key::Num9,
        Key::A,
        Key::B,
        Key::C,
        Key::D,
        Key::E,
        Key::F,
        Key::G,
        Key::H,
        Key::I,
        Key::J,
        Key::K,
        Key::L,
        Key::M,
        Key::N,
        Key::O,
        Key::P,
        Key::Q,
        Key::R,
        Key::S,
        Key::T,
        Key::U,
        Key::V,
        Key::W,
        Key::X,
        Key::Y,
        Key::Z,
    ]
}

#[test]
fn codes_count_the_keys_in_order() {
    let keys = every_key();
    assert_eq!(keys.len(), KEY_COUNT as usize);
    for (place, key) in keys.iter().enumerate() {
        assert_eq!(key.code() as usize, place);
    }
    assert_eq!(Key::ArrowDown.code(), 0);
    assert_eq!(Key::Num0.code(), 15);
    assert_eq!(Key::A.code(), 25);
    assert_eq!(Key::H.code(), 32);
    assert_eq!(Key::Z.code(), 50);
}

#[test]
fn a_binding_gives_back_what_it_was_made_of() {
    let bound = KeyBinding::new("does a thing", "x", Key::X, Action::SaveColor);
    assert_eq!(bound.description(), "does a thing");
    assert_eq!(bound.str_key(), "x");
    assert_eq!(bound.key(), Key::X);
    assert_eq!(bound.binding(), Action::SaveColor);
}

#[test]
fn default_keybindings_bind_h_p_and_s() {
    let bindings = default_keybindings();

    let h = bindings.get(Key::H).unwrap();
    assert_eq!(h.description(), "toggle the side panel");
    assert_eq!(h.str_key(), "h");
    assert_eq!(h.key(), Key::H);
    assert_eq!(h.binding(), Action::ToggleSidePanel);

    let p = bindings.get(Key::P).unwrap();
    assert_eq!(p.description(), "pick a color from under the cursor");
    assert_eq!(p.str_key(), "p");
    assert_eq!(p.key(), Key::P);
    assert_eq!(p.binding(), Action::PickColor);

    let s = bindings.get(Key::S).unwrap();
    assert_eq!(s.description(), "save a color from under the cursor");
    assert_eq!(s.str_key(), "s");
    assert_eq!(s.key(), Key::S);
    assert_eq!(s.binding(), Action::SaveColor);
}

#[test]
fn default_keybindings_bind_no_other_key() {
    let bindings = default_keybindings();
    for key in every_key() {
        let bound = matches!(key, Key::H | Key::P | Key::S);
        assert_eq!(bindings.get(key).is_some(), bound);
    }
}

#[test]
fn iter_lists_the_default_bindings_in_key_order() {
    let all = default_keybindings().iter();
    let keys: Vec<Key> = all.iter().map(|b| b.key()).collect();
    assert_eq!(keys, vec![Key::H, Key::P, Key::S]);
    let texts: Vec<&str> = all.iter().map(|b| b.str_key()).collect();
    assert_eq!(texts, vec!["h", "p", "s"]);
}

#[test]
fn an_empty_registry_binds_nothing() {
    let bindings = KeyBindings::new(Vec::new());
    assert!(bindings.iter().is_empty());
    for key in every_key() {
        assert!(bindings.get(key).is_none());
    }
}

#[test]
fn each_binding_stands_under_its_key() {
    let bindings = KeyBindings::new(vec![
        KeyBinding::new("last", "z", Key::Z, Action::SaveColor),
        KeyBinding::new("first", "down", Key::ArrowDown, Action::PickColor),
        KeyBinding::new("middle", "0", Key::Num0, Action::ToggleSidePanel),
    ]);
    assert_eq!(bindings.get(Key::Z).unwrap().description(), "last");
    assert_eq!(bindings.get(Key::ArrowDown).unwrap().description(), "first");
    assert_eq!(bindings.get(Key::Num0).unwrap().description(), "middle");
    assert!(bindings.get(Key::Num1).is_none());
    let keys: Vec<Key> = bindings.iter().iter().map(|b| b.key()).collect();
    assert_eq!(keys, vec![Key::ArrowDown, Key::Num0, Key::Z]);
}

#[test]
fn of_two_bindings_of_one_key_the_later_stands() {
    let bindings = KeyBindings::new(vec![
        KeyBinding::new("earlier", "a", Key::A, Action::SaveColor),
        KeyBinding::new("other", "b", Key::B, Action::SaveColor),
        KeyBinding::new("later", "a", Key::A, Action::PickColor),
    ]);
    let a = bindings.get(Key::A).unwrap();
    assert_eq!(a.description(), "later");
    assert_eq!(a.binding(), Action::PickColor);
    assert_eq!(bindings.iter().len(), 2);
}

#[test]
fn every_key_can_be_bound() {
    let all: Vec<KeyBinding> = every_key()
        .into_iter()
        .map(|key| KeyBinding::new("any", "k", key, Action::ToggleSidePanel))
        .collect();
    let bindings = KeyBindings::new(all);
    let listed: Vec<Key> = bindings.iter().iter().map(|b| b.key()).collect();
    assert_eq!(listed, every_key());
}
