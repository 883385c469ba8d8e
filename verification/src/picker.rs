//! The state of the picker, and how key presses and the panels' controls
//! change it.

use vstd::prelude::*;
use crate::color::count_hues;
use crate::color::hue_count;
use crate::color::Color;
use crate::color::Hsl;
use crate::keybinding::Action;
use crate::keybinding::Binding;
use crate::keybinding::Key;
use crate::keybinding::KeyBindings;
use crate::scheme::scheme_rows;
use crate::scheme::scheme_swatches;
use crate::scheme::SchemeType;
use crate::scheme::Swatch;

verus! {

/// The smallest step of the hues panel: a hundredth of a turn.
pub const MIN_HUES_STEP: u32 = 3_600;

/// The largest step of the hues panel: a tenth of a turn.
pub const MAX_HUES_STEP: u32 = 36_000;

/// The most tints that the tints panel shows.
pub const MAX_TINTS: u8 = 50;

/// The most shades that the shades panel shows.
pub const MAX_SHADES: u8 = 50;

/// The panels that the top menu opens. At most one is open at a time.
#[derive(Clone, Copy, Debug, PartialEq, Eq, Structural)]
pub enum TopMenuTab {
    Hues,
    Tints,
    Shades,
}

/// The model of the picker's state.
pub struct State {
    pub current_tab: Option<TopMenuTab>,
    pub current_color: Hsl,
    pub scheme_type: SchemeType,
    pub num_of_hues: int,
    pub hues_step: int,
    pub num_of_tints: int,
    pub num_of_shades: int,
    pub sidepanel_show: bool,
    pub cursor_pick_color: Hsl,
    pub auto_copy_picked_color: bool,
    pub palette: Seq<Hsl>,
}

/// The value within `low..=high` that is nearest to `value`.
pub open spec fn clamped(value: int, low: int, high: int) -> int {
    if value < low {
        low
    } else if value > high {
        high
    } else {
        value
    }
}

impl State {
    /// The state after an action.
    pub open spec fn run(self, action: Action) -> State {
        match action {
            Action::ToggleSidePanel => State { sidepanel_show: !self.sidepanel_show, ..self },
            Action::PickColor => State { current_color: self.cursor_pick_color, ..self },
            Action::SaveColor => State {
                palette: self.palette.push(self.cursor_pick_color),
                ..self
            },
        }
    }

    /// The color that an action hands to the clipboard, if it hands one.
    pub open spec fn copied(self, action: Action) -> Option<Hsl> {
        if action == Action::PickColor && self.auto_copy_picked_color {
            Some(self.cursor_pick_color)
        } else {
            None
        }
    }

    /// The state after a key press: that after the key's action where the
    /// key is bound, the same state where it is not.
    pub open spec fn pressed(self, bindings: Map<Key, Binding>, key: Key) -> State {
        if bindings.contains_key(key) {
            self.run(bindings[key].action)
        } else {
            self
        }
    }

    /// The color that a key press hands to the clipboard, if it hands one.
    pub open spec fn pressed_copy(self, bindings: Map<Key, Binding>, key: Key) -> Option<Hsl> {
        if bindings.contains_key(key) {
            self.copied(bindings[key].action)
        } else {
            None
        }
    }

    /// The state after the hues panel's controls were set to `step` and
    /// `num_of_hues`, and its window left open or closed.
    pub open spec fn hues_set(self, step: int, num_of_hues: int, open: bool) -> State {
        if self.current_tab == Some(TopMenuTab::Hues) {
            let step = clamped(step, MIN_HUES_STEP as int, MAX_HUES_STEP as int);
            State {
                current_tab: if open {
                    self.current_tab
                } else {
                    None
                },
                hues_step: step,
                num_of_hues: hue_count(num_of_hues, step),
                ..self
            }
        } else {
            self
        }
    }

    /// What the hues panel shows: nothing unless it is open.
    pub open spec fn hues_shown(self) -> Option<Seq<Hsl>> {
        if self.current_tab == Some(TopMenuTab::Hues) {
            Some(self.current_color.hues(self.num_of_hues, self.hues_step))
        } else {
            None
        }
    }

    /// The state after the tints panel's control was set to `num_of_tints`,
    /// and its window left open or closed.
    pub open spec fn tints_set(self, num_of_tints: int, open: bool) -> State {
        if self.current_tab == Some(TopMenuTab::Tints) {
            State {
                current_tab: if open {
                    self.current_tab
                } else {
                    None
                },
                num_of_tints: clamped(num_of_tints, 0, MAX_TINTS as int),
                ..self
            }
        } else {
            self
        }
    }

    /// What the tints panel shows: nothing unless it is open.
    pub open spec fn tints_shown(self) -> Option<Seq<Hsl>> {
        if self.current_tab == Some(TopMenuTab::Tints) {
            Some(self.current_color.tints(self.num_of_tints))
        } else {
            None
        }
    }

    /// The state after the shades panel's control was set to
    /// `num_of_shades`, and its window left open or closed.
    pub open spec fn shades_set(self, num_of_shades: int, open: bool) -> State {
        if self.current_tab == Some(TopMenuTab::Shades) {
            State {
                current_tab: if open {
                    self.current_tab
                } else {
                    None
                },
                num_of_shades: clamped(num_of_shades, 0, MAX_SHADES as int),
                ..self
            }
        } else {
            self
        }
    }

    /// What the shades panel shows: nothing unless it is open.
    pub open spec fn shades_shown(self) -> Option<Seq<Hsl>> {
        if self.current_tab == Some(TopMenuTab::Shades) {
            Some(self.current_color.shades(self.num_of_shades))
        } else {
            None
        }
    }
}

/// The picker's state: what the panels show and what the key bindings act on.
#[derive(Clone, Debug, PartialEq, Eq)]
pub struct App {
    /// The panel that is open, if one is.
    pub current_tab: Option<TopMenuTab>,
    /// The color that the panels derive from.
    pub current_color: Color,
    /// The scheme that the schemes panel shows.
    pub scheme_type: SchemeType,
    /// How many hues the hues panel asks for.
    pub num_of_hues: u8,
    /// The step between two hues of the hues panel, in hue units.
    pub hues_step: u32,
    /// How many tints the tints panel shows.
    pub num_of_tints: u8,
    /// How many shades the shades panel shows.
    pub num_of_shades: u8,
    /// Whether the side panel is shown.
    pub sidepanel_show: bool,
    /// The color under the cursor.
    pub cursor_pick_color: Color,
    /// Whether picking a color also copies it to the clipboard.
    pub auto_copy_picked_color: bool,
    /// The colors saved so far, oldest first.
    pub palette: Vec<Color>,
}

impl View for App {
    type V = State;

    open spec fn view(&self) -> State {
        State {
            current_tab: self.current_tab,
            current_color: self.current_color@,
            scheme_type: self.scheme_type,
            num_of_hues: self.num_of_hues as int,
            hues_step: self.hues_step as int,
            num_of_tints: self.num_of_tints as int,
            num_of_shades: self.num_of_shades as int,
            sidepanel_show: self.sidepanel_show,
            cursor_pick_color: self.cursor_pick_color@,
            auto_copy_picked_color: self.auto_copy_picked_color,
            palette: self.palette.deep_view(),
        }
    }
}

impl App {
    /// Performs an action. Returns the color to copy to the clipboard, if
    /// the action asks for that: whether the copy succeeds is nothing to the
    /// state.
    pub fn run(&mut self, action: Action) -> (copied: Option<Color>)
        ensures
            final(self)@ == old(self)@.run(action),
            copied.deep_view() == old(self)@.copied(action),
    {
        match action {
            Action::ToggleSidePanel => {
                self.sidepanel_show = !self.sidepanel_show;
                None
            },
            Action::PickColor => {
                self.current_color = self.cursor_pick_color;
                if self.auto_copy_picked_color {
                    Some(self.cursor_pick_color)
                } else {
                    None
                }
            },
            Action::SaveColor => {
                let color = self.cursor_pick_color;
                self.palette.push(color);
                proof {
                    assert(self.palette.deep_view() =~= old(self).palette.deep_view().push(color@));
                }
                None
            },
        }
    }

    /// Handles a key press: performs the action that `bindings` has for
    /// `key`. A key without a binding changes nothing.
    pub fn key_pressed(&mut self, bindings: &KeyBindings, key: Key) -> (copied: Option<Color>)
        ensures
            final(self)@ == old(self)@.pressed(bindings@, key),
            copied.deep_view() == old(self)@.pressed_copy(bindings@, key),
            !bindings@.contains_key(key) ==> *final(self) == *old(self) && copied is None,
    {
        match bindings.get(key) {
            Some(bound) => self.run(bound.binding()),
            None => None,
        }
    }

    /// One turn of the hues panel. `step` and `num_of_hues` are what the
    /// panel's two controls hold after the user's turn, `open` is whether the
    /// window is still open. Where the hues tab is not the current one,
    /// nothing changes and nothing is shown. Else the step is brought within
    /// `MIN_HUES_STEP..=MAX_HUES_STEP`, the number of hues is cut to what
    /// that step lets stay within half a turn, and a closed window closes
    /// the tab. Returns the hues to show, of the current color, while the
    /// tab stays open.
    pub fn hues(&mut self, step: u32, num_of_hues: u8, open: bool) -> (shown: Option<Vec<Color>>)
        ensures
            final(self)@ == old(self)@.hues_set(step as int, num_of_hues as int, open),
            shown.deep_view() == final(self)@.hues_shown(),
            old(self).current_tab != Some(TopMenuTab::Hues) ==> *final(self) == *old(self),
            shown matches Some(hues) ==> {
                &&& hues@.len() == final(self).num_of_hues
                &&& hues@.len() <= num_of_hues
                &&& hues@.len() <= crate::color::HALF_CIRCLE / final(self).hues_step
                &&& hues@.len() > 0 ==> hues@[0] == final(self).current_color
            },
    {
        match self.current_tab {
            Some(TopMenuTab::Hues) => {},
            _ => {
                return None;
            },
        }
        let step: u32 = if step < MIN_HUES_STEP {
            MIN_HUES_STEP
        } else if step > MAX_HUES_STEP {
            MAX_HUES_STEP
        } else {
            step
        };
        self.hues_step = step;
        self.num_of_hues = count_hues(num_of_hues, step);
        if !open {
            self.current_tab = None;
            return None;
        }
        let hues = self.current_color.hues(self.num_of_hues, self.hues_step);
        Some(hues)
    }

    /// One turn of the tints panel. `num_of_tints` is what the panel's
    /// control holds after the user's turn, `open` is whether the window is
    /// still open. Where the tints tab is not the current one, nothing
    /// changes and nothing is shown. Else the number of tints is cut to
    /// `MAX_TINTS`, and a closed window closes the tab. Returns the tints
    /// to show, of the current color, while the tab stays open.
    pub fn tints(&mut self, num_of_tints: u8, open: bool) -> (shown: Option<Vec<Color>>)
        ensures
            final(self)@ == old(self)@.tints_set(num_of_tints as int, open),
            shown.deep_view() == final(self)@.tints_shown(),
            old(self).current_tab != Some(TopMenuTab::Tints) ==> *final(self) == *old(self),
            shown matches Some(tints) ==> {
                &&& tints@.len() == final(self).num_of_tints
                &&& tints@.len() <= MAX_TINTS
                &&& tints@.len() > 0 ==> tints@[0] == final(self).current_color
            },
    {
        match self.current_tab {
            Some(TopMenuTab::Tints) => {},
            _ => {
                return None;
            },
        }
        self.num_of_tints = if num_of_tints > MAX_TINTS {
            MAX_TINTS
        } else {
            num_of_tints
        };
        if !open {
            self.current_tab = None;
            return None;
        }
        let tints = self.current_color.tints(self.num_of_tints);
        Some(tints)
    }

    /// One turn of the shades panel. `num_of_shades` is what the panel's
    /// control holds after the user's turn, `open` is whether the window is
    /// still open. Where the shades tab is not the current one, nothing
    /// changes and nothing is shown. Else the number of shades is cut to
    /// `MAX_SHADES`, and a closed window closes the tab. Returns the shades
    /// to show, of the current color, while the tab stays open.
    pub fn shades(&mut self, num_of_shades: u8, open: bool) -> (shown: Option<Vec<Color>>)
        ensures
            final(self)@ == old(self)@.shades_set(num_of_shades as int, open),
            shown.deep_view() == final(self)@.shades_shown(),
            old(self).current_tab != Some(TopMenuTab::Shades) ==> *final(self) == *old(self),
            shown matches Some(shades) ==> {
                &&& shades@.len() == final(self).num_of_shades
                &&& shades@.len() <= MAX_SHADES
                &&& shades@.len() > 0 ==> shades@[0] == final(self).current_color
            },
    {
        match self.current_tab {
            Some(TopMenuTab::Shades) => {},
            _ => {
                return None;
            },
        }
        self.num_of_shades = if num_of_shades > MAX_SHADES {
            MAX_SHADES
        } else {
            num_of_shades
        };
        if !open {
            self.current_tab = None;
            return None;
        }
        let shades = self.current_color.shades(self.num_of_shades);
        Some(shades)
    }

    /// One turn of the schemes panel. `scheme_type` is what the panel's
    /// chooser holds after the user's turn: it becomes the scheme of the
    /// state. Returns the rows of swatches that show this scheme of the
    /// current color; the first swatch of the first row is the current
    /// color itself.
    pub fn schemes(&mut self, scheme_type: SchemeType) -> (rows: Vec<Vec<Swatch>>)
        ensures
            final(self)@ == (State { scheme_type, ..old(self)@ }),
            rows.deep_view() == scheme_rows(old(self)@.current_color, scheme_type),
            rows@.len() > 0,
            rows@[0]@.len() > 0,
            rows@[0]@[0].color == old(self).current_color,
    {
        self.scheme_type = scheme_type;
        scheme_swatches(self.current_color, scheme_type)
    }
}

/// A key without a binding leaves the state as it was and copies nothing.
pub proof fn lemma_unbound_key_changes_nothing(state: State, bindings: Map<Key, Binding>, key: Key)
    requires
        !bindings.contains_key(key),
    ensures
        state.pressed(bindings, key) == state,
        state.pressed_copy(bindings, key) is None,
{
}

} // verus!
