//! The core of a color picker: HSL colors in fixed point, the colors derived
//! from them by the classic harmony rules, the swatch panels that show them,
//! and the key bindings that act on the picker's state.

pub mod color;
pub mod scheme;
pub mod keybinding;
pub mod picker;
