//! Themes, palettes and widget state logic for egui, with the rules that the
//! widgets rely on stated and proved.

pub mod color;
pub mod overlay;
pub mod theme;
pub mod utils;
pub mod gradient;
pub mod components;
pub mod visuals;
pub mod align;
pub mod widgets;
pub mod themes;
