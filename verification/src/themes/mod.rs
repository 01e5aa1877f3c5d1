//! Built-in palettes.
//!
//! Slot roles (`bg` vs `widget_bg`, `hover` vs `highlight`, ...) are fixed;
//! a palette may alias slots (the title bar may be the canvas) but must not
//! collapse jobs: hover, selection and muted text stay three paints, and body
//! text differs from the canvas and from muted text.

use crate::theme::ThemeColors;
use vstd::prelude::*;

pub mod reverie;
pub mod shade_sanctuary;
pub mod tokyo_night;
pub mod tokyo_night_light;

verus! {

/// The palette keeps its jobs apart: every color is opaque, the title bar is
/// the canvas, selection (`highlight`) differs from `hover` and from
/// `text_muted`, `hover` differs from `text_muted`, and `text` differs from
/// `text_muted`, `bg` and `widget_bg`.
pub open spec fn distinct_roles(c: ThemeColors) -> bool {
    &&& c.title_bar == c.bg
    &&& c.highlight != c.hover
    &&& c.highlight != c.text_muted
    &&& c.hover != c.text_muted
    &&& c.text != c.text_muted
    &&& c.text != c.bg
    &&& c.text != c.widget_bg
    &&& c.title_bar.a == 255 && c.bg.a == 255 && c.widget_bg.a == 255 && c.hover.a == 255
    &&& c.text.a == 255 && c.text_muted.a == 255 && c.highlight.a == 255 && c.border.a == 255
    &&& c.accent.a == 255 && c.error.a == 255 && c.warning.a == 255 && c.success.a == 255
    &&& c.info.a == 255
}

} // verus!
