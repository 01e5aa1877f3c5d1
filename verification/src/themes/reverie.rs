//! Reverie (Obsidian, dark): warm parchment on cool ink, teal focus, icy
//! heading-cyan links.

use crate::color::Color32;
use crate::theme::ThemeColors;
use crate::themes::distinct_roles;
use vstd::prelude::*;

verus! {

/// The palette of this theme.
pub open spec fn palette() -> ThemeColors {
    ThemeColors {
        title_bar: Color32 { r: 26, g: 32, b: 35, a: 255 },
        bg: Color32 { r: 26, g: 32, b: 35, a: 255 },
        widget_bg: Color32 { r: 34, g: 43, b: 47, a: 255 },
        hover: Color32 { r: 52, g: 63, b: 67, a: 255 },
        text: Color32 { r: 250, g: 242, b: 214, a: 255 },
        text_muted: Color32 { r: 189, g: 174, b: 147, a: 255 },
        highlight: Color32 { r: 50, g: 102, b: 99, a: 255 },
        border: Color32 { r: 75, g: 96, b: 96, a: 255 },
        accent: Color32 { r: 44, g: 202, b: 183, a: 255 },
        error: Color32 { r: 224, g: 122, b: 95, a: 255 },
        warning: Color32 { r: 201, g: 216, b: 106, a: 255 },
        success: Color32 { r: 142, g: 192, b: 124, a: 255 },
        info: Color32 { r: 138, g: 184, b: 189, a: 255 },
    }
}

/// The palette of this theme. Every color is opaque, the canvas doubles as
/// the title bar, and hover, selection and muted text are three different
/// paints.
pub fn colors() -> (c: ThemeColors)
    ensures
        c == palette(),
        distinct_roles(c),
{
    ThemeColors {
        title_bar: Color32 { r: 26, g: 32, b: 35, a: 255 },
        bg: Color32 { r: 26, g: 32, b: 35, a: 255 },
        widget_bg: Color32 { r: 34, g: 43, b: 47, a: 255 },
        hover: Color32 { r: 52, g: 63, b: 67, a: 255 },
        text: Color32 { r: 250, g: 242, b: 214, a: 255 },
        text_muted: Color32 { r: 189, g: 174, b: 147, a: 255 },
        highlight: Color32 { r: 50, g: 102, b: 99, a: 255 },
        border: Color32 { r: 75, g: 96, b: 96, a: 255 },
        accent: Color32 { r: 44, g: 202, b: 183, a: 255 },
        error: Color32 { r: 224, g: 122, b: 95, a: 255 },
        warning: Color32 { r: 201, g: 216, b: 106, a: 255 },
        success: Color32 { r: 142, g: 192, b: 124, a: 255 },
        info: Color32 { r: 138, g: 184, b: 189, a: 255 },
    }
}

} // verus!
