//! Shade Sanctuary (Obsidian, dark): warm paper on violet shade, orchid
//! focus, cyan links.

use crate::color::Color32;
use crate::theme::ThemeColors;
use crate::themes::distinct_roles;
use vstd::prelude::*;

verus! {

/// The palette of this theme.
pub open spec fn palette() -> ThemeColors {
    ThemeColors {
        title_bar: Color32 { r: 25, g: 11, b: 45, a: 255 },
        bg: Color32 { r: 25, g: 11, b: 45, a: 255 },
        widget_bg: Color32 { r: 34, g: 18, b: 56, a: 255 },
        hover: Color32 { r: 59, g: 48, b: 75, a: 255 },
        text: Color32 { r: 250, g: 244, b: 237, a: 255 },
        text_muted: Color32 { r: 145, g: 129, b: 167, a: 255 },
        highlight: Color32 { r: 93, g: 56, b: 114, a: 255 },
        border: Color32 { r: 85, g: 56, b: 126, a: 255 },
        accent: Color32 { r: 201, g: 82, b: 237, a: 255 },
        error: Color32 { r: 231, g: 84, b: 117, a: 255 },
        warning: Color32 { r: 235, g: 153, b: 71, a: 255 },
        success: Color32 { r: 82, g: 238, b: 163, a: 255 },
        info: Color32 { r: 81, g: 225, b: 233, a: 255 },
    }
}

/// The palette of this theme. Every color is opaque, the canvas doubles as
/// the title bar, and hover, selection and muted text are three different
/// paints.
pub fn colors() -> (c: ThemeColors)
    ensures
        c == palette(),
        distinct_roles(c),
{
    ThemeColors {
        title_bar: Color32 { r: 25, g: 11, b: 45, a: 255 },
        bg: Color32 { r: 25, g: 11, b: 45, a: 255 },
        widget_bg: Color32 { r: 34, g: 18, b: 56, a: 255 },
        hover: Color32 { r: 59, g: 48, b: 75, a: 255 },
        text: Color32 { r: 250, g: 244, b: 237, a: 255 },
        text_muted: Color32 { r: 145, g: 129, b: 167, a: 255 },
        highlight: Color32 { r: 93, g: 56, b: 114, a: 255 },
        border: Color32 { r: 85, g: 56, b: 126, a: 255 },
        accent: Color32 { r: 201, g: 82, b: 237, a: 255 },
        error: Color32 { r: 231, g: 84, b: 117, a: 255 },
        warning: Color32 { r: 235, g: 153, b: 71, a: 255 },
        success: Color32 { r: 82, g: 238, b: 163, a: 255 },
        info: Color32 { r: 81, g: 225, b: 233, a: 255 },
    }
}

} // verus!
