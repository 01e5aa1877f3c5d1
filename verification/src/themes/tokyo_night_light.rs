//! Tokyo Night Light: cool paper canvas, elevation by shadow, teal focus,
//! iris links, wine / amber / pine semantics.

use crate::color::Color32;
use crate::theme::ThemeColors;
use crate::themes::distinct_roles;
use vstd::prelude::*;

verus! {

/// The palette of this theme.
pub open spec fn palette() -> ThemeColors {
    ThemeColors {
        title_bar: Color32 { r: 214, g: 216, b: 223, a: 255 },
        bg: Color32 { r: 214, g: 216, b: 223, a: 255 },
        widget_bg: Color32 { r: 230, g: 231, b: 237, a: 255 },
        hover: Color32 { r: 200, g: 203, b: 214, a: 255 },
        text: Color32 { r: 42, g: 47, b: 74, a: 255 },
        text_muted: Color32 { r: 61, g: 69, b: 102, a: 255 },
        highlight: Color32 { r: 172, g: 176, b: 191, a: 255 },
        border: Color32 { r: 193, g: 194, b: 199, a: 255 },
        accent: Color32 { r: 10, g: 90, b: 110, a: 255 },
        error: Color32 { r: 155, g: 32, b: 54, a: 255 },
        warning: Color32 { r: 138, g: 61, b: 0, a: 255 },
        success: Color32 { r: 13, g: 92, b: 64, a: 255 },
        info: Color32 { r: 85, g: 32, b: 168, a: 255 },
    }
}

/// The palette of this theme. Every color is opaque, the canvas doubles as
/// the title bar, and hover, selection and muted text are three different
/// paints.
pub fn colors() -> (c: ThemeColors)
    ensures
        c == palette(),
        distinct_roles(c),
{
    ThemeColors {
        title_bar: Color32 { r: 214, g: 216, b: 223, a: 255 },
        bg: Color32 { r: 214, g: 216, b: 223, a: 255 },
        widget_bg: Color32 { r: 230, g: 231, b: 237, a: 255 },
        hover: Color32 { r: 200, g: 203, b: 214, a: 255 },
        text: Color32 { r: 42, g: 47, b: 74, a: 255 },
        text_muted: Color32 { r: 61, g: 69, b: 102, a: 255 },
        highlight: Color32 { r: 172, g: 176, b: 191, a: 255 },
        border: Color32 { r: 193, g: 194, b: 199, a: 255 },
        accent: Color32 { r: 10, g: 90, b: 110, a: 255 },
        error: Color32 { r: 155, g: 32, b: 54, a: 255 },
        warning: Color32 { r: 138, g: 61, b: 0, a: 255 },
        success: Color32 { r: 13, g: 92, b: 64, a: 255 },
        info: Color32 { r: 85, g: 32, b: 168, a: 255 },
    }
}

} // verus!
