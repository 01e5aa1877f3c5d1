//! Tokyo Night: cool night canvas, elevation by shadow, cyan focus, purple
//! links, salmon / camel / teal semantics.

use crate::color::Color32;
use crate::theme::ThemeColors;
use crate::themes::distinct_roles;
use vstd::prelude::*;

verus! {

/// The palette of this theme.
pub open spec fn palette() -> ThemeColors {
    ThemeColors {
        title_bar: Color32 { r: 22, g: 22, b: 30, a: 255 },
        bg: Color32 { r: 22, g: 22, b: 30, a: 255 },
        widget_bg: Color32 { r: 26, g: 27, b: 38, a: 255 },
        hover: Color32 { r: 40, g: 47, b: 65, a: 255 },
        text: Color32 { r: 190, g: 204, b: 244, a: 255 },
        text_muted: Color32 { r: 120, g: 134, b: 174, a: 255 },
        highlight: Color32 { r: 56, g: 80, b: 103, a: 255 },
        border: Color32 { r: 65, g: 73, b: 97, a: 255 },
        accent: Color32 { r: 118, g: 210, b: 253, a: 255 },
        error: Color32 { r: 255, g: 91, b: 103, a: 255 },
        warning: Color32 { r: 218, g: 147, b: 61, a: 255 },
        success: Color32 { r: 72, g: 182, b: 120, a: 255 },
        info: Color32 { r: 194, g: 111, b: 255, a: 255 },
    }
}

/// The palette of this theme. Every color is opaque, the canvas doubles as
/// the title bar, and hover, selection and muted text are three different
/// paints.
pub fn colors() -> (c: ThemeColors)
    ensures
        c == palette(),
        distinct_roles(c),
{
    ThemeColors {
        title_bar: Color32 { r: 22, g: 22, b: 30, a: 255 },
        bg: Color32 { r: 22, g: 22, b: 30, a: 255 },
        widget_bg: Color32 { r: 26, g: 27, b: 38, a: 255 },
        hover: Color32 { r: 40, g: 47, b: 65, a: 255 },
        text: Color32 { r: 190, g: 204, b: 244, a: 255 },
        text_muted: Color32 { r: 120, g: 134, b: 174, a: 255 },
        highlight: Color32 { r: 56, g: 80, b: 103, a: 255 },
        border: Color32 { r: 65, g: 73, b: 97, a: 255 },
        accent: Color32 { r: 118, g: 210, b: 253, a: 255 },
        error: Color32 { r: 255, g: 91, b: 103, a: 255 },
        warning: Color32 { r: 218, g: 147, b: 61, a: 255 },
        success: Color32 { r: 72, g: 182, b: 120, a: 255 },
        info: Color32 { r: 194, g: 111, b: 255, a: 255 },
    }
}

} // verus!
