//! Palette helpers: detecting a palette change that affects frames, and
//! remapping derived colors that still follow the previous palette.

use crate::color::Color32;
use crate::theme::{FrameColors, FrameStateColors, ThemeColors};
use vstd::prelude::*;

verus! {

/// Direction for walking the lightness of a color in shade steps.
#[derive(Debug, PartialEq, Eq, Clone, Copy, Structural)]
pub enum ShadeDirection {
    /// Increase lightness.
    Lighter,
    /// Decrease lightness.
    Darker,
}

/// `slot` after remapping `from` to `to`: `to` if the slot still holds
/// `from`, the slot unchanged otherwise.
pub open spec fn remapped(slot: Color32, from: Color32, to: Color32) -> Color32 {
    if slot == from {
        to
    } else {
        slot
    }
}

/// Whether one of the six slots that frames are derived from differs.
pub open spec fn frame_slots_differ(a: ThemeColors, b: ThemeColors) -> bool {
    ||| a.title_bar != b.title_bar
    ||| a.bg != b.bg
    ||| a.widget_bg != b.widget_bg
    ||| a.hover != b.hover
    ||| a.highlight != b.highlight
    ||| a.border != b.border
}

/// `true` if any frame-related palette slot changed.
pub fn frame_palette_changed(previous: &ThemeColors, current: &ThemeColors) -> (changed: bool)
    ensures
        changed == frame_slots_differ(*previous, *current),
{
    previous.title_bar != current.title_bar || previous.bg != current.bg
        || previous.widget_bg != current.widget_bg || previous.hover != current.hover
        || previous.highlight != current.highlight || previous.border != current.border
}

/// Write `to` into `slot` only if it still equals `from`.
pub fn remap_if_eq(slot: &mut Color32, from: Color32, to: Color32)
    ensures
        *final(slot) == remapped(*old(slot), from, to),
{
    if *slot == from {
        *slot = to;
    }
}

/// Remap the fill, stroke and shadow colors of a frame when they still match
/// the previous palette: the fill follows `old_fill`, stroke and shadow follow
/// `old_border`.
pub fn remap_frame(
    frame: &mut FrameColors,
    old_fill: Color32,
    new_fill: Color32,
    old_border: Color32,
    new_border: Color32,
)
    ensures
        final(frame).fill == remapped(old(frame).fill, old_fill, new_fill),
        final(frame).stroke == remapped(old(frame).stroke, old_border, new_border),
        final(frame).shadow == remapped(old(frame).shadow, old_border, new_border),
{
    remap_if_eq(&mut frame.fill, old_fill, new_fill);
    remap_if_eq(&mut frame.stroke, old_border, new_border);
    remap_if_eq(&mut frame.shadow, old_border, new_border);
}

/// Remap the hover and click colors of a frame's interaction states when they
/// still match the previous palette: hover fill follows `old_hover`, click
/// fill follows `old_click`, both borders follow `old_highlight`.
pub fn remap_frame_visuals(
    visuals: &mut FrameStateColors,
    old_hover: Color32,
    new_hover: Color32,
    old_click: Color32,
    new_click: Color32,
    old_highlight: Color32,
    new_highlight: Color32,
)
    ensures
        final(visuals).bg_on_hover == remapped(old(visuals).bg_on_hover, old_hover, new_hover),
        final(visuals).bg_on_click == remapped(old(visuals).bg_on_click, old_click, new_click),
        final(visuals).border_on_hover == remapped(
            old(visuals).border_on_hover,
            old_highlight,
            new_highlight,
        ),
        final(visuals).border_on_click == remapped(
            old(visuals).border_on_click,
            old_highlight,
            new_highlight,
        ),
{
    remap_if_eq(&mut visuals.bg_on_hover, old_hover, new_hover);
    remap_if_eq(&mut visuals.bg_on_click, old_click, new_click);
    remap_if_eq(&mut visuals.border_on_hover, old_highlight, new_highlight);
    remap_if_eq(&mut visuals.border_on_click, old_highlight, new_highlight);
}

/// Remapping a color twice with the same pair of colors changes nothing
/// more than remapping it once.
pub proof fn remap_if_eq_is_idempotent(slot: Color32, from: Color32, to: Color32)
    ensures
        remapped(remapped(slot, from, to), from, to) == remapped(slot, from, to),
{
}

/// Remapping a color to itself leaves every slot unchanged.
pub proof fn remap_if_eq_to_same_color_is_identity(slot: Color32, color: Color32)
    ensures
        remapped(slot, color, color) == slot,
{
}

} // verus!
