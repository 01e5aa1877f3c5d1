//! A frame around some content: margins, a fill and border per interaction
//! state, rounding and shadow.
//!
//! Setting the idle fill (or border) also moves every state fill (or border)
//! that still equals the old idle one, so hover / click / selected colors that
//! were never customized follow the idle color. A corner radius set on the
//! frame survives a later change of its visuals. Laying the frame out and
//! painting it happen in the application layer; [`Frame::paint_colors`]
//! decides which fill and border it paints.

use crate::color::Color32;
use crate::visuals::{Interaction, FrameVisuals, pick, state_of};
use egui::Frame as EguiFrame;
use egui::{CornerRadius, Margin, Sense, Shadow, Stroke};
use vstd::prelude::*;

verus! {

/// egui's frame description (margins, fill, stroke, rounding, shadow).
#[verifier::external_type_specification]
#[verifier::external_body]
pub struct ExEguiFrame(EguiFrame);

/// egui's per-side margin, in whole points.
#[verifier::external_type_specification]
#[verifier::external_body]
pub struct ExMargin(egui::Margin);

/// egui's description of which interactions a widget listens to.
#[verifier::external_type_specification]
#[verifier::external_body]
pub struct ExSense(egui::Sense);

/// The public fields `left`, `right`, `top` and `bottom` of an egui margin.
pub uninterp spec fn margin_sides(m: Margin) -> (i8, i8, i8, i8);

/// The public fields `nw`, `ne`, `sw` and `se` of an egui corner radius.
pub uninterp spec fn corner_radii(c: CornerRadius) -> (u8, u8, u8, u8);

/// The public fields of an egui shadow: the two offsets, `blur`, `spread`,
/// and `color` by its four premultiplied channels.
pub uninterp spec fn shadow_fields(s: Shadow) -> (i8, i8, u8, u8, Color32);

/// What `Stroke::is_empty` returns: whether the width is at most zero or the
/// color is transparent.
pub uninterp spec fn stroke_is_empty(s: Stroke) -> bool;

/// What `Sense::senses_click` returns: whether the sense holds the `CLICK`
/// flag.
pub uninterp spec fn senses_click(s: Sense) -> bool;

/// What `Sense::bits` returns: the flag byte of a sense (`CLICK` is bit 0,
/// `DRAG` bit 1, `FOCUSABLE` bit 2; `HOVER` is no bit at all).
pub uninterp spec fn sense_flags(s: Sense) -> u8;

/// The flags of `Sense::click()`: `CLICK | FOCUSABLE`.
pub open spec fn click_sense_flags() -> u8 {
    5
}

/// The flags of `Sense::HOVER`: none.
pub open spec fn hover_sense_flags() -> u8 {
    0
}

/// What the derived `==` of egui's `Stroke` returns: both widths equal as
/// floats and both colors equal.
pub uninterp spec fn strokes_equal(a: Stroke, b: Stroke) -> bool;

/// `Margin::ZERO`: every side 0.
#[verifier::external_body]
fn margin_zero() -> (m: Margin)
    ensures
        margin_sides(m) == (0i8, 0i8, 0i8, 0i8),
{
    Margin::ZERO
}

/// `Stroke::NONE`: width 0 and a transparent color, so an empty stroke.
#[verifier::external_body]
fn stroke_none() -> (s: Stroke)
    ensures
        stroke_is_empty(s),
{
    Stroke::NONE
}

/// `CornerRadius::ZERO`: square corners.
#[verifier::external_body]
fn corner_radius_zero() -> (c: CornerRadius)
    ensures
        corner_radii(c) == (0u8, 0u8, 0u8, 0u8),
{
    CornerRadius::ZERO
}

/// `Shadow::NONE`: no offset, blur or spread, and a transparent color.
#[verifier::external_body]
fn shadow_none() -> (s: Shadow)
    ensures
        shadow_fields(s) == (0i8, 0i8, 0u8, 0u8, Color32::transparent()),
{
    Shadow::NONE
}

/// `Sense::HOVER`: the empty set of flags, so no clicks.
#[verifier::external_body]
fn sense_hover() -> (s: Sense)
    ensures
        sense_flags(s) == hover_sense_flags(),
        !senses_click(s),
{
    Sense::HOVER
}

/// `Sense::click()`: `CLICK | FOCUSABLE`, so clicks are sensed.
#[verifier::external_body]
fn sense_click() -> (s: Sense)
    ensures
        sense_flags(s) == click_sense_flags(),
        senses_click(s),
{
    Sense::click()
}

/// `Stroke == Stroke`: egui's derived comparison of the float width and the
/// color.
#[verifier::external_body]
fn same_stroke(a: &Stroke, b: &Stroke) -> (r: bool)
    ensures
        r == strokes_equal(*a, *b),
{
    *a == *b
}

/// The fields of an egui frame: inner margin, outer margin, fill (its four
/// premultiplied channels), stroke, corner radius and shadow.
pub uninterp spec fn egui_frame_fields(frame: EguiFrame) -> (Margin, Margin, Color32, Stroke, CornerRadius, Shadow);

/// The parts of an egui frame: the fields `inner_margin`, `outer_margin`,
/// `fill`, `stroke`, `corner_radius` and `shadow`, the fill converted channel
/// by channel to this crate's color. They are read from the value alone.
#[verifier::external_body]
fn egui_frame_parts(frame: &EguiFrame) -> (parts: (Margin, Margin, Color32, Stroke, CornerRadius, Shadow))
    ensures
        parts == egui_frame_fields(*frame),
{
    let fill = frame.fill;
    (
        frame.inner_margin,
        frame.outer_margin,
        Color32 { r: fill.r(), g: fill.g(), b: fill.b(), a: fill.a() },
        frame.stroke,
        frame.corner_radius,
        frame.shadow,
    )
}

/// A frame around some content.
#[derive(Clone, Copy, Debug, PartialEq)]
pub struct Frame {
    pub inner_margin: Margin,
    pub outer_margin: Margin,
    pub visuals: FrameVisuals,
    pub sense: Sense,
    /// When `false`, paint always uses the idle fill and border.
    pub interactive: bool,
    /// Paint the selected fill instead of idle / hover / click.
    pub selected: bool,
    /// Stretch the frame to the available width.
    pub fill_width: bool,
    /// Set by [`Frame::corner_radius`]; wins over a later [`Frame::visuals`].
    pub corner_radius_override: Option<CornerRadius>,
}

/// A state color after the idle color changed from `old_idle` to `idle`: it
/// follows the idle color if it still equaled the old one.
pub open spec fn follow_idle(state: Color32, old_idle: Color32, idle: Color32) -> Color32 {
    if state == old_idle {
        idle
    } else {
        state
    }
}

/// `f` with idle fill `fill`, its uncustomized state fills following.
pub open spec fn filled(f: Frame, fill: Color32) -> Frame {
    Frame {
        visuals: FrameVisuals {
            bg: fill,
            bg_hover: follow_idle(f.visuals.bg_hover, f.visuals.bg, fill),
            bg_click: follow_idle(f.visuals.bg_click, f.visuals.bg, fill),
            bg_selected: follow_idle(f.visuals.bg_selected, f.visuals.bg, fill),
            ..f.visuals
        },
        ..f
    }
}

/// A state border after the idle border changed from `old_idle` to `idle`:
/// it follows the idle border if it still equaled the old one.
pub open spec fn follow_idle_border(state: Stroke, old_idle: Stroke, idle: Stroke) -> Stroke {
    if strokes_equal(state, old_idle) {
        idle
    } else {
        state
    }
}

/// `f` with idle border `stroke`, its uncustomized state borders following.
pub open spec fn stroked(f: Frame, stroke: Stroke) -> Frame {
    Frame {
        visuals: FrameVisuals {
            border: stroke,
            border_hover: follow_idle_border(f.visuals.border_hover, f.visuals.border, stroke),
            border_click: follow_idle_border(f.visuals.border_click, f.visuals.border, stroke),
            ..f.visuals
        },
        ..f
    }
}

/// `f` with corner radius `cr`, remembered to survive later visuals.
pub open spec fn with_corner_radius(f: Frame, cr: CornerRadius) -> Frame {
    Frame {
        visuals: FrameVisuals { corner_radius: cr, ..f.visuals },
        corner_radius_override: Some(cr),
        ..f
    }
}

/// `f` with visuals `v`, except a remembered corner radius.
pub open spec fn with_visuals(f: Frame, v: FrameVisuals) -> Frame {
    Frame {
        visuals: match f.corner_radius_override {
            Some(cr) => FrameVisuals { corner_radius: cr, ..v },
            None => v,
        },
        ..f
    }
}

impl Frame {
    /// An empty frame: no margin, transparent fills, no border, square
    /// corners, no shadow, hover sense, not interactive, selected or
    /// stretched.
    pub fn new() -> (f: Frame)
        ensures
            f.visuals.bg == Color32::transparent(),
            f.visuals.bg_hover == Color32::transparent(),
            f.visuals.bg_click == Color32::transparent(),
            f.visuals.bg_selected == Color32::transparent(),
            f.visuals.border_hover == f.visuals.border,
            f.visuals.border_click == f.visuals.border,
            stroke_is_empty(f.visuals.border),
            margin_sides(f.inner_margin) == (0i8, 0i8, 0i8, 0i8),
            margin_sides(f.outer_margin) == (0i8, 0i8, 0i8, 0i8),
            corner_radii(f.visuals.corner_radius) == (0u8, 0u8, 0u8, 0u8),
            shadow_fields(f.visuals.shadow) == (0i8, 0i8, 0u8, 0u8, Color32::transparent()),
            sense_flags(f.sense) == hover_sense_flags(),
            !senses_click(f.sense),
            !f.interactive,
            !f.selected,
            !f.fill_width,
            f.corner_radius_override is None,
    {
        let none = stroke_none();
        Frame {
            inner_margin: margin_zero(),
            outer_margin: margin_zero(),
            visuals: FrameVisuals {
                bg: Color32::transparent(),
                bg_hover: Color32::transparent(),
                bg_click: Color32::transparent(),
                bg_selected: Color32::transparent(),
                border: none,
                border_hover: none,
                border_click: none,
                corner_radius: corner_radius_zero(),
                shadow: shadow_none(),
            },
            sense: sense_hover(),
            interactive: false,
            selected: false,
            fill_width: false,
            corner_radius_override: None,
        }
    }

    /// Copy margins, idle fill, stroke, radius and shadow from an egui frame.
    /// Hover, click and selected start equal to idle.
    pub fn from_egui(frame: EguiFrame) -> (f: Frame)
        ensures
            f.inner_margin == egui_frame_fields(frame).0,
            f.outer_margin == egui_frame_fields(frame).1,
            f.visuals.bg == egui_frame_fields(frame).2,
            f.visuals.border == egui_frame_fields(frame).3,
            f.visuals.corner_radius == egui_frame_fields(frame).4,
            f.visuals.shadow == egui_frame_fields(frame).5,
            f.visuals.bg_hover == f.visuals.bg,
            f.visuals.bg_click == f.visuals.bg,
            f.visuals.bg_selected == f.visuals.bg,
            f.visuals.border_hover == f.visuals.border,
            f.visuals.border_click == f.visuals.border,
            sense_flags(f.sense) == hover_sense_flags(),
            !senses_click(f.sense),
            !f.interactive,
            !f.selected,
            !f.fill_width,
            f.corner_radius_override is None,
    {
        let (inner_margin, outer_margin, fill, stroke, corner_radius, shadow) = egui_frame_parts(
            &frame,
        );
        Frame {
            inner_margin,
            outer_margin,
            visuals: FrameVisuals {
                bg: fill,
                bg_hover: fill,
                bg_click: fill,
                bg_selected: fill,
                border: stroke,
                border_hover: stroke,
                border_click: stroke,
                corner_radius,
                shadow,
            },
            sense: sense_hover(),
            interactive: false,
            selected: false,
            fill_width: false,
            corner_radius_override: None,
        }
    }

    /// Set the inner margin.
    pub fn inner_margin(self, inner_margin: Margin) -> (f: Frame)
        ensures
            f == (Frame { inner_margin, ..self }),
    {
        Frame { inner_margin, ..self }
    }

    /// Set the outer margin.
    pub fn outer_margin(self, outer_margin: Margin) -> (f: Frame)
        ensures
            f == (Frame { outer_margin, ..self }),
    {
        Frame { outer_margin, ..self }
    }

    /// Set the idle fill. Hover, click and selected fills that still equal
    /// the old idle fill follow it; customized ones are kept.
    pub fn fill(self, fill: Color32) -> (f: Frame)
        ensures
            f == filled(self, fill),
    {
        let mut f = self;
        let old = f.visuals.bg;
        f.visuals.bg = fill;
        if f.visuals.bg_hover == old {
            f.visuals.bg_hover = fill;
        }
        if f.visuals.bg_click == old {
            f.visuals.bg_click = fill;
        }
        if f.visuals.bg_selected == old {
            f.visuals.bg_selected = fill;
        }
        f
    }

    /// Set the idle border. Hover and click borders that still equal the old
    /// idle border (by egui's comparison of strokes) follow it; customized
    /// ones are kept.
    pub fn stroke(self, stroke: Stroke) -> (f: Frame)
        ensures
            f == stroked(self, stroke),
    {
        let mut f = self;
        let old = f.visuals.border;
        f.visuals.border = stroke;
        if same_stroke(&f.visuals.border_hover, &old) {
            f.visuals.border_hover = stroke;
        }
        if same_stroke(&f.visuals.border_click, &old) {
            f.visuals.border_click = stroke;
        }
        f
    }

    /// Set the corner radius; it is kept across later [`Frame::visuals`].
    pub fn corner_radius(self, corner_radius: CornerRadius) -> (f: Frame)
        ensures
            f == with_corner_radius(self, corner_radius),
    {
        let mut f = self;
        f.visuals.corner_radius = corner_radius;
        f.corner_radius_override = Some(corner_radius);
        f
    }

    /// Set the shadow.
    pub fn shadow(self, shadow: Shadow) -> (f: Frame)
        ensures
            f == (Frame { visuals: FrameVisuals { shadow, ..self.visuals }, ..self }),
    {
        let mut f = self;
        f.visuals.shadow = shadow;
        f
    }

    /// Replace fills, borders, radius and shadow. Margins and sense are kept;
    /// a radius set with [`Frame::corner_radius`] wins over the one in
    /// `visuals`.
    pub fn visuals(self, visuals: FrameVisuals) -> (f: Frame)
        ensures
            f == with_visuals(self, visuals),
    {
        let mut f = self;
        f.visuals = visuals;
        if let Some(corner_radius) = f.corner_radius_override {
            f.visuals.corner_radius = corner_radius;
        }
        f
    }

    /// Set the sense directly.
    pub fn sense(self, sense: Sense) -> (f: Frame)
        ensures
            f == (Frame { sense, ..self }),
    {
        Frame { sense, ..self }
    }

    /// `true`: listen to clicks and paint hover / click fills. `false`: hover
    /// sense only and idle chrome always.
    ///
    /// The sense is egui's `Sense::click()` or `Sense::HOVER` preset; it
    /// senses clicks exactly when the frame is interactive.
    pub fn interactive(self, interactive: bool) -> (f: Frame)
        ensures
            f.interactive == interactive,
            senses_click(f.sense) == interactive,
            sense_flags(f.sense) == if interactive {
                click_sense_flags()
            } else {
                hover_sense_flags()
            },
            f == (Frame { interactive, sense: f.sense, ..self }),
    {
        let mut f = self;
        f.interactive = interactive;
        f.sense = if interactive {
            sense_click()
        } else {
            sense_hover()
        };
        f
    }

    /// Paint the selected fill even when not hovered.
    pub fn selected(self, selected: bool) -> (f: Frame)
        ensures
            f == (Frame { selected, ..self }),
    {
        Frame { selected, ..self }
    }

    /// Stretch the frame to the available width.
    pub fn fill_width(self, fill_width: bool) -> (f: Frame)
        ensures
            f == (Frame { fill_width, ..self }),
    {
        Frame { fill_width, ..self }
    }

    /// The fill and border painted for interaction flags `i`: the selected
    /// fill with the idle border when selected; the state's fill and border
    /// when interactive; the idle ones otherwise.
    pub fn paint_colors(&self, i: Interaction) -> (p: (Color32, Stroke))
        ensures
            p == (if self.selected {
                (self.visuals.bg_selected, self.visuals.border)
            } else if self.interactive {
                (
                    pick(state_of(i, true), self.visuals.bg, self.visuals.bg_hover, self.visuals.bg_click),
                    pick(
                        state_of(i, true),
                        self.visuals.border,
                        self.visuals.border_hover,
                        self.visuals.border_click,
                    ),
                )
            } else {
                (self.visuals.bg, self.visuals.border)
            }),
    {
        if self.selected {
            (self.visuals.bg_selected, self.visuals.border)
        } else if self.interactive {
            (self.visuals.bg_for(i), self.visuals.border_for(i))
        } else {
            (self.visuals.bg, self.visuals.border)
        }
    }
}

impl Default for Frame {
    fn default() -> (f: Frame)
        ensures
            f.visuals.bg == Color32::transparent(),
            f.visuals.bg_hover == Color32::transparent(),
            f.visuals.bg_click == Color32::transparent(),
            f.visuals.bg_selected == Color32::transparent(),
            f.visuals.border_hover == f.visuals.border,
            f.visuals.border_click == f.visuals.border,
            stroke_is_empty(f.visuals.border),
            margin_sides(f.inner_margin) == (0i8, 0i8, 0i8, 0i8),
            margin_sides(f.outer_margin) == (0i8, 0i8, 0i8, 0i8),
            corner_radii(f.visuals.corner_radius) == (0u8, 0u8, 0u8, 0u8),
            shadow_fields(f.visuals.shadow) == (0i8, 0i8, 0u8, 0u8, Color32::transparent()),
            sense_flags(f.sense) == hover_sense_flags(),
            !senses_click(f.sense),
            !f.interactive,
            !f.selected,
            !f.fill_width,
            f.corner_radius_override is None,
    {
        Frame::new()
    }
}

/// Setting a fill on a frame whose state fills were never customized moves
/// every state fill with it; customized state fills are kept.
pub proof fn fill_moves_uncustomized_states(f: Frame, fill: Color32)
    ensures
        f.visuals.bg_hover == f.visuals.bg ==> filled(f, fill).visuals.bg_hover == fill,
        f.visuals.bg_click == f.visuals.bg ==> filled(f, fill).visuals.bg_click == fill,
        f.visuals.bg_selected == f.visuals.bg ==> filled(f, fill).visuals.bg_selected == fill,
        f.visuals.bg_hover != f.visuals.bg ==> filled(f, fill).visuals.bg_hover
            == f.visuals.bg_hover,
        filled(f, fill).visuals.bg == fill,
{
}

/// A corner radius set on the frame wins over the one of visuals applied
/// later, and over the one of visuals applied earlier.
pub proof fn corner_radius_survives_visuals(f: Frame, cr: CornerRadius, v: FrameVisuals)
    ensures
        with_visuals(with_corner_radius(f, cr), v).visuals.corner_radius == cr,
        with_corner_radius(with_visuals(f, v), cr).visuals.corner_radius == cr,
{
}

/// Without a corner radius set on the frame, visuals bring their own radius.
pub proof fn visuals_keep_their_radius_without_override(f: Frame, v: FrameVisuals)
    requires
        f.corner_radius_override is None,
    ensures
        with_visuals(f, v).visuals == v,
{
}

/// Applying visuals replaces every visuals field but the corner radius,
/// whether or not a radius was set on the frame; the radius is the one set
/// on the frame if any, else the one the visuals bring, and nothing outside
/// the visuals changes.
pub proof fn visuals_replace_all_but_the_radius(f: Frame, v: FrameVisuals, cr: CornerRadius)
    ensures
        with_visuals(f, v).visuals == (FrameVisuals {
            corner_radius: with_visuals(f, v).visuals.corner_radius,
            ..v
        }),
        with_visuals(with_corner_radius(f, cr), v).visuals == (FrameVisuals { corner_radius: cr, ..v }),
        with_visuals(f, v).visuals.corner_radius == (match f.corner_radius_override {
            Some(r) => r,
            None => v.corner_radius,
        }),
        with_visuals(f, v) == (Frame { visuals: with_visuals(f, v).visuals, ..f }),
{
}

} // verus!
