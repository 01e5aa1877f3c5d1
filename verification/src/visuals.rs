//! Per-widget visuals and the interaction state that selects among them.
//!
//! Each visuals type holds one fill or border per interaction state. A
//! widget's [`Response`] tells whether it is pressed, focused, clicked,
//! hovered or highlighted this frame; [`widget_state`] turns those flags into
//! the state whose colors are painted: active (pressed, focused or clicked)
//! wins over hovered, which wins over idle.

use crate::color::Color32;
use egui::{CornerRadius, Response, Shadow, Stroke};
use vstd::prelude::*;

verus! {

/// egui's per-frame interaction result for a widget.
#[verifier::external_type_specification]
#[verifier::external_body]
pub struct ExResponse(egui::Response);

/// egui's line style: a width and a color.
#[verifier::external_type_specification]
#[verifier::external_body]
pub struct ExStroke(egui::Stroke);

/// egui's per-corner rounding.
#[verifier::external_type_specification]
#[verifier::external_body]
pub struct ExCornerRadius(egui::CornerRadius);

/// egui's box shadow: offset, blur, spread and color.
#[verifier::external_type_specification]
#[verifier::external_body]
pub struct ExShadow(egui::Shadow);

/// What `Response::is_pointer_button_down_on` returns for a response.
pub uninterp spec fn response_pointer_down(res: Response) -> bool;

/// What `Response::hovered` returns for a response.
pub uninterp spec fn response_hovered(res: Response) -> bool;

/// What `Response::highlighted` returns for a response.
pub uninterp spec fn response_highlighted(res: Response) -> bool;

/// What `Response::contains_pointer` returns for a response.
pub uninterp spec fn response_contains_pointer(res: Response) -> bool;

/// `Response::is_pointer_button_down_on`: whether the pointer is pressed on
/// the widget. egui reads it from a flag stored in the response itself, so
/// the result is named as a function of the response.
#[verifier::external_body]
fn is_pointer_button_down_on(res: &Response) -> (b: bool)
    ensures
        b == response_pointer_down(*res),
{
    res.is_pointer_button_down_on()
}

/// `Response::has_focus`: whether the widget has keyboard focus. egui asks
/// the context's input and memory, not the response, so nothing is stated of
/// the result.
#[verifier::external_body]
fn has_focus(res: &Response) -> bool {
    res.has_focus()
}

/// `Response::clicked`: whether the widget was clicked this frame. Besides
/// the response's own flags, egui asks the context's input which button was
/// clicked, so nothing is stated of the result.
#[verifier::external_body]
fn clicked(res: &Response) -> bool {
    res.clicked()
}

/// `Response::hovered`: whether the pointer hovers the widget, read from a
/// flag stored in the response.
#[verifier::external_body]
fn hovered(res: &Response) -> (b: bool)
    ensures
        b == response_hovered(*res),
{
    res.hovered()
}

/// `Response::highlighted`: whether the widget was highlighted this frame,
/// read from a flag stored in the response.
#[verifier::external_body]
fn highlighted(res: &Response) -> (b: bool)
    ensures
        b == response_highlighted(*res),
{
    res.highlighted()
}

/// `Response::contains_pointer`: whether the pointer is over the widget's
/// rect, uncovered, read from a flag stored in the response.
#[verifier::external_body]
fn contains_pointer(res: &Response) -> (b: bool)
    ensures
        b == response_contains_pointer(*res),
{
    res.contains_pointer()
}

/// The interaction flags of a widget in one frame.
#[derive(Clone, Copy, Debug, PartialEq, Eq, Structural)]
pub struct Interaction {
    /// The pointer button is held down on the widget.
    pub pointer_down: bool,
    /// The widget has keyboard focus.
    pub focused: bool,
    /// The widget was clicked this frame.
    pub clicked: bool,
    /// The pointer hovers the widget.
    pub hovered: bool,
    /// The widget is highlighted.
    pub highlighted: bool,
    /// The pointer is over the widget's rect and nothing covers it.
    pub contains_pointer: bool,
}

/// Read the interaction flags of a widget from its response.
///
/// Pressed, hovered, highlighted and pointer-contained are what the response
/// holds; focused and clicked are what egui's context answers this frame,
/// which the contract leaves open.
pub fn interaction(res: &Response) -> (i: Interaction)
    ensures
        i.pointer_down == response_pointer_down(*res),
        i.hovered == response_hovered(*res),
        i.highlighted == response_highlighted(*res),
        i.contains_pointer == response_contains_pointer(*res),
{
    Interaction {
        pointer_down: is_pointer_button_down_on(res),
        focused: has_focus(res),
        clicked: clicked(res),
        hovered: hovered(res),
        highlighted: highlighted(res),
        contains_pointer: contains_pointer(res),
    }
}

/// The state whose visuals a widget paints.
#[derive(Clone, Copy, Debug, PartialEq, Eq, Structural)]
pub enum WidgetState {
    /// No interaction.
    Idle,
    /// Hovered or highlighted.
    Hovered,
    /// Pressed, focused or clicked (for combo boxes: open; for text edits:
    /// editing).
    Active,
}

/// The painted state for interaction flags `i`. Frames also count an
/// uncovered pointer over their rect as hovering (`pointer_counts`).
pub open spec fn state_of(i: Interaction, pointer_counts: bool) -> WidgetState {
    if i.pointer_down || i.focused || i.clicked {
        WidgetState::Active
    } else if (pointer_counts && i.contains_pointer) || i.hovered || i.highlighted {
        WidgetState::Hovered
    } else {
        WidgetState::Idle
    }
}

/// The painted state of a button, label, combo box or text edit.
pub fn widget_state(i: Interaction) -> (s: WidgetState)
    ensures
        s == state_of(i, false),
{
    if i.pointer_down || i.focused || i.clicked {
        WidgetState::Active
    } else if i.hovered || i.highlighted {
        WidgetState::Hovered
    } else {
        WidgetState::Idle
    }
}

/// The painted state of an interactive frame.
pub fn frame_state(i: Interaction) -> (s: WidgetState)
    ensures
        s == state_of(i, true),
{
    if i.pointer_down || i.focused || i.clicked {
        WidgetState::Active
    } else if i.contains_pointer || i.hovered || i.highlighted {
        WidgetState::Hovered
    } else {
        WidgetState::Idle
    }
}

/// The value for `state` among the idle, hover and active ones.
pub open spec fn pick<T>(state: WidgetState, idle: T, hover: T, active: T) -> T {
    match state {
        WidgetState::Idle => idle,
        WidgetState::Hovered => hover,
        WidgetState::Active => active,
    }
}

/// Whether the flags `i` agree with what the response `res` holds: pressed,
/// hovered, highlighted and pointer-contained. Focus and click are answered
/// by egui's context, so any value of them agrees.
pub open spec fn reads_response(i: Interaction, res: Response) -> bool {
    &&& i.pointer_down == response_pointer_down(res)
    &&& i.hovered == response_hovered(res)
    &&& i.highlighted == response_highlighted(res)
    &&& i.contains_pointer == response_contains_pointer(res)
}

/// Visuals for a button.
#[derive(Copy, Clone, Debug, Default, PartialEq)]
pub struct ButtonVisuals {
    /// Glyph / label color.
    pub text: Color32,
    /// Idle fill.
    pub bg: Color32,
    /// Fill while hovered.
    pub bg_hover: Color32,
    /// Fill while the pointer is down.
    pub bg_click: Color32,
    /// Fill of a selected button.
    pub bg_selected: Color32,
    /// Idle border.
    pub border: Stroke,
    /// Border while hovered.
    pub border_hover: Stroke,
    /// Border while the pointer is down.
    pub border_click: Stroke,
    pub corner_radius: CornerRadius,
    pub shadow: Shadow,
}

/// Labels use the same visuals as buttons.
pub type LabelVisuals = ButtonVisuals;

impl ButtonVisuals {
    /// Fill for the interaction flags `i` (click > hover > idle).
    pub fn bg_for(&self, i: Interaction) -> (c: Color32)
        ensures
            c == pick(state_of(i, false), self.bg, self.bg_hover, self.bg_click),
    {
        match widget_state(i) {
            WidgetState::Active => self.bg_click,
            WidgetState::Hovered => self.bg_hover,
            WidgetState::Idle => self.bg,
        }
    }

    /// Border for the interaction flags `i` (click > hover > idle).
    pub fn border_for(&self, i: Interaction) -> (s: Stroke)
        ensures
            s == pick(state_of(i, false), self.border, self.border_hover, self.border_click),
    {
        match widget_state(i) {
            WidgetState::Active => self.border_click,
            WidgetState::Hovered => self.border_hover,
            WidgetState::Idle => self.border,
        }
    }

    /// Fill for the current interaction state of `res`. egui answers focus
    /// and click from its context, so the contract gives the fill picked for
    /// the response's own flags and some value of those two.
    pub fn bg_from_res(&self, res: &Response) -> (c: Color32)
        ensures
            exists|i: Interaction|
                #[trigger] reads_response(i, *res) && c == pick(
                    state_of(i, false),
                    self.bg,
                    self.bg_hover,
                    self.bg_click,
                ),
            response_pointer_down(*res) ==> c == self.bg_click,
    {
        let i = interaction(res);
        proof {
            assert(reads_response(i, *res));
        }
        self.bg_for(i)
    }

    /// Border for the current interaction state of `res`. egui answers focus
    /// and click from its context, so the contract gives the border picked
    /// for the response's own flags and some value of those two.
    pub fn border_from_res(&self, res: &Response) -> (s: Stroke)
        ensures
            exists|i: Interaction|
                #[trigger] reads_response(i, *res) && s == pick(
                    state_of(i, false),
                    self.border,
                    self.border_hover,
                    self.border_click,
                ),
            response_pointer_down(*res) ==> s == self.border_click,
    {
        let i = interaction(res);
        proof {
            assert(reads_response(i, *res));
        }
        self.border_for(i)
    }
}

/// Visuals for a text edit.
#[derive(Copy, Clone, Debug, Default, PartialEq)]
pub struct TextEditVisuals {
    /// Typed text color.
    pub text: Color32,
    /// Field fill.
    pub bg: Color32,
    /// Idle border.
    pub border: Stroke,
    /// Border while hovered.
    pub border_hover: Stroke,
    /// Border while focused / open.
    pub border_open: Stroke,
    pub corner_radius: CornerRadius,
    pub shadow: Shadow,
}

impl TextEditVisuals {
    /// Border for the interaction flags `i` (open > hover > idle).
    pub fn border_for(&self, i: Interaction) -> (s: Stroke)
        ensures
            s == pick(state_of(i, false), self.border, self.border_hover, self.border_open),
    {
        match widget_state(i) {
            WidgetState::Active => self.border_open,
            WidgetState::Hovered => self.border_hover,
            WidgetState::Idle => self.border,
        }
    }

    /// Border for the current interaction state of `res`. egui answers focus
    /// and click from its context, so the contract gives the border picked
    /// for the response's own flags and some value of those two.
    pub fn border_from_res(&self, res: &Response) -> (s: Stroke)
        ensures
            exists|i: Interaction|
                #[trigger] reads_response(i, *res) && s == pick(
                    state_of(i, false),
                    self.border,
                    self.border_hover,
                    self.border_open,
                ),
            response_pointer_down(*res) ==> s == self.border_open,
    {
        let i = interaction(res);
        proof {
            assert(reads_response(i, *res));
        }
        self.border_for(i)
    }
}

/// Visuals for a combo box.
#[derive(Copy, Clone, Debug, Default, PartialEq)]
pub struct ComboBoxVisuals {
    /// Idle fill of the closed button.
    pub bg: Color32,
    /// Disclosure-icon color.
    pub icon: Color32,
    /// Fill while hovered.
    pub bg_hover: Color32,
    /// Fill while the popup is open.
    pub bg_open: Color32,
    /// Idle border.
    pub border: Stroke,
    /// Border while hovered.
    pub border_hover: Stroke,
    /// Border while the popup is open.
    pub border_open: Stroke,
    pub corner_radius: CornerRadius,
    pub shadow: Shadow,
}

impl ComboBoxVisuals {
    /// Fill for the interaction flags `i` (open > hover > idle).
    pub fn bg_for(&self, i: Interaction) -> (c: Color32)
        ensures
            c == pick(state_of(i, false), self.bg, self.bg_hover, self.bg_open),
    {
        match widget_state(i) {
            WidgetState::Active => self.bg_open,
            WidgetState::Hovered => self.bg_hover,
            WidgetState::Idle => self.bg,
        }
    }

    /// Border for the interaction flags `i` (open > hover > idle).
    pub fn border_for(&self, i: Interaction) -> (s: Stroke)
        ensures
            s == pick(state_of(i, false), self.border, self.border_hover, self.border_open),
    {
        match widget_state(i) {
            WidgetState::Active => self.border_open,
            WidgetState::Hovered => self.border_hover,
            WidgetState::Idle => self.border,
        }
    }

    /// Fill for the current interaction state of `res`. egui answers focus
    /// and click from its context, so the contract gives the fill picked for
    /// the response's own flags and some value of those two.
    pub fn bg_from_res(&self, res: &Response) -> (c: Color32)
        ensures
            exists|i: Interaction|
                #[trigger] reads_response(i, *res) && c == pick(
                    state_of(i, false),
                    self.bg,
                    self.bg_hover,
                    self.bg_open,
                ),
            response_pointer_down(*res) ==> c == self.bg_open,
    {
        let i = interaction(res);
        proof {
            assert(reads_response(i, *res));
        }
        self.bg_for(i)
    }

    /// Border for the current interaction state of `res`. egui answers focus
    /// and click from its context, so the contract gives the border picked
    /// for the response's own flags and some value of those two.
    pub fn border_from_res(&self, res: &Response) -> (s: Stroke)
        ensures
            exists|i: Interaction|
                #[trigger] reads_response(i, *res) && s == pick(
                    state_of(i, false),
                    self.border,
                    self.border_hover,
                    self.border_open,
                ),
            response_pointer_down(*res) ==> s == self.border_open,
    {
        let i = interaction(res);
        proof {
            assert(reads_response(i, *res));
        }
        self.border_for(i)
    }
}

/// Visuals for a frame.
#[derive(Clone, Copy, Debug, Default, PartialEq)]
pub struct FrameVisuals {
    pub bg: Color32,
    pub bg_hover: Color32,
    pub bg_click: Color32,
    /// Fill of a selected frame.
    pub bg_selected: Color32,
    pub border: Stroke,
    pub border_hover: Stroke,
    pub border_click: Stroke,
    pub corner_radius: CornerRadius,
    pub shadow: Shadow,
}

impl FrameVisuals {
    /// Fill for the interaction flags `i` (click > hover > idle; an uncovered
    /// pointer over the frame counts as hovering).
    pub fn bg_for(&self, i: Interaction) -> (c: Color32)
        ensures
            c == pick(state_of(i, true), self.bg, self.bg_hover, self.bg_click),
    {
        match frame_state(i) {
            WidgetState::Active => self.bg_click,
            WidgetState::Hovered => self.bg_hover,
            WidgetState::Idle => self.bg,
        }
    }

    /// Border for the interaction flags `i` (click > hover > idle).
    pub fn border_for(&self, i: Interaction) -> (s: Stroke)
        ensures
            s == pick(state_of(i, true), self.border, self.border_hover, self.border_click),
    {
        match frame_state(i) {
            WidgetState::Active => self.border_click,
            WidgetState::Hovered => self.border_hover,
            WidgetState::Idle => self.border,
        }
    }

    /// Fill for the current interaction state of `res`. egui answers focus
    /// and click from its context, so the contract gives the fill picked for
    /// the response's own flags and some value of those two.
    pub fn bg_from_res(&self, res: &Response) -> (c: Color32)
        ensures
            exists|i: Interaction|
                #[trigger] reads_response(i, *res) && c == pick(
                    state_of(i, true),
                    self.bg,
                    self.bg_hover,
                    self.bg_click,
                ),
            response_pointer_down(*res) ==> c == self.bg_click,
    {
        let i = interaction(res);
        proof {
            assert(reads_response(i, *res));
        }
        self.bg_for(i)
    }

    /// Border for the current interaction state of `res`. egui answers focus
    /// and click from its context, so the contract gives the border picked
    /// for the response's own flags and some value of those two.
    pub fn border_from_res(&self, res: &Response) -> (s: Stroke)
        ensures
            exists|i: Interaction|
                #[trigger] reads_response(i, *res) && s == pick(
                    state_of(i, true),
                    self.border,
                    self.border_hover,
                    self.border_click,
                ),
            response_pointer_down(*res) ==> s == self.border_click,
    {
        let i = interaction(res);
        proof {
            assert(reads_response(i, *res));
        }
        self.border_for(i)
    }
}

/// Pressing, focusing or clicking a widget always shows its active visuals,
/// whether or not it is hovered; hovering without pressing shows the hover
/// visuals; a widget nobody touches is idle.
pub proof fn active_wins_over_hover(i: Interaction, pointer_counts: bool)
    ensures
        (i.pointer_down || i.focused || i.clicked) ==> state_of(i, pointer_counts)
            == WidgetState::Active,
        (!i.pointer_down && !i.focused && !i.clicked && (i.hovered || i.highlighted)) ==> state_of(
            i,
            pointer_counts,
        ) == WidgetState::Hovered,
        (!i.pointer_down && !i.focused && !i.clicked && !i.hovered && !i.highlighted
            && !i.contains_pointer) ==> state_of(i, pointer_counts) == WidgetState::Idle,
{
}

/// A frame shows hover visuals whenever a widget would, and also when the
/// pointer is merely over its rect.
pub proof fn frames_hover_at_least_as_often(i: Interaction)
    ensures
        state_of(i, false) == WidgetState::Hovered ==> state_of(i, true) == WidgetState::Hovered,
        state_of(i, false) == WidgetState::Active <==> state_of(i, true) == WidgetState::Active,
{
}

} // verus!
