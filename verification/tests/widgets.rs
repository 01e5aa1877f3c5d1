use egui::{CornerRadius, Shadow, Stroke};
use egui_elements::align::{Align, Align2};
use egui_elements::color::Color32;
use egui_elements::visuals::{
    frame_state, interaction, widget_state, ButtonVisuals, FrameVisuals, Interaction, WidgetState,
};
use egui_elements::widgets::badge::BadgeCorner;
use egui_elements::widgets::frame::Frame;
use egui_elements::widgets::modal::{
    enter_frame, leave_frame, should_close, ModalEntry, ModalFocusState,
};

fn theme_visuals() -> FrameVisuals {
    FrameVisuals {
        bg: Color32::red(),
        bg_hover: Color32::blue(),
        bg_click: Color32::red(),
        bg_selected: Color32::green(),
        border: Stroke::NONE,
        border_hover: Stroke::NONE,
        border_click: Stroke::NONE,
        corner_radius: CornerRadius::same(6),
        shadow: Shadow::NONE,
    }
}

#[test]
fn fill_propagates_to_matching_states() {
    let frame = Frame::new().fill(Color32::red());
    assert_eq!(frame.visuals.bg, Color32::red());
    assert_eq!(frame.visuals.bg_hover, Color32::red());
    assert_eq!(frame.visuals.bg_click, Color32::red());
    assert_eq!(frame.visuals.bg_selected, Color32::red());
}

#[test]
fn interactive_false_is_default() {
    let frame = Frame::new().fill(Color32::red());
    assert!(!frame.interactive);
    assert!(!frame.selected);
    assert!(!frame.fill_width);
    assert!(frame.interactive(true).interactive);
    assert!(!frame.interactive(true).interactive(false).interactive);
    assert!(frame.selected(true).selected);
    assert!(frame.fill_width(true).fill_width);
}

#[test]
fn zero_radius_survives_later_visuals() {
    let frame = Frame::new().corner_radius(CornerRadius::same(0)).visuals(theme_visuals());
    assert_eq!(frame.visuals.corner_radius, CornerRadius::ZERO);
}

#[test]
fn corner_radius_zero_survives_later_visuals() {
    let frame = Frame::new().corner_radius(CornerRadius::same(0)).visuals(theme_visuals());
    assert_eq!(frame.visuals.corner_radius, CornerRadius::ZERO);
}

#[test]
fn visuals_then_zero_corner_radius() {
    let frame = Frame::new().visuals(theme_visuals()).corner_radius(CornerRadius::same(0));
    assert_eq!(frame.visuals.corner_radius, CornerRadius::ZERO);
}

#[test]
fn visuals_without_override_keeps_theme_radius() {
    let frame = Frame::new().visuals(theme_visuals());
    assert_eq!(frame.visuals.corner_radius, CornerRadius::same(6));
}

#[test]
fn customized_state_fill_is_kept() {
    let frame = Frame::new().visuals(theme_visuals()).fill(Color32::white());
    assert_eq!(frame.visuals.bg, Color32::white());
    assert_eq!(frame.visuals.bg_click, Color32::white());
    assert_eq!(frame.visuals.bg_hover, Color32::blue());
    assert_eq!(frame.visuals.bg_selected, Color32::green());
}

#[test]
fn stroke_follows_uncustomized_states() {
    let s = Stroke::new(2.0, egui::Color32::WHITE);
    let frame = Frame::new().stroke(s);
    assert_eq!(frame.visuals.border, s);
    assert_eq!(frame.visuals.border_hover, s);
    assert_eq!(frame.visuals.border_click, s);
}

#[test]
fn from_egui_copies_idle_to_all_states() {
    let egui_frame = egui::Frame::NONE.fill(egui::Color32::from_rgb(1, 2, 3)).stroke(Stroke::new(1.0, egui::Color32::RED));
    let frame = Frame::from_egui(egui_frame);
    assert_eq!(frame.visuals.bg, Color32::from_rgb(1, 2, 3));
    assert_eq!(frame.visuals.bg_selected, Color32::from_rgb(1, 2, 3));
    assert_eq!(frame.visuals.border_click, Stroke::new(1.0, egui::Color32::RED));
}

fn flags(pointer_down: bool, hovered: bool, contains_pointer: bool) -> Interaction {
    Interaction { pointer_down, focused: false, clicked: false, hovered, highlighted: false, contains_pointer }
}

#[test]
fn interaction_states() {
    assert_eq!(widget_state(flags(false, false, false)), WidgetState::Idle);
    assert_eq!(widget_state(flags(false, true, false)), WidgetState::Hovered);
    assert_eq!(widget_state(flags(true, true, false)), WidgetState::Active);
    assert_eq!(widget_state(flags(false, false, true)), WidgetState::Idle);
    assert_eq!(frame_state(flags(false, false, true)), WidgetState::Hovered);
}

#[test]
fn button_fill_by_state() {
    let v = ButtonVisuals {
        bg: Color32::red(),
        bg_hover: Color32::green(),
        bg_click: Color32::blue(),
        ..Default::default()
    };
    assert_eq!(v.bg_for(flags(false, false, false)), Color32::red());
    assert_eq!(v.bg_for(flags(false, true, false)), Color32::green());
    assert_eq!(v.bg_for(flags(true, true, false)), Color32::blue());
}

#[test]
fn frame_paint_colors() {
    let f = Frame::new().visuals(theme_visuals());
    assert_eq!(f.paint_colors(flags(false, true, true)).0, Color32::red());
    let i = f.interactive(true);
    assert_eq!(i.paint_colors(flags(false, true, true)).0, Color32::blue());
    let s = i.selected(true);
    assert_eq!(s.paint_colors(flags(false, true, true)).0, Color32::green());
}

#[test]
fn badge_corners() {
    assert_eq!(BadgeCorner::default(), BadgeCorner::TopRight);
    assert_eq!(BadgeCorner::TopRight.align2(), Align2 { x: Align::Max, y: Align::Min });
    assert_eq!(BadgeCorner::BottomLeft.align2(), Align2 { x: Align::Min, y: Align::Max });
    let names: Vec<&str> = BadgeCorner::to_vec().iter().map(|c| c.to_str()).collect();
    assert_eq!(names, vec!["Top left", "Top right", "Bottom left", "Bottom right"]);
}

#[test]
fn modal_dismissal_rules() {
    assert!(should_close(true, true, true, true, false, false));
    assert!(!should_close(true, false, true, true, false, false));
    assert!(should_close(true, false, false, true, true, false));
    assert!(should_close(true, false, false, false, false, true));
    assert!(!should_close(false, true, true, true, true, true));
}

#[test]
fn modal_focus_lifecycle() {
    let focused = Some(egui::Id::new("field"));
    let mut state = ModalFocusState::default();
    assert_eq!(enter_frame(&mut state, false, focused), ModalEntry::Hidden);
    assert_eq!(enter_frame(&mut state, true, focused), ModalEntry::Shown { just_opened: true });
    assert_eq!(enter_frame(&mut state, true, None), ModalEntry::Shown { just_opened: false });
    assert_eq!(leave_frame(&mut state, false), None);
    assert_eq!(leave_frame(&mut state, true), Some(focused));
    assert_eq!(state, ModalFocusState::default());

    assert_eq!(enter_frame(&mut state, true, focused), ModalEntry::Shown { just_opened: true });
    assert_eq!(enter_frame(&mut state, false, None), ModalEntry::JustClosed { restore: focused });
    assert_eq!(state, ModalFocusState::default());
}

#[test]
fn interaction_reads_the_response_flags() {
    let ctx = egui::Context::default();
    let mut output = ctx.run_ui(egui::RawInput::default(), |ui| {
        let plain = ui.label("plain");
        let i = interaction(&plain);
        assert!(!i.pointer_down);
        assert!(!i.hovered);
        assert!(!i.highlighted);
        assert!(!i.contains_pointer);
        let lit = ui.label("lit").highlight();
        let j = interaction(&lit);
        assert!(j.highlighted);
        assert!(!j.hovered);
        assert_eq!(widget_state(j), WidgetState::Hovered);
    });
    output.textures_delta.clear();
}

#[test]
fn from_egui_copies_margins_radius_and_shadow() {
    let egui_frame = egui::Frame::NONE
        .inner_margin(egui::Margin::same(4))
        .outer_margin(egui::Margin::same(2))
        .corner_radius(CornerRadius::same(6));
    let frame = Frame::from_egui(egui_frame);
    assert_eq!(frame.inner_margin, egui::Margin::same(4));
    assert_eq!(frame.outer_margin, egui::Margin::same(2));
    assert_eq!(frame.visuals.corner_radius, CornerRadius::same(6));
    assert_eq!(frame.visuals.shadow, Shadow::NONE);
}

#[test]
fn interactive_frames_sense_clicks() {
    let frame = Frame::new().fill(Color32::red());
    assert_eq!(frame.sense, egui::Sense::HOVER);
    assert_eq!(frame.interactive(true).sense, egui::Sense::click());
    assert!(frame.interactive(true).sense.senses_click());
    assert_eq!(frame.interactive(true).sense.bits(), 5);
    assert_eq!(frame.sense.bits(), 0);
    assert_eq!(frame.interactive(true).interactive(false).sense, egui::Sense::HOVER);
}

#[test]
fn new_frame_is_bare() {
    let frame = Frame::new();
    assert_eq!(frame.inner_margin, egui::Margin::ZERO);
    assert_eq!(frame.outer_margin, egui::Margin::ZERO);
    assert_eq!(frame.visuals.corner_radius, CornerRadius::ZERO);
    assert_eq!(frame.visuals.shadow, Shadow::NONE);
    assert!(frame.visuals.border.is_empty());
    assert!(!Frame::from_egui(egui::Frame::NONE).sense.senses_click());
}

#[test]
fn stroke_keeps_customized_states() {
    let custom = Stroke::new(3.0, egui::Color32::BLUE);
    let mut frame = Frame::new();
    frame.visuals.border_hover = custom;
    let s = Stroke::new(2.0, egui::Color32::WHITE);
    let frame = frame.stroke(s);
    assert_eq!(frame.visuals.border, s);
    assert_eq!(frame.visuals.border_hover, custom);
    assert_eq!(frame.visuals.border_click, s);
}

#[test]
fn response_flags_pick_button_fill() {
    let visuals = ButtonVisuals { bg: Color32::red(), bg_hover: Color32::blue(), bg_click: Color32::green(), ..Default::default() };
    let ctx = egui::Context::default();
    let mut output = ctx.run_ui(egui::RawInput::default(), |ui| {
        let idle = ui.label("idle");
        assert_eq!(visuals.bg_from_res(&idle), Color32::red());
        let lit = ui.label("lit").highlight();
        assert_eq!(visuals.bg_from_res(&lit), Color32::blue());
    });
    output.textures_delta.clear();
}

#[test]
fn default_frame_is_the_bare_frame() {
    let frame = Frame::default();
    assert_eq!(frame, Frame::new());
    assert_eq!(frame.sense, egui::Sense::HOVER);
    assert_eq!(frame.inner_margin, egui::Margin::ZERO);
    assert_eq!(frame.visuals.shadow, Shadow::NONE);
}
