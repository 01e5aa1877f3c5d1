use egui_elements::color::Color32;
use egui_elements::overlay::{Order, OverlayCounter};

#[test]
fn new_counter_is_empty_on_background() {
    let c = OverlayCounter::new();
    assert_eq!(c.counter(), 0);
    assert_eq!(c.order(), Order::Background);
    assert_eq!(c.calculate_alpha(), 0);
    assert_eq!(c.overlay_to_paint(true), None);
    let d = OverlayCounter::default();
    assert_eq!(d.counter(), 0);
    assert_eq!(d.order(), Order::Background);
}

#[test]
fn alpha_grows_with_each_window_then_caps() {
    let mut c = OverlayCounter::new();
    let mut alphas = Vec::new();
    for _ in 0..6 {
        c.window_opened();
        alphas.push(c.calculate_alpha());
    }
    assert_eq!(alphas, vec![80, 120, 160, 220, 220, 220]);
}

#[test]
fn tint_is_black_at_the_alpha() {
    let mut c = OverlayCounter::new();
    c.window_opened();
    assert_eq!(c.overlay_tint(), Color32::from_black_alpha(80));
    c.window_opened();
    assert_eq!(c.overlay_tint(), Color32::from_rgba_premultiplied(0, 0, 0, 120));
    for _ in 0..5 {
        c.window_opened();
    }
    assert_eq!(c.overlay_tint(), Color32::from_black_alpha(220));
}

#[test]
fn close_undoes_open_and_stops_at_zero() {
    let mut c = OverlayCounter::new();
    c.window_opened();
    c.window_opened();
    c.window_closed();
    assert_eq!(c.counter(), 1);
    c.window_closed();
    c.window_closed();
    assert_eq!(c.counter(), 0);
    assert_eq!(c.overlay_tint(), Color32::from_black_alpha(0));
}

#[test]
fn recommended_order_by_count() {
    let mut c = OverlayCounter::new();
    assert_eq!(c.recommended_order(), Order::Foreground);
    c.window_opened();
    assert_eq!(c.recommended_order(), Order::Background);
    c.window_opened();
    assert_eq!(c.recommended_order(), Order::Middle);
    c.window_opened();
    assert_eq!(c.recommended_order(), Order::Foreground);
}

#[test]
fn paint_layer_setters_and_plan() {
    let mut c = OverlayCounter::new();
    c.paint_middle();
    assert_eq!(c.order(), Order::Middle);
    c.paint_tooltip();
    assert_eq!(c.order(), Order::Tooltip);
    c.paint_debug();
    assert_eq!(c.order(), Order::Debug);
    c.paint_foreground();
    assert_eq!(c.order(), Order::Foreground);
    c.paint_background();
    assert_eq!(c.order(), Order::Background);
    assert_eq!(c.overlay_to_paint(false), None);
    c.window_opened();
    c.window_opened();
    c.paint_tooltip();
    assert_eq!(c.overlay_to_paint(false), Some((Order::Tooltip, Color32::from_black_alpha(120))));
    assert_eq!(c.overlay_to_paint(true), Some((Order::Middle, Color32::from_black_alpha(120))));
}
