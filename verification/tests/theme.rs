use egui_elements::color::Color32;
use egui_elements::theme::{
    elegance_palette, elegance_update, DerivedFrames, EleganceThemeKey, FrameColors, ThemeColors, ThemeKind,
};
use egui_elements::themes::{reverie, shade_sanctuary, tokyo_night, tokyo_night_light};
use egui_elements::utils::{frame_palette_changed, remap_frame, remap_frame_visuals, remap_if_eq};
use egui_elements::theme::FrameStateColors;

#[test]
fn kind_names_and_order() {
    let names: Vec<&str> = ThemeKind::to_vec().iter().map(|k| k.to_str()).collect();
    assert_eq!(
        names,
        vec![
            "Tokyo Night",
            "Tokyo Night Light",
            "McLaren 650GTS",
            "Reverie",
            "Shade Sanctuary",
            "Wasp",
            "Wasp Light"
        ]
    );
    assert_eq!(ThemeKind::to_vec()[3], ThemeKind::Reverie);
}

#[test]
fn palettes_match_their_sources() {
    let c = reverie::colors();
    assert_eq!(c.bg, Color32::from_rgb(26, 32, 35));
    assert_eq!(c.highlight, Color32::from_rgb(50, 102, 99));
    assert_eq!(c.accent, Color32::from_rgb(44, 202, 183));
    let s = shade_sanctuary::colors();
    assert_eq!(s.widget_bg, Color32::from_rgb(34, 18, 56));
    assert_eq!(s.info, Color32::from_rgb(81, 225, 233));
    let t = tokyo_night::colors();
    assert_eq!(t.text, Color32::from_rgb(190, 204, 244));
    assert_eq!(t.error, Color32::from_rgb(255, 91, 103));
    let l = tokyo_night_light::colors();
    assert_eq!(l.warning, Color32::from_rgb(138, 61, 0));
}

#[test]
fn palettes_keep_hover_highlight_and_muted_apart() {
    for c in [reverie::colors(), shade_sanctuary::colors(), tokyo_night::colors(), tokyo_night_light::colors()] {
        assert_ne!(c.hover, c.highlight);
        assert_ne!(c.text_muted, c.highlight);
        assert_ne!(c.text_muted, c.hover);
        assert_eq!(c.title_bar, c.bg);
    }
}

#[test]
fn palette_change_detection() {
    let a = reverie::colors();
    let mut b = a;
    assert!(!frame_palette_changed(&a, &b));
    b.accent = Color32::red();
    assert!(!frame_palette_changed(&a, &b));
    b.border = Color32::red();
    assert!(frame_palette_changed(&a, &b));
}

#[test]
fn remap_helpers() {
    let mut slot = Color32::red();
    remap_if_eq(&mut slot, Color32::blue(), Color32::green());
    assert_eq!(slot, Color32::red());
    remap_if_eq(&mut slot, Color32::red(), Color32::green());
    assert_eq!(slot, Color32::green());

    let mut f = FrameColors { fill: Color32::red(), stroke: Color32::blue(), shadow: Color32::white() };
    remap_frame(&mut f, Color32::red(), Color32::black(), Color32::blue(), Color32::green());
    assert_eq!(f, FrameColors { fill: Color32::black(), stroke: Color32::green(), shadow: Color32::white() });

    let mut v = FrameStateColors {
        bg_on_hover: Color32::red(),
        bg_on_click: Color32::blue(),
        border_on_hover: Color32::green(),
        border_on_click: Color32::white(),
    };
    remap_frame_visuals(
        &mut v,
        Color32::red(),
        Color32::black(),
        Color32::white(),
        Color32::black(),
        Color32::green(),
        Color32::transparent(),
    );
    assert_eq!(v.bg_on_hover, Color32::black());
    assert_eq!(v.bg_on_click, Color32::blue());
    assert_eq!(v.border_on_hover, Color32::transparent());
    assert_eq!(v.border_on_click, Color32::white());
}

#[test]
fn derived_frames_follow_a_palette_edit_and_its_undo() {
    let from = reverie::colors();
    let to = shade_sanctuary::colors();
    let mut d = DerivedFrames::from_palette(&from);
    d.remap_derived_frames(&from, &to);
    assert_eq!(d, DerivedFrames::from_palette(&to));
    d.remap_derived_frames(&to, &from);
    assert_eq!(d, DerivedFrames::from_palette(&from));
}

#[test]
fn customized_frame_colors_are_kept() {
    let from = tokyo_night::colors();
    let mut to: ThemeColors = from;
    to.widget_bg = Color32::from_rgb(1, 2, 3);
    let mut d = DerivedFrames::from_palette(&from);
    d.frame1.fill = Color32::red();
    d.remap_derived_frames(&from, &to);
    assert_eq!(d.frame1.fill, Color32::red());
    assert_eq!(d.frame1_visuals.bg_on_click, Color32::from_rgb(1, 2, 3));
    assert_eq!(d.frame2.fill, from.bg);
}

#[test]
fn unchanged_frame_slots_touch_nothing() {
    let from = tokyo_night_light::colors();
    let mut to = from;
    to.accent = Color32::red();
    let mut d = DerivedFrames::from_palette(&from);
    d.frame2.shadow = from.accent;
    let before = d;
    d.remap_derived_frames(&from, &to);
    assert_eq!(d, before);
}

#[test]
fn window_frame_follows_widget_bg() {
    let from = tokyo_night::colors();
    let mut to: ThemeColors = from;
    to.widget_bg = Color32::from_rgb(7, 8, 9);
    let mut d = DerivedFrames::from_palette(&from);
    assert_eq!(d.window_frame.fill, from.widget_bg);
    d.remap_derived_frames(&from, &to);
    assert_eq!(d.window_frame.fill, Color32::from_rgb(7, 8, 9));
    let mut edited_title = from;
    edited_title.title_bar = Color32::from_rgb(4, 5, 6);
    let mut e = DerivedFrames::from_palette(&from);
    e.remap_derived_frames(&from, &edited_title);
    assert_eq!(e.window_frame.fill, from.widget_bg);
}

#[test]
fn elegance_install_maps_slots_and_skips_a_repeat() {
    let colors = tokyo_night::colors();
    let (key, pal) = elegance_update(None, true, &colors).expect("first install");
    assert_eq!(key, EleganceThemeKey::from_colors(true, &colors));
    assert!(pal.is_dark);
    assert_eq!(pal.card, colors.widget_bg);
    assert_eq!(pal.input_bg, colors.widget_bg);
    assert_eq!(pal.text_faint, colors.text_muted);
    assert_eq!(pal.focus, colors.accent);
    assert_eq!(pal.purple_hover, colors.accent);
    assert_eq!(pal.blue, colors.info);
    assert_eq!(pal.green_hover, colors.success);
    assert_eq!(pal.danger, colors.error);
    assert_eq!(pal.amber, colors.warning);
    assert_eq!(pal, elegance_palette(true, &colors));
    assert!(elegance_update(Some(key), true, &colors).is_none());
    assert!(elegance_update(Some(key), false, &colors).is_some());
    let mut edited = colors;
    edited.accent = Color32::from_rgb(9, 9, 9);
    assert!(elegance_update(Some(key), true, &edited).is_some());
    let mut unused = colors;
    unused.hover = Color32::from_rgb(9, 9, 9);
    assert!(elegance_update(Some(key), true, &unused).is_none());
}
