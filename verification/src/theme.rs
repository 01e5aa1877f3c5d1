//! Palettes and the colors that frames derive from them.
//!
//! A theme is one of the built-in [`ThemeKind`]s. Its [`ThemeColors`] are the
//! public palette; the frames and frame hover states of the theme take some of
//! their colors from palette slots ([`DerivedFrames`]). When the palette is
//! edited, [`DerivedFrames::remap_derived_frames`] moves every derived color
//! that still follows its slot to the new slot value, and leaves customized
//! colors alone.
//!
//! The palette is also mirrored into an `egui-elegance` palette
//! ([`elegance_palette`]); [`elegance_update`] decides whether an install is
//! needed, keyed on the colors that mirror reads.

use crate::color::Color32;
use crate::utils::{
    frame_palette_changed, frame_slots_differ, remap_frame, remap_frame_visuals, remapped,
};
use crate::visuals::{ButtonVisuals, ComboBoxVisuals, FrameVisuals, LabelVisuals, TextEditVisuals};
use vstd::prelude::*;

verus! {

/// Built-in palette.
#[derive(Debug, Clone, Copy, PartialEq, Eq, Structural)]
pub enum ThemeKind {
    /// Based on the Tokyo Night VS Code theme.
    TokyoNight,
    /// Light variant of Tokyo Night.
    TokyoNightLight,
    /// Based on the 2015 McLaren 650S GT3 livery.
    McLaren650Gts,
    /// Based on the Reverie Obsidian theme.
    Reverie,
    /// Based on the Shade Sanctuary Obsidian theme.
    ShadeSanctuary,
    /// Based on the Wasp Obsidian theme (dark).
    Wasp,
    /// Based on the Wasp Obsidian theme (light).
    WaspLight,
}

/// Human-readable name of a kind, as shown by the theme switcher.
pub open spec fn kind_name(kind: ThemeKind) -> Seq<char> {
    match kind {
        ThemeKind::TokyoNight => "Tokyo Night"@,
        ThemeKind::TokyoNightLight => "Tokyo Night Light"@,
        ThemeKind::McLaren650Gts => "McLaren 650GTS"@,
        ThemeKind::Reverie => "Reverie"@,
        ThemeKind::ShadeSanctuary => "Shade Sanctuary"@,
        ThemeKind::Wasp => "Wasp"@,
        ThemeKind::WaspLight => "Wasp Light"@,
    }
}

/// Every built-in kind, in switcher order.
pub open spec fn all_kinds() -> Seq<ThemeKind> {
    seq![
        ThemeKind::TokyoNight,
        ThemeKind::TokyoNightLight,
        ThemeKind::McLaren650Gts,
        ThemeKind::Reverie,
        ThemeKind::ShadeSanctuary,
        ThemeKind::Wasp,
        ThemeKind::WaspLight,
    ]
}

impl ThemeKind {
    /// Human-readable name, used by the theme switcher.
    pub fn to_str(&self) -> (s: &'static str)
        ensures
            s@ == kind_name(*self),
    {
        match self {
            ThemeKind::TokyoNight => "Tokyo Night",
            ThemeKind::TokyoNightLight => "Tokyo Night Light",
            ThemeKind::McLaren650Gts => "McLaren 650GTS",
            ThemeKind::Reverie => "Reverie",
            ThemeKind::ShadeSanctuary => "Shade Sanctuary",
            ThemeKind::Wasp => "Wasp",
            ThemeKind::WaspLight => "Wasp Light",
        }
    }

    /// Every built-in kind, in switcher order.
    pub fn to_vec() -> (v: Vec<ThemeKind>)
        ensures
            v@ == all_kinds(),
    {
        let v = vec![
            ThemeKind::TokyoNight,
            ThemeKind::TokyoNightLight,
            ThemeKind::McLaren650Gts,
            ThemeKind::Reverie,
            ThemeKind::ShadeSanctuary,
            ThemeKind::Wasp,
            ThemeKind::WaspLight,
        ];
        assert(v@ =~= all_kinds());
        v
    }
}

/// The color palette of a theme. Slot names are roles.
#[derive(Copy, Clone, Debug, PartialEq, Eq, Structural)]
pub struct ThemeColors {
    /// Custom window chrome.
    pub title_bar: Color32,
    /// App canvas.
    pub bg: Color32,
    /// Elevated surface and default widget fill.
    pub widget_bg: Color32,
    /// Pointer-over fill lift.
    pub hover: Color32,
    /// Body text.
    pub text: Color32,
    /// Hints and secondary copy.
    pub text_muted: Color32,
    /// Selected / emphasis fill, distinct from hover.
    pub highlight: Color32,
    /// Structural stroke and shadow color.
    pub border: Color32,
    /// Focus and primary action.
    pub accent: Color32,
    /// Danger, destructive, invalid.
    pub error: Color32,
    /// Caution.
    pub warning: Color32,
    /// Positive, complete.
    pub success: Color32,
    /// Hyperlinks and secondary emphasis.
    pub info: Color32,
}

/// Per-widget visuals of a theme.
#[derive(Copy, Clone, Debug, PartialEq)]
pub struct ThemeVisuals {
    /// Visuals for buttons.
    pub button_visuals: ButtonVisuals,
    /// Visuals for labels.
    pub label_visuals: LabelVisuals,
    /// Visuals for combo boxes.
    pub combo_box_visuals: ComboBoxVisuals,
    /// Visuals for text edits.
    pub text_edit_visuals: TextEditVisuals,
    /// Hover / click visuals of the section frame `frame1`.
    pub frame1_visuals: FrameVisuals,
    /// Hover / click visuals of the nested frame `frame2`.
    pub frame2_visuals: FrameVisuals,
}

/// Colors of a frame: its fill, its stroke color and its shadow color.
#[derive(Copy, Clone, Debug, PartialEq, Eq, Structural)]
pub struct FrameColors {
    pub fill: Color32,
    pub stroke: Color32,
    pub shadow: Color32,
}

/// Colors a frame takes while hovered or clicked: the fills, and the colors
/// of the hover and click borders.
#[derive(Copy, Clone, Debug, PartialEq, Eq, Structural)]
pub struct FrameStateColors {
    pub bg_on_hover: Color32,
    pub bg_on_click: Color32,
    pub border_on_hover: Color32,
    pub border_on_click: Color32,
}

/// The palette-derived colors of a theme's frames: the window frame, the
/// section frame `frame1`, the nested frame `frame2`, and the hover / click
/// colors of the last two.
#[derive(Copy, Clone, Debug, PartialEq, Eq, Structural)]
pub struct DerivedFrames {
    pub window_frame: FrameColors,
    pub frame1: FrameColors,
    pub frame2: FrameColors,
    pub frame1_visuals: FrameStateColors,
    pub frame2_visuals: FrameStateColors,
}

/// The derived frame colors that follow a palette exactly: the window frame
/// and `frame1` are filled with `widget_bg`, `frame2` with `bg`,
/// all three stroked and shadowed with `border`; both frames hover to `hover`,
/// click back to their own fill, and use `highlight` for their state borders.
pub open spec fn palette_frames(c: ThemeColors) -> DerivedFrames {
    DerivedFrames {
        window_frame: FrameColors { fill: c.widget_bg, stroke: c.border, shadow: c.border },
        frame1: FrameColors { fill: c.widget_bg, stroke: c.border, shadow: c.border },
        frame2: FrameColors { fill: c.bg, stroke: c.border, shadow: c.border },
        frame1_visuals: FrameStateColors {
            bg_on_hover: c.hover,
            bg_on_click: c.widget_bg,
            border_on_hover: c.highlight,
            border_on_click: c.highlight,
        },
        frame2_visuals: FrameStateColors {
            bg_on_hover: c.hover,
            bg_on_click: c.bg,
            border_on_hover: c.highlight,
            border_on_click: c.highlight,
        },
    }
}

/// Each derived color moved from its slot in `from` to the same slot in
/// `to`, where it still equals the slot in `from`: the color-by-color meaning of a
/// palette remap.
pub open spec fn remap_all(d: DerivedFrames, from: ThemeColors, to: ThemeColors) -> DerivedFrames {
    DerivedFrames {
        window_frame: FrameColors {
            fill: remapped(d.window_frame.fill, from.widget_bg, to.widget_bg),
            stroke: remapped(d.window_frame.stroke, from.border, to.border),
            shadow: remapped(d.window_frame.shadow, from.border, to.border),
        },
        frame1: FrameColors {
            fill: remapped(d.frame1.fill, from.widget_bg, to.widget_bg),
            stroke: remapped(d.frame1.stroke, from.border, to.border),
            shadow: remapped(d.frame1.shadow, from.border, to.border),
        },
        frame2: FrameColors {
            fill: remapped(d.frame2.fill, from.bg, to.bg),
            stroke: remapped(d.frame2.stroke, from.border, to.border),
            shadow: remapped(d.frame2.shadow, from.border, to.border),
        },
        frame1_visuals: FrameStateColors {
            bg_on_hover: remapped(d.frame1_visuals.bg_on_hover, from.hover, to.hover),
            bg_on_click: remapped(d.frame1_visuals.bg_on_click, from.widget_bg, to.widget_bg),
            border_on_hover: remapped(
                d.frame1_visuals.border_on_hover,
                from.highlight,
                to.highlight,
            ),
            border_on_click: remapped(
                d.frame1_visuals.border_on_click,
                from.highlight,
                to.highlight,
            ),
        },
        frame2_visuals: FrameStateColors {
            bg_on_hover: remapped(d.frame2_visuals.bg_on_hover, from.hover, to.hover),
            bg_on_click: remapped(d.frame2_visuals.bg_on_click, from.bg, to.bg),
            border_on_hover: remapped(
                d.frame2_visuals.border_on_hover,
                from.highlight,
                to.highlight,
            ),
            border_on_click: remapped(
                d.frame2_visuals.border_on_click,
                from.highlight,
                to.highlight,
            ),
        },
    }
}

impl DerivedFrames {
    /// The frame colors that follow `colors` exactly.
    pub fn from_palette(colors: &ThemeColors) -> (d: DerivedFrames)
        ensures
            d == palette_frames(*colors),
    {
        DerivedFrames {
            window_frame: FrameColors {
                fill: colors.widget_bg,
                stroke: colors.border,
                shadow: colors.border,
            },
            frame1: FrameColors {
                fill: colors.widget_bg,
                stroke: colors.border,
                shadow: colors.border,
            },
            frame2: FrameColors { fill: colors.bg, stroke: colors.border, shadow: colors.border },
            frame1_visuals: FrameStateColors {
                bg_on_hover: colors.hover,
                bg_on_click: colors.widget_bg,
                border_on_hover: colors.highlight,
                border_on_click: colors.highlight,
            },
            frame2_visuals: FrameStateColors {
                bg_on_hover: colors.hover,
                bg_on_click: colors.bg,
                border_on_hover: colors.highlight,
                border_on_click: colors.highlight,
            },
        }
    }

    /// Keep derived frame colors in sync with a palette change from `previous` to
    /// `current`.
    ///
    /// A color is only updated if it still matches its slot in `old` (e.g.
    /// `frame1.fill == previous.widget_bg`); customized colors are left alone.
    /// When none of the six frame slots changed, nothing is touched.
    pub fn remap_derived_frames(&mut self, previous: &ThemeColors, current: &ThemeColors)
        ensures
            *final(self) == (if frame_slots_differ(*previous, *current) {
                remap_all(*old(self), *previous, *current)
            } else {
                *old(self)
            }),
    {
        if !frame_palette_changed(previous, current) {
            return;
        }
        remap_frame(&mut self.window_frame, previous.widget_bg, current.widget_bg, previous.border, current.border);
        remap_frame(&mut self.frame1, previous.widget_bg, current.widget_bg, previous.border, current.border);
        remap_frame(&mut self.frame2, previous.bg, current.bg, previous.border, current.border);
        remap_frame_visuals(
            &mut self.frame1_visuals,
            previous.hover,
            current.hover,
            previous.widget_bg,
            current.widget_bg,
            previous.highlight,
            current.highlight,
        );
        remap_frame_visuals(
            &mut self.frame2_visuals,
            previous.hover,
            current.hover,
            previous.bg,
            current.bg,
            previous.highlight,
            current.highlight,
        );
    }
}

/// Frames that follow a palette exactly keep following it across a palette
/// edit: remapping them from `from` to `to` gives the frames that follow `to`.
pub proof fn remap_keeps_palette_frames_in_sync(from: ThemeColors, to: ThemeColors)
    ensures
        (if frame_slots_differ(from, to) {
            remap_all(palette_frames(from), from, to)
        } else {
            palette_frames(from)
        }) == palette_frames(to),
{
}

/// A palette edit that is undone restores frames that followed the palette:
/// remapping from `from` to `to` and back gives the frames unchanged.
pub proof fn remap_then_undo_restores_palette_frames(from: ThemeColors, to: ThemeColors)
    ensures
        ({
            let d1 = if frame_slots_differ(from, to) {
                remap_all(palette_frames(from), from, to)
            } else {
                palette_frames(from)
            };
            if frame_slots_differ(to, from) {
                remap_all(d1, to, from)
            } else {
                d1
            }
        }) == palette_frames(from),
{
    remap_keeps_palette_frames_in_sync(from, to);
    remap_keeps_palette_frames_in_sync(to, from);
}

/// Remapping with an unchanged palette leaves any derived frames untouched,
/// customized or not.
pub proof fn remap_with_same_palette_is_identity(d: DerivedFrames, colors: ThemeColors)
    ensures
        !frame_slots_differ(colors, colors),
        remap_all(d, colors, colors) == d,
{
}

/// Applying the same palette remap twice changes nothing more than applying
/// it once.
pub proof fn remap_derived_frames_is_idempotent(d: DerivedFrames, from: ThemeColors, to: ThemeColors)
    ensures
        remap_all(remap_all(d, from, to), from, to) == remap_all(d, from, to),
{
}

/// The switcher lists every built-in kind exactly once.
pub proof fn all_kinds_lists_each_kind_once(kind: ThemeKind)
    ensures
        all_kinds().contains(kind),
        all_kinds().no_duplicates(),
        all_kinds().len() == 7,
{
    match kind {
        ThemeKind::TokyoNight => assert(all_kinds()[0] == kind),
        ThemeKind::TokyoNightLight => assert(all_kinds()[1] == kind),
        ThemeKind::McLaren650Gts => assert(all_kinds()[2] == kind),
        ThemeKind::Reverie => assert(all_kinds()[3] == kind),
        ThemeKind::ShadeSanctuary => assert(all_kinds()[4] == kind),
        ThemeKind::Wasp => assert(all_kinds()[5] == kind),
        ThemeKind::WaspLight => assert(all_kinds()[6] == kind),
    }
}

/// Different kinds have different names, so the switcher's entries can be
/// told apart.
pub proof fn kind_names_are_distinct(a: ThemeKind, b: ThemeKind)
    ensures
        a != b ==> kind_name(a) != kind_name(b),
{
    reveal_strlit("Tokyo Night");
    reveal_strlit("Tokyo Night Light");
    reveal_strlit("McLaren 650GTS");
    reveal_strlit("Reverie");
    reveal_strlit("Shade Sanctuary");
    reveal_strlit("Wasp");
    reveal_strlit("Wasp Light");
    if a != b {
        assert(kind_name(a).len() != kind_name(b).len());
    }
}


/// The palette colors an `egui-elegance` theme is built from, with whether
/// the theme is dark. Two equal keys give the same elegance palette, so an
/// installed key tells when reinstalling would change nothing.
#[derive(Copy, Clone, Debug, PartialEq, Eq, Structural)]
pub struct EleganceThemeKey {
    pub dark: bool,
    pub bg: Color32,
    pub widget_bg: Color32,
    pub border: Color32,
    pub text: Color32,
    pub text_muted: Color32,
    pub accent: Color32,
    pub info: Color32,
    pub success: Color32,
    pub error: Color32,
    pub warning: Color32,
}

/// The colors of an `egui-elegance` palette, slot by slot, and whether it is
/// dark.
#[derive(Copy, Clone, Debug, PartialEq, Eq, Structural)]
pub struct EleganceColors {
    pub is_dark: bool,
    pub bg: Color32,
    pub card: Color32,
    pub input_bg: Color32,
    pub border: Color32,
    pub text: Color32,
    pub text_muted: Color32,
    pub text_faint: Color32,
    pub focus: Color32,
    pub blue: Color32,
    pub green: Color32,
    pub green_hover: Color32,
    pub red: Color32,
    pub red_hover: Color32,
    pub amber: Color32,
    pub amber_hover: Color32,
    pub purple: Color32,
    pub purple_hover: Color32,
    pub success: Color32,
    pub danger: Color32,
    pub warning: Color32,
}

/// The key of a theme that is `dark` (or not) with palette `c`.
pub open spec fn elegance_key_of(dark: bool, c: ThemeColors) -> EleganceThemeKey {
    EleganceThemeKey {
        dark,
        bg: c.bg,
        widget_bg: c.widget_bg,
        border: c.border,
        text: c.text,
        text_muted: c.text_muted,
        accent: c.accent,
        info: c.info,
        success: c.success,
        error: c.error,
        warning: c.warning,
    }
}

/// The elegance palette of a theme: cards and inputs take `widget_bg`, faint
/// text the muted text, focus and purple the accent, blue `info`, green
/// `success`, red `error`, amber `warning`, each hover shade its own color.
pub open spec fn elegance_colors(dark: bool, c: ThemeColors) -> EleganceColors {
    EleganceColors {
        is_dark: dark,
        bg: c.bg,
        card: c.widget_bg,
        input_bg: c.widget_bg,
        border: c.border,
        text: c.text,
        text_muted: c.text_muted,
        text_faint: c.text_muted,
        focus: c.accent,
        blue: c.info,
        green: c.success,
        green_hover: c.success,
        red: c.error,
        red_hover: c.error,
        amber: c.warning,
        amber_hover: c.warning,
        purple: c.accent,
        purple_hover: c.accent,
        success: c.success,
        danger: c.error,
        warning: c.warning,
    }
}

/// What installing the elegance theme of a `dark` theme with palette `c`
/// does when `installed` is the key installed before: nothing when it is
/// the same key, else the new key and palette to install.
pub open spec fn elegance_install(installed: Option<EleganceThemeKey>, dark: bool, c: ThemeColors) -> Option<(EleganceThemeKey, EleganceColors)> {
    if installed == Some(elegance_key_of(dark, c)) {
        None
    } else {
        Some((elegance_key_of(dark, c), elegance_colors(dark, c)))
    }
}

impl EleganceThemeKey {
    /// The key of a theme that is `dark` (or not) with palette `colors`.
    pub fn from_colors(dark: bool, colors: &ThemeColors) -> (k: EleganceThemeKey)
        ensures
            k == elegance_key_of(dark, *colors),
    {
        EleganceThemeKey {
            dark,
            bg: colors.bg,
            widget_bg: colors.widget_bg,
            border: colors.border,
            text: colors.text,
            text_muted: colors.text_muted,
            accent: colors.accent,
            info: colors.info,
            success: colors.success,
            error: colors.error,
            warning: colors.warning,
        }
    }
}

/// The elegance palette of a theme that is `dark` (or not) with palette
/// `colors`.
pub fn elegance_palette(dark: bool, colors: &ThemeColors) -> (p: EleganceColors)
    ensures
        p == elegance_colors(dark, *colors),
{
    EleganceColors {
        is_dark: dark,
        bg: colors.bg,
        card: colors.widget_bg,
        input_bg: colors.widget_bg,
        border: colors.border,
        text: colors.text,
        text_muted: colors.text_muted,
        text_faint: colors.text_muted,
        focus: colors.accent,
        blue: colors.info,
        green: colors.success,
        green_hover: colors.success,
        red: colors.error,
        red_hover: colors.error,
        amber: colors.warning,
        amber_hover: colors.warning,
        purple: colors.accent,
        purple_hover: colors.accent,
        success: colors.success,
        danger: colors.error,
        warning: colors.warning,
    }
}

/// Decide an elegance install: `None` when the key `installed` before is
/// already the key of this theme, else the key to remember and the palette
/// to install.
pub fn elegance_update(installed: Option<EleganceThemeKey>, dark: bool, colors: &ThemeColors) -> (r: Option<(EleganceThemeKey, EleganceColors)>)
    ensures
        r == elegance_install(installed, dark, *colors),
        (r is None) <==> installed == Some(elegance_key_of(dark, *colors)),
        r matches Some((k, p)) ==> k == elegance_key_of(dark, *colors) && p == elegance_colors(dark, *colors),
{
    let key = EleganceThemeKey::from_colors(dark, colors);
    match installed {
        Some(k) => {
            if k == key {
                return None;
            }
        },
        None => {},
    }
    Some((key, elegance_palette(dark, colors)))
}

/// Installing the same theme a second time does nothing: after an install
/// remembers its key, the next install of that theme is skipped.
pub proof fn second_elegance_install_is_a_no_op(installed: Option<EleganceThemeKey>, dark: bool, c: ThemeColors)
    ensures
        elegance_install(installed, dark, c) matches Some((k, _)) ==> elegance_install(Some(k), dark, c) is None,
{
}

/// A palette edit that changes a slot elegance reads makes the next install
/// happen.
pub proof fn changed_colors_reinstall(dark: bool, c: ThemeColors, d: ThemeColors)
    requires
        elegance_colors(dark, c) != elegance_colors(dark, d),
    ensures
        elegance_install(Some(elegance_key_of(dark, c)), dark, d) is Some,
{
}

/// A palette remap touches only the derived colors that still follow their
/// slot: each color that differs from its slot in the previous palette is
/// left as it was, and each that equals it takes the slot's new value. The
/// window frame and `frame1` follow `widget_bg`, `frame2` follows `bg`,
/// strokes and shadows follow `border`, hover fills `hover`, click fills the
/// frame's own fill slot, and state borders `highlight`.
pub proof fn remap_leaves_customized_colors_alone(d: DerivedFrames, from: ThemeColors, to: ThemeColors)
    ensures
        ({
            let r = remap_all(d, from, to);
            &&& d.window_frame.fill != from.widget_bg ==> r.window_frame.fill == d.window_frame.fill
            &&& d.window_frame.fill == from.widget_bg ==> r.window_frame.fill == to.widget_bg
            &&& d.window_frame.stroke != from.border ==> r.window_frame.stroke == d.window_frame.stroke
            &&& d.window_frame.stroke == from.border ==> r.window_frame.stroke == to.border
            &&& d.window_frame.shadow != from.border ==> r.window_frame.shadow == d.window_frame.shadow
            &&& d.window_frame.shadow == from.border ==> r.window_frame.shadow == to.border
            &&& d.frame1.fill != from.widget_bg ==> r.frame1.fill == d.frame1.fill
            &&& d.frame1.fill == from.widget_bg ==> r.frame1.fill == to.widget_bg
            &&& d.frame1.stroke != from.border ==> r.frame1.stroke == d.frame1.stroke
            &&& d.frame1.stroke == from.border ==> r.frame1.stroke == to.border
            &&& d.frame1.shadow != from.border ==> r.frame1.shadow == d.frame1.shadow
            &&& d.frame1.shadow == from.border ==> r.frame1.shadow == to.border
            &&& d.frame2.fill != from.bg ==> r.frame2.fill == d.frame2.fill
            &&& d.frame2.fill == from.bg ==> r.frame2.fill == to.bg
            &&& d.frame2.stroke != from.border ==> r.frame2.stroke == d.frame2.stroke
            &&& d.frame2.stroke == from.border ==> r.frame2.stroke == to.border
            &&& d.frame2.shadow != from.border ==> r.frame2.shadow == d.frame2.shadow
            &&& d.frame2.shadow == from.border ==> r.frame2.shadow == to.border
            &&& d.frame1_visuals.bg_on_hover != from.hover ==> r.frame1_visuals.bg_on_hover == d.frame1_visuals.bg_on_hover
            &&& d.frame1_visuals.bg_on_hover == from.hover ==> r.frame1_visuals.bg_on_hover == to.hover
            &&& d.frame1_visuals.bg_on_click != from.widget_bg ==> r.frame1_visuals.bg_on_click == d.frame1_visuals.bg_on_click
            &&& d.frame1_visuals.bg_on_click == from.widget_bg ==> r.frame1_visuals.bg_on_click == to.widget_bg
            &&& d.frame1_visuals.border_on_hover != from.highlight ==> r.frame1_visuals.border_on_hover == d.frame1_visuals.border_on_hover
            &&& d.frame1_visuals.border_on_hover == from.highlight ==> r.frame1_visuals.border_on_hover == to.highlight
            &&& d.frame1_visuals.border_on_click != from.highlight ==> r.frame1_visuals.border_on_click == d.frame1_visuals.border_on_click
            &&& d.frame1_visuals.border_on_click == from.highlight ==> r.frame1_visuals.border_on_click == to.highlight
            &&& d.frame2_visuals.bg_on_hover != from.hover ==> r.frame2_visuals.bg_on_hover == d.frame2_visuals.bg_on_hover
            &&& d.frame2_visuals.bg_on_hover == from.hover ==> r.frame2_visuals.bg_on_hover == to.hover
            &&& d.frame2_visuals.bg_on_click != from.bg ==> r.frame2_visuals.bg_on_click == d.frame2_visuals.bg_on_click
            &&& d.frame2_visuals.bg_on_click == from.bg ==> r.frame2_visuals.bg_on_click == to.bg
            &&& d.frame2_visuals.border_on_hover != from.highlight ==> r.frame2_visuals.border_on_hover == d.frame2_visuals.border_on_hover
            &&& d.frame2_visuals.border_on_hover == from.highlight ==> r.frame2_visuals.border_on_hover == to.highlight
            &&& d.frame2_visuals.border_on_click != from.highlight ==> r.frame2_visuals.border_on_click == d.frame2_visuals.border_on_click
            &&& d.frame2_visuals.border_on_click == from.highlight ==> r.frame2_visuals.border_on_click == to.highlight
        }),
{
}

/// The elegance palette takes each slot from its documented theme slot:
/// background, border, body text and muted text from the same slots, cards
/// and inputs from `widget_bg`, faint text from `text_muted`, focus and purple
/// from `accent`, blue from `info`, green and success from `success`, red and
/// danger from `error`, amber and warning from `warning`, each hover shade
/// from its own color. Body text is the theme's text, not its muted text.
pub proof fn elegance_slots_follow_the_theme(dark: bool, c: ThemeColors)
    ensures
        ({
            let p = elegance_colors(dark, c);
            &&& p.is_dark == dark
            &&& p.bg == c.bg
            &&& p.card == c.widget_bg
            &&& p.input_bg == c.widget_bg
            &&& p.border == c.border
            &&& p.text == c.text
            &&& p.text_muted == c.text_muted
            &&& p.text_faint == c.text_muted
            &&& p.focus == c.accent
            &&& p.blue == c.info
            &&& p.green == c.success
            &&& p.green_hover == c.success
            &&& p.red == c.error
            &&& p.red_hover == c.error
            &&& p.amber == c.warning
            &&& p.amber_hover == c.warning
            &&& p.purple == c.accent
            &&& p.purple_hover == c.accent
            &&& p.success == c.success
            &&& p.danger == c.error
            &&& p.warning == c.warning
            &&& c.text != c.text_muted ==> p.text != p.text_muted
        }),
{
}

} // verus!
