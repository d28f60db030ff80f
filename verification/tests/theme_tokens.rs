use mangofetch_gui::theme::monolith_dark_visuals;
use mangofetch_gui::theme::{
    hex_to_color32, with_alpha_byte, BrandPreset, MonoLayout, MonoSemantics, MonoText,
    MonolithSurfaces, Rgba8, OPACITY_12, OPACITY_20, OPACITY_25, OPACITY_30, OPACITY_8,
};

fn opaque(r: u8, g: u8, b: u8) -> Rgba8 {
    Rgba8 { r, g, b, a: 255 }
}

fn egui_unmultiplied(r: u8, g: u8, b: u8, a: u8) -> Rgba8 {
    let [r, g, b, a] = egui::Color32::from_rgba_unmultiplied(r, g, b, a).to_array();
    Rgba8 { r, g, b, a }
}

#[test]
fn alpha_extremes() {
    assert_eq!(with_alpha_byte(opaque(200, 100, 50), 0), Rgba8 { r: 0, g: 0, b: 0, a: 0 });
    assert_eq!(with_alpha_byte(opaque(200, 100, 50), 255), opaque(200, 100, 50));
}

#[test]
fn alpha_premultiplies_and_keeps_alpha() {
    let c = MonoSemantics::separator();
    assert_eq!(c.a, 18);
    assert!(c.r < 255 && c.r > 0);
    assert_eq!(c.r, c.g);
    assert_eq!(c.g, c.b);
    assert_eq!(with_alpha_byte(opaque(0, 0, 0), 100), Rgba8 { r: 0, g: 0, b: 0, a: 100 });
    assert_eq!(with_alpha_byte(opaque(90, 180, 30), 128), egui_unmultiplied(90, 180, 30, 128));
}

#[test]
fn opacity_bytes_match_the_fractions() {
    assert_eq!(OPACITY_8, (0.08f32 * 255.0) as u8);
    assert_eq!(OPACITY_12, (0.12f32 * 255.0) as u8);
    assert_eq!(OPACITY_20, (0.20f32 * 255.0) as u8);
    assert_eq!(OPACITY_25, (0.25f32 * 255.0) as u8);
    assert_eq!(OPACITY_30, (0.30f32 * 255.0) as u8);
}

#[test]
fn text_and_surface_tokens() {
    assert_eq!(MonoText::primary(), opaque(0xf0, 0xf0, 0xf2));
    assert_eq!(MonoText::secondary(), opaque(0xd1, 0xd5, 0xdb));
    assert_eq!(MonoText::tertiary(), opaque(0x9c, 0xa3, 0xaf));
    assert_eq!(MonoText::muted(), opaque(0x6b, 0x72, 0x80));
    assert_eq!(MonoText::ghost(), opaque(0x4a, 0x54, 0x68));
    assert_eq!(MonoText::chrome(), opaque(0x55, 0x5f, 0x72));
    assert_eq!(MonolithSurfaces::surface_0(), opaque(0x08, 0x08, 0x0a));
    assert_eq!(MonolithSurfaces::surface_3(), opaque(0x22, 0x22, 0x24));
    assert_eq!(MonolithSurfaces::surface_7(), opaque(0x4c, 0x4c, 0x50));
    assert_eq!(MonolithSurfaces::tab_active(), opaque(0x26, 0x26, 0x28));
    assert_eq!(MonoLayout::CORNER_RADIUS_MD, 6);
}

#[test]
fn semantic_tints_use_egui_premultiplication() {
    assert_eq!(MonoSemantics::success(), opaque(0x34, 0xa8, 0x53));
    assert_eq!(MonoSemantics::success_bg(), egui_unmultiplied(0x34, 0xa8, 0x53, 30));
    assert_eq!(MonoSemantics::success_border(), egui_unmultiplied(0x34, 0xa8, 0x53, 76));
    assert_eq!(MonoSemantics::warning_bg(), egui_unmultiplied(0xfb, 0xbf, 0x24, 30));
    assert_eq!(MonoSemantics::danger_bg(), egui_unmultiplied(0xf2, 0x8b, 0x82, 20));
    assert_eq!(MonoSemantics::danger_border(), egui_unmultiplied(0xf2, 0x8b, 0x82, 63));
    assert_eq!(MonoSemantics::separator(), egui_unmultiplied(255, 255, 255, 18));
    assert_eq!(MonoSemantics::separator().a, 18);
}

#[test]
fn hex_codes_parse() {
    assert_eq!(hex_to_color32("#22d3ee"), opaque(0x22, 0xd3, 0xee));
    assert_eq!(hex_to_color32("22d3ee"), opaque(0x22, 0xd3, 0xee));
    assert_eq!(hex_to_color32("##FFaa00"), opaque(0xff, 0xaa, 0x00));
    assert_eq!(hex_to_color32("#000000ff"), opaque(0, 0, 0));
}

#[test]
fn hex_fields_that_do_not_parse_give_zero() {
    assert_eq!(hex_to_color32("#zz11gg"), opaque(0, 0x11, 0));
    assert_eq!(hex_to_color32("#+f+a-1"), opaque(15, 10, 0));
    assert_eq!(hex_to_color32("#é11ff"), opaque(0, 0x11, 0xff));
}

#[test]
fn hex_round_trip_of_formatted_codes() {
    for (r, g, b) in [(0u8, 0u8, 0u8), (255, 255, 255), (0x12, 0xab, 0x9f), (1, 16, 200)] {
        let code = format!("#{:02x}{:02x}{:02x}", r, g, b);
        assert_eq!(hex_to_color32(&code), opaque(r, g, b));
    }
}

#[test]
fn brand_names() {
    assert_eq!(BrandPreset::PlasmCore.name(), "Plasma Core");
    assert_eq!(BrandPreset::OxidizedGold.name(), "Oxidized Gold");
    assert_eq!(BrandPreset::VioletReaction.name(), "Violet Reaction");
    assert_eq!(BrandPreset::CoolantLiquid.name(), "Coolant Liquid");
    assert_eq!(BrandPreset::CriticalMass.name(), "Critical Mass");
}

#[test]
fn brand_colours() {
    assert_eq!(BrandPreset::PlasmCore.primary(), opaque(0x22, 0xd3, 0xee));
    assert_eq!(BrandPreset::PlasmCore.secondary(), opaque(0xa8, 0x55, 0xf7));
    assert_eq!(BrandPreset::OxidizedGold.primary(), opaque(0xf5, 0x9e, 0x0b));
    assert_eq!(BrandPreset::OxidizedGold.secondary(), opaque(0xfb, 0xbf, 0x24));
    assert_eq!(BrandPreset::VioletReaction.primary(), opaque(0xa8, 0x55, 0xf7));
    assert_eq!(BrandPreset::VioletReaction.secondary(), opaque(0xe1, 0x1d, 0x48));
    assert_eq!(BrandPreset::CoolantLiquid.primary(), opaque(0x06, 0xb6, 0xd4));
    assert_eq!(BrandPreset::CoolantLiquid.secondary(), opaque(0x2d, 0xd4, 0xbf));
    assert_eq!(BrandPreset::CriticalMass.primary(), opaque(0xef, 0x44, 0x44));
    assert_eq!(BrandPreset::CriticalMass.secondary(), opaque(0x99, 0x1b, 0x1b));
}

#[test]
fn brand_tints_grow_in_opacity() {
    for p in BrandPreset::all() {
        let bg = p.primary_bg();
        let active = p.primary_active();
        let border = p.primary_border();
        assert!(bg.a < active.a && active.a < border.a);
        let c = p.primary();
        assert_eq!(bg, egui_unmultiplied(c.r, c.g, c.b, 30));
        assert_eq!(active, egui_unmultiplied(c.r, c.g, c.b, 51));
        assert_eq!(border, egui_unmultiplied(c.r, c.g, c.b, 76));
    }
}

#[test]
fn dark_visuals_slots() {
    let v = monolith_dark_visuals(BrandPreset::OxidizedGold);
    let p = BrandPreset::OxidizedGold.primary();
    assert_eq!(v.window_fill, opaque(0x10, 0x10, 0x12));
    assert_eq!(v.panel_fill, opaque(0x22, 0x22, 0x24));
    assert_eq!(v.faint_bg, opaque(0x18, 0x18, 0x1a));
    assert_eq!(v.extreme_bg, opaque(0x08, 0x08, 0x0a));
    assert_eq!(v.inactive_bg, opaque(0x2a, 0x2a, 0x2d));
    assert_eq!(v.inactive_fg, opaque(0xd1, 0xd5, 0xdb));
    assert_eq!(v.hovered_bg, opaque(0x34, 0x34, 0x37));
    assert_eq!(v.hovered_fg, p);
    assert_eq!(v.active_bg, BrandPreset::OxidizedGold.primary_active());
    assert_eq!(v.active_weak_bg, v.active_bg);
    assert_eq!(v.noninteractive_fg, MonoSemantics::separator());
    assert_eq!(v.selection_bg, BrandPreset::OxidizedGold.primary_bg());
    assert_eq!(v.selection_fg, p);
    assert_eq!(v.hyperlink, p);
}
