//! Design tokens of the MonolithUI theme: text, semantic and surface colours,
//! corner radii, the switchable brand presets, and the `#RRGGBB` parser that
//! turns a preset's hex codes into colours.

use vstd::prelude::*;
use vstd::string::*;
use vstd::utf8::*;

verus! {

// ── Colour values ──────────────────────────────────────────────────────────

/// A colour in premultiplied sRGBA, one byte per channel: the value that an
/// `egui::Color32` holds and that its `to_array` returns.
#[derive(Clone, Copy, Debug, PartialEq, Eq, Structural)]
pub struct Rgba8 {
    pub r: u8,
    pub g: u8,
    pub b: u8,
    pub a: u8,
}

impl Rgba8 {
    /// The fully opaque colour with the given channels.
    pub open spec fn opaque(r: u8, g: u8, b: u8) -> Rgba8 {
        Rgba8 { r, g, b, a: 255 }
    }

    /// The fully transparent colour.
    pub open spec fn transparent() -> Rgba8 {
        Rgba8 { r: 0, g: 0, b: 0, a: 0 }
    }

    /// `c` can be the colour that `egui::Color32::from_rgba_unmultiplied(r,
    /// g, b, a)` gives: it carries the alpha `a`, it is transparent at alpha
    /// 0 and the opaque colour `(r, g, b)` at alpha 255. For an alpha in
    /// between, egui premultiplies the channels through a lookup table
    /// computed with floating-point powers, whose bytes may differ between
    /// platforms, so they are left open.
    pub open spec fn is_unmultiplied(c: Rgba8, r: u8, g: u8, b: u8, a: u8) -> bool {
        &&& c.a == a
        &&& a == 0 ==> c == Rgba8::transparent()
        &&& a == 255 ==> c == Rgba8::opaque(r, g, b)
    }
}

/// Builds an opaque colour with `egui::Color32::from_rgb`, which stores
/// `[r, g, b, 255]`; the four bytes are read back with `to_array`.
#[verifier::external_body]
pub(crate) fn rgb(r: u8, g: u8, b: u8) -> (c: Rgba8)
    ensures
        c == Rgba8::opaque(r, g, b),
{
    let [r, g, b, a] = egui::Color32::from_rgb(r, g, b).to_array();
    Rgba8 { r, g, b, a }
}

/// Builds a colour with `egui::Color32::from_rgba_unmultiplied`. ecolor
/// returns the transparent colour for alpha 0, `from_rgb(r, g, b)` for
/// alpha 255, and otherwise premultiplies each colour channel through a
/// lookup table and keeps the alpha byte. The table is computed with
/// `f32::powf`, whose precision std leaves to the platform, so the channel
/// bytes for an alpha strictly between 0 and 255 are not stated.
#[verifier::external_body]
pub(crate) fn rgba_unmultiplied(r: u8, g: u8, b: u8, a: u8) -> (c: Rgba8)
    ensures
        c.a == a,
        a == 0 ==> c == Rgba8::transparent(),
        a == 255 ==> c == Rgba8::opaque(r, g, b),
{
    let [r, g, b, a] = egui::Color32::from_rgba_unmultiplied(r, g, b, a).to_array();
    Rgba8 { r, g, b, a }
}

/// Gives `color` a new opacity `alpha` (0 transparent, 255 opaque): the
/// colour's stored channels are taken as unmultiplied values under the new
/// alpha: alpha 0 gives the transparent colour, alpha 255 the colour's
/// channels made opaque.
pub fn with_alpha_byte(color: Rgba8, alpha: u8) -> (c: Rgba8)
    ensures
        Rgba8::is_unmultiplied(c, color.r, color.g, color.b, alpha),
        alpha == 0 ==> c == Rgba8::transparent(),
        alpha == 255 ==> c == Rgba8::opaque(color.r, color.g, color.b),
{
    rgba_unmultiplied(color.r, color.g, color.b, alpha)
}

// ── Opacity steps ──────────────────────────────────────────────────────────
//
// The theme names its translucent tints by a fraction of full opacity; the
// alpha byte of each is the fraction times 255, truncated, as
// `(fraction * 255.0) as u8` computes it in single precision.

/// 8 % opacity.
pub const OPACITY_8: u8 = 20;
/// 12 % opacity.
pub const OPACITY_12: u8 = 30;
/// 20 % opacity.
pub const OPACITY_20: u8 = 51;
/// 25 % opacity.
pub const OPACITY_25: u8 = 63;
/// 30 % opacity.
pub const OPACITY_30: u8 = 76;

// ── Text colours ───────────────────────────────────────────────────────────

/// Text colour tokens.
pub struct MonoText;

impl MonoText {
    /// Primary text: headings and important content.
    pub fn primary() -> (c: Rgba8)
        ensures
            c == Rgba8::opaque(0xf0, 0xf0, 0xf2),
    {
        rgb(0xf0, 0xf0, 0xf2)
    }

    /// Secondary text: body copy, descriptions.
    pub fn secondary() -> (c: Rgba8)
        ensures
            c == Rgba8::opaque(0xd1, 0xd5, 0xdb),
    {
        rgb(0xd1, 0xd5, 0xdb)
    }

    /// Tertiary text: labels, captions.
    pub fn tertiary() -> (c: Rgba8)
        ensures
            c == Rgba8::opaque(0x9c, 0xa3, 0xaf),
    {
        rgb(0x9c, 0xa3, 0xaf)
    }

    /// Muted text: placeholders, disabled states.
    pub fn muted() -> (c: Rgba8)
        ensures
            c == Rgba8::opaque(0x6b, 0x72, 0x80),
    {
        rgb(0x6b, 0x72, 0x80)
    }

    /// Ghost text: toolbar labels, subtle metadata.
    pub fn ghost() -> (c: Rgba8)
        ensures
            c == Rgba8::opaque(0x4a, 0x54, 0x68),
    {
        rgb(0x4a, 0x54, 0x68)
    }

    /// Chrome text: status bar, system information.
    pub fn chrome() -> (c: Rgba8)
        ensures
            c == Rgba8::opaque(0x55, 0x5f, 0x72),
    {
        rgb(0x55, 0x5f, 0x72)
    }
}

// ── Semantic colours ───────────────────────────────────────────────────────

/// Semantic colour tokens.
pub struct MonoSemantics;

impl MonoSemantics {
    /// Success: active downloads, completions, online status.
    pub fn success() -> (c: Rgba8)
        ensures
            c == Rgba8::opaque(0x34, 0xa8, 0x53),
    {
        rgb(0x34, 0xa8, 0x53)
    }

    /// Success background: the success colour at 12 % opacity.
    pub fn success_bg() -> (c: Rgba8)
        ensures
            Rgba8::is_unmultiplied(c, 0x34, 0xa8, 0x53, OPACITY_12),
    {
        with_alpha_byte(Self::success(), OPACITY_12)
    }

    /// Success border: the success colour at 30 % opacity.
    pub fn success_border() -> (c: Rgba8)
        ensures
            Rgba8::is_unmultiplied(c, 0x34, 0xa8, 0x53, OPACITY_30),
    {
        with_alpha_byte(Self::success(), OPACITY_30)
    }

    /// Warning: paused, queued, attention needed.
    pub fn warning() -> (c: Rgba8)
        ensures
            c == Rgba8::opaque(0xfb, 0xbf, 0x24),
    {
        rgb(0xfb, 0xbf, 0x24)
    }

    /// Warning background: the warning colour at 12 % opacity.
    pub fn warning_bg() -> (c: Rgba8)
        ensures
            Rgba8::is_unmultiplied(c, 0xfb, 0xbf, 0x24, OPACITY_12),
    {
        with_alpha_byte(Self::warning(), OPACITY_12)
    }

    /// Danger: errors, failed downloads, destructive actions.
    pub fn danger() -> (c: Rgba8)
        ensures
            c == Rgba8::opaque(0xf2, 0x8b, 0x82),
    {
        rgb(0xf2, 0x8b, 0x82)
    }

    /// Danger background: the danger colour at 8 % opacity.
    pub fn danger_bg() -> (c: Rgba8)
        ensures
            Rgba8::is_unmultiplied(c, 0xf2, 0x8b, 0x82, OPACITY_8),
    {
        with_alpha_byte(Self::danger(), OPACITY_8)
    }

    /// Danger border: the danger colour at 25 % opacity.
    pub fn danger_border() -> (c: Rgba8)
        ensures
            Rgba8::is_unmultiplied(c, 0xf2, 0x8b, 0x82, OPACITY_25),
    {
        with_alpha_byte(Self::danger(), OPACITY_25)
    }

    /// Separator: one-pixel panel dividers, white at 7 % opacity (alpha 18).
    pub fn separator() -> (c: Rgba8)
        ensures
            Rgba8::is_unmultiplied(c, 255, 255, 255, 18),
    {
        rgba_unmultiplied(255, 255, 255, 18)
    }
}

// ── Surfaces ───────────────────────────────────────────────────────────────

/// Surface ramp, eight levels from the deepest to the lightest, with a
/// subtle cool undertone.
pub struct MonolithSurfaces;

impl MonolithSurfaces {
    /// Deepest level: sunken wells.
    pub fn surface_0() -> (c: Rgba8)
        ensures
            c == Rgba8::opaque(0x08, 0x08, 0x0a),
    {
        rgb(0x08, 0x08, 0x0a)
    }

    /// Sidebar, navigation, toolbar.
    pub fn surface_1() -> (c: Rgba8)
        ensures
            c == Rgba8::opaque(0x10, 0x10, 0x12),
    {
        rgb(0x10, 0x10, 0x12)
    }

    /// Panels, log terminal background.
    pub fn surface_2() -> (c: Rgba8)
        ensures
            c == Rgba8::opaque(0x18, 0x18, 0x1a),
    {
        rgb(0x18, 0x18, 0x1a)
    }

    /// Root canvas, input background.
    pub fn surface_3() -> (c: Rgba8)
        ensures
            c == Rgba8::opaque(0x22, 0x22, 0x24),
    {
        rgb(0x22, 0x22, 0x24)
    }

    /// Cards, controls.
    pub fn surface_4() -> (c: Rgba8)
        ensures
            c == Rgba8::opaque(0x2a, 0x2a, 0x2d),
    {
        rgb(0x2a, 0x2a, 0x2d)
    }

    /// Hover states.
    pub fn surface_5() -> (c: Rgba8)
        ensures
            c == Rgba8::opaque(0x34, 0x34, 0x37),
    {
        rgb(0x34, 0x34, 0x37)
    }

    /// Active hover, borders.
    pub fn surface_6() -> (c: Rgba8)
        ensures
            c == Rgba8::opaque(0x40, 0x40, 0x44),
    {
        rgb(0x40, 0x40, 0x44)
    }

    /// Elevated elements.
    pub fn surface_7() -> (c: Rgba8)
        ensures
            c == Rgba8::opaque(0x4c, 0x4c, 0x50),
    {
        rgb(0x4c, 0x4c, 0x50)
    }

    /// Active tab fill, slightly elevated from the base.
    pub fn tab_active() -> (c: Rgba8)
        ensures
            c == Rgba8::opaque(0x26, 0x26, 0x28),
    {
        rgb(0x26, 0x26, 0x28)
    }
}

/// Layout tokens that are whole numbers of pixels: the corner radii.
pub struct MonoLayout;

impl MonoLayout {
    pub const CORNER_RADIUS_SM: u8 = 4;
    pub const CORNER_RADIUS_MD: u8 = 6;
    pub const CORNER_RADIUS_LG: u8 = 8;
}


// ── Hex colour codes ───────────────────────────────────────────────────────

/// The number of `#` bytes that open `bytes`.
pub open spec fn leading_hashes(bytes: Seq<u8>) -> nat
    decreases bytes.len(),
{
    if bytes.len() > 0 && bytes[0] == 0x23 {
        1 + leading_hashes(bytes.drop_first())
    } else {
        0
    }
}

/// The code with its opening `#` characters removed, as
/// `trim_start_matches('#')` leaves it.
pub open spec fn hex_digits(bytes: Seq<u8>) -> Seq<u8> {
    bytes.skip(leading_hashes(bytes) as int)
}

/// The value of a hexadecimal digit byte (`0-9`, `a-f`, `A-F`).
pub open spec fn hex_digit_value(b: u8) -> Option<u8> {
    if 0x30 <= b <= 0x39 {
        Some((b - 0x30) as u8)
    } else if 0x61 <= b <= 0x66 {
        Some((b - 0x61 + 10) as u8)
    } else if 0x41 <= b <= 0x46 {
        Some((b - 0x41 + 10) as u8)
    } else {
        None
    }
}

/// What `u8::from_str_radix(field, 16)` gives for a two-byte field `hi lo`:
/// an optional `+` sign followed by digits; anything else is an error.
pub open spec fn radix16_pair(hi: u8, lo: u8) -> Option<u8> {
    if hi == 0x2b {
        hex_digit_value(lo)
    } else {
        match (hex_digit_value(hi), hex_digit_value(lo)) {
            (Some(h), Some(l)) => Some((16 * h + l) as u8),
            _ => None,
        }
    }
}

/// The channel byte of a two-byte field, 0 when the field does not parse.
pub open spec fn channel_or_zero(hi: u8, lo: u8) -> u8 {
    match radix16_pair(hi, lo) {
        Some(v) => v,
        None => 0,
    }
}

/// The three two-byte fields can be cut from the code: after the `#`
/// characters it holds six bytes at least, and the cuts after bytes two,
/// four and six fall between characters (slicing the text there would
/// otherwise panic).
pub open spec fn hex_code_well_cut(bytes: Seq<u8>) -> bool {
    let t = hex_digits(bytes);
    &&& t.len() >= 6
    &&& is_char_boundary(t, 2)
    &&& is_char_boundary(t, 4)
    &&& is_char_boundary(t, 6)
}

/// The opaque colour a `#RRGGBB` code names; a field that does not parse
/// gives a zero channel.
pub open spec fn hex_color(bytes: Seq<u8>) -> Rgba8 {
    let t = hex_digits(bytes);
    Rgba8::opaque(channel_or_zero(t[0], t[1]), channel_or_zero(t[2], t[3]), channel_or_zero(t[4], t[5]))
}

/// The value of one hexadecimal digit byte.
fn hex_digit(b: u8) -> (r: Option<u8>)
    ensures
        r == hex_digit_value(b),
{
    if 0x30 <= b && b <= 0x39 {
        Some(b - 0x30)
    } else if 0x61 <= b && b <= 0x66 {
        Some(b - 0x61 + 10)
    } else if 0x41 <= b && b <= 0x46 {
        Some(b - 0x41 + 10)
    } else {
        None
    }
}

/// Parses a two-byte field in base 16, 0 when it does not parse.
fn parse_channel(hi: u8, lo: u8) -> (v: u8)
    ensures
        v == channel_or_zero(hi, lo),
{
    if hi == 0x2b {
        match hex_digit(lo) {
            Some(d) => d,
            None => 0,
        }
    } else {
        match (hex_digit(hi), hex_digit(lo)) {
            (Some(h), Some(l)) => 16 * h + l,
            _ => 0,
        }
    }
}

/// Converts a `#RRGGBB` code into an opaque colour. Leading `#` characters
/// are dropped; each two-byte field is read as a base-16 byte, and a field
/// that is not one gives 0.
pub fn hex_to_color32(hex: &str) -> (c: Rgba8)
    requires
        hex_code_well_cut(hex.spec_bytes()),
    ensures
        c == hex_color(hex.spec_bytes()),
{
    let bytes = hex.as_bytes();
    let ghost all = bytes@;
    let mut k: usize = 0;
    assert(all.skip(0) =~= all);
    while k < bytes.len() && bytes[k] == 0x23
        invariant
            bytes@ == all,
            k <= all.len(),
            leading_hashes(all) == k + leading_hashes(all.skip(k as int)),
        decreases all.len() - k,
    {
        assert(all.skip(k as int).drop_first() =~= all.skip(k + 1));
        k = k + 1;
    }
    assert(leading_hashes(all.skip(k as int)) == 0);
    let ghost t = all.skip(k as int);
    assert(t == hex_digits(all));
    let r = parse_channel(bytes[k], bytes[k + 1]);
    let g = parse_channel(bytes[k + 2], bytes[k + 3]);
    let b = parse_channel(bytes[k + 4], bytes[k + 5]);
    rgb(r, g, b)
}

/// Bytes that are all ASCII form valid UTF-8 in which every position is a
/// character boundary.
pub proof fn lemma_ascii_bytes_cut_anywhere(bytes: Seq<u8>)
    requires
        forall|j: int| 0 <= j < bytes.len() ==> bytes[j] < 0x80,
    ensures
        valid_utf8(bytes),
        forall|i: int| 0 <= i <= bytes.len() ==> is_char_boundary(bytes, i),
    decreases bytes.len(),
{
    if bytes.len() > 0 {
        let b0 = bytes[0];
        assert((b0 & 0x7f) == b0) by (bit_vector)
            requires
                b0 < 0x80,
        ;
        let rest = pop_first_scalar(bytes);
        assert(rest =~= bytes.drop_first());
        lemma_ascii_bytes_cut_anywhere(rest);
        assert(valid_utf8(bytes));
        assert forall|i: int| 0 <= i <= bytes.len() implies is_char_boundary(bytes, i) by {
            if i > 0 {
                assert(is_char_boundary(rest, i - 1));
            }
        }
    } else {
        assert forall|i: int| 0 <= i <= bytes.len() implies is_char_boundary(bytes, i) by {}
    }
}


/// A seven-character ASCII code `#` followed by six characters none of
/// which is `#` can be cut into its three fields; its bytes are its
/// characters.
proof fn lemma_hex_code_text(s: &str)
    requires
        is_ascii_chars(s@),
        s@.len() == 7,
        s@[0] == '#',
        s@[1] != '#',
    ensures
        hex_code_well_cut(s.spec_bytes()),
        hex_digits(s.spec_bytes()) == s.spec_bytes().skip(1),
        s.spec_bytes().len() == 7,
        forall|i: int| 0 <= i < 7 ==> s.spec_bytes()[i] == s@[i] as u8,
{
    broadcast use is_ascii_chars_encode_utf8;

    let bytes = s.spec_bytes();
    assert(bytes == encode_utf8(s@));
    assert(bytes.len() == 7);
    assert(bytes[0] == 0x23);
    assert(bytes[1] != 0x23) by {
        assert('\0' <= s@[1] <= '\u{7f}');
    }
    assert(bytes.drop_first()[0] == bytes[1]);
    assert(leading_hashes(bytes.drop_first()) == 0);
    assert(leading_hashes(bytes) == 1);
    let t = bytes.skip(1);
    assert forall|j: int| 0 <= j < t.len() implies t[j] < 0x80 by {
        assert(t[j] == bytes[j + 1]);
        assert('\0' <= s@[j + 1] <= '\u{7f}');
    }
    lemma_ascii_bytes_cut_anywhere(t);
}

// ── Brand presets ──────────────────────────────────────────────────────────

/// Switchable accent colour themes.
#[derive(Debug, Clone, Copy, PartialEq, Eq, Structural)]
pub enum BrandPreset {
    /// Cyan and violet.
    PlasmCore,
    /// Amber.
    OxidizedGold,
    /// Purple and crimson.
    VioletReaction,
    /// Cyan and teal.
    CoolantLiquid,
    /// Scarlet and dark red.
    CriticalMass,
}

impl BrandPreset {
    /// The preset's display name.
    pub open spec fn display_name(self) -> Seq<char> {
        match self {
            BrandPreset::PlasmCore => "Plasma Core"@,
            BrandPreset::OxidizedGold => "Oxidized Gold"@,
            BrandPreset::VioletReaction => "Violet Reaction"@,
            BrandPreset::CoolantLiquid => "Coolant Liquid"@,
            BrandPreset::CriticalMass => "Critical Mass"@,
        }
    }

    /// The preset's primary accent colour.
    pub open spec fn primary_color(self) -> Rgba8 {
        match self {
            BrandPreset::PlasmCore => Rgba8::opaque(0x22, 0xd3, 0xee),
            BrandPreset::OxidizedGold => Rgba8::opaque(0xf5, 0x9e, 0x0b),
            BrandPreset::VioletReaction => Rgba8::opaque(0xa8, 0x55, 0xf7),
            BrandPreset::CoolantLiquid => Rgba8::opaque(0x06, 0xb6, 0xd4),
            BrandPreset::CriticalMass => Rgba8::opaque(0xef, 0x44, 0x44),
        }
    }

    /// The preset's secondary accent colour.
    pub open spec fn secondary_color(self) -> Rgba8 {
        match self {
            BrandPreset::PlasmCore => Rgba8::opaque(0xa8, 0x55, 0xf7),
            BrandPreset::OxidizedGold => Rgba8::opaque(0xfb, 0xbf, 0x24),
            BrandPreset::VioletReaction => Rgba8::opaque(0xe1, 0x1d, 0x48),
            BrandPreset::CoolantLiquid => Rgba8::opaque(0x2d, 0xd4, 0xbf),
            BrandPreset::CriticalMass => Rgba8::opaque(0x99, 0x1b, 0x1b),
        }
    }

    /// The preset's display name.
    pub fn name(&self) -> (s: &'static str)
        ensures
            s@ == self.display_name(),
    {
        match self {
            BrandPreset::PlasmCore => "Plasma Core",
            BrandPreset::OxidizedGold => "Oxidized Gold",
            BrandPreset::VioletReaction => "Violet Reaction",
            BrandPreset::CoolantLiquid => "Coolant Liquid",
            BrandPreset::CriticalMass => "Critical Mass",
        }
    }

    /// The primary accent colour, read from the preset's hex code.
    pub fn primary(&self) -> (c: Rgba8)
        ensures
            c == self.primary_color(),
    {
        match self {
            BrandPreset::PlasmCore => {
                proof {
                    reveal_strlit("#22d3ee");
                    lemma_hex_code_text("#22d3ee");
                }
                hex_to_color32("#22d3ee")
            },
            BrandPreset::OxidizedGold => {
                proof {
                    reveal_strlit("#f59e0b");
                    lemma_hex_code_text("#f59e0b");
                }
                hex_to_color32("#f59e0b")
            },
            BrandPreset::VioletReaction => {
                proof {
                    reveal_strlit("#a855f7");
                    lemma_hex_code_text("#a855f7");
                }
                hex_to_color32("#a855f7")
            },
            BrandPreset::CoolantLiquid => {
                proof {
                    reveal_strlit("#06b6d4");
                    lemma_hex_code_text("#06b6d4");
                }
                hex_to_color32("#06b6d4")
            },
            BrandPreset::CriticalMass => {
                proof {
                    reveal_strlit("#ef4444");
                    lemma_hex_code_text("#ef4444");
                }
                hex_to_color32("#ef4444")
            },
        }
    }

    /// The secondary accent colour, read from the preset's hex code.
    pub fn secondary(&self) -> (c: Rgba8)
        ensures
            c == self.secondary_color(),
    {
        match self {
            BrandPreset::PlasmCore => {
                proof {
                    reveal_strlit("#a855f7");
                    lemma_hex_code_text("#a855f7");
                }
                hex_to_color32("#a855f7")
            },
            BrandPreset::OxidizedGold => {
                proof {
                    reveal_strlit("#fbbf24");
                    lemma_hex_code_text("#fbbf24");
                }
                hex_to_color32("#fbbf24")
            },
            BrandPreset::VioletReaction => {
                proof {
                    reveal_strlit("#e11d48");
                    lemma_hex_code_text("#e11d48");
                }
                hex_to_color32("#e11d48")
            },
            BrandPreset::CoolantLiquid => {
                proof {
                    reveal_strlit("#2dd4bf");
                    lemma_hex_code_text("#2dd4bf");
                }
                hex_to_color32("#2dd4bf")
            },
            BrandPreset::CriticalMass => {
                proof {
                    reveal_strlit("#991b1b");
                    lemma_hex_code_text("#991b1b");
                }
                hex_to_color32("#991b1b")
            },
        }
    }

    /// The primary colour at 12 % opacity, for subtle backgrounds.
    pub fn primary_bg(&self) -> (c: Rgba8)
        ensures
            Rgba8::is_unmultiplied(c, self.primary_color().r, self.primary_color().g, self.primary_color().b, OPACITY_12),
    {
        with_alpha_byte(self.primary(), OPACITY_12)
    }

    /// The primary colour at 20 % opacity, for active states.
    pub fn primary_active(&self) -> (c: Rgba8)
        ensures
            Rgba8::is_unmultiplied(c, self.primary_color().r, self.primary_color().g, self.primary_color().b, OPACITY_20),
    {
        with_alpha_byte(self.primary(), OPACITY_20)
    }

    /// The primary colour at 30 % opacity, for borders.
    pub fn primary_border(&self) -> (c: Rgba8)
        ensures
            Rgba8::is_unmultiplied(c, self.primary_color().r, self.primary_color().g, self.primary_color().b, OPACITY_30),
    {
        with_alpha_byte(self.primary(), OPACITY_30)
    }
}


// ── Laws ───────────────────────────────────────────────────────────────────

/// The lowercase hexadecimal digit byte for `d` (meaningful for `d < 16`).
pub open spec fn hex_digit_byte(d: u8) -> u8 {
    if d < 10 {
        (0x30 + d) as u8
    } else {
        (0x61 + d - 10) as u8
    }
}

/// The bytes of the code `#rrggbb` that names an opaque colour.
pub open spec fn hex_code_of(r: u8, g: u8, b: u8) -> Seq<u8> {
    seq![
        0x23u8,
        hex_digit_byte(r / 16),
        hex_digit_byte(r % 16),
        hex_digit_byte(g / 16),
        hex_digit_byte(g % 16),
        hex_digit_byte(b / 16),
        hex_digit_byte(b % 16),
    ]
}

proof fn lemma_hex_pair_round_trip(v: u8)
    ensures
        channel_or_zero(hex_digit_byte(v / 16), hex_digit_byte(v % 16)) == v,
        hex_digit_byte(v / 16) != 0x23,
        hex_digit_byte(v / 16) < 0x80,
        hex_digit_byte(v % 16) < 0x80,
{
    assert(v / 16 < 16);
    assert(v % 16 < 16);
    assert(16 * (v / 16) + v % 16 == v);
}

/// Reading back the `#rrggbb` code of a colour gives the colour: the parser
/// accepts every code of that shape and returns the channels it spells.
pub proof fn law_hex_code_round_trip(r: u8, g: u8, b: u8)
    ensures
        hex_code_well_cut(hex_code_of(r, g, b)),
        hex_color(hex_code_of(r, g, b)) == Rgba8::opaque(r, g, b),
{
    let bytes = hex_code_of(r, g, b);
    lemma_hex_pair_round_trip(r);
    lemma_hex_pair_round_trip(g);
    lemma_hex_pair_round_trip(b);
    assert(bytes.drop_first()[0] == bytes[1]);
    assert(leading_hashes(bytes.drop_first()) == 0);
    assert(leading_hashes(bytes) == 1);
    let t = bytes.skip(1);
    assert(hex_digits(bytes) == t);
    assert forall|j: int| 0 <= j < t.len() implies t[j] < 0x80 by {
        assert(t[j] == bytes[j + 1]);
    }
    lemma_ascii_bytes_cut_anywhere(t);
}

/// The uppercase hexadecimal digit byte for `d` (meaningful for `d < 16`).
pub open spec fn upper_hex_digit_byte(d: u8) -> u8 {
    if d < 10 {
        (0x30 + d) as u8
    } else {
        (0x41 + d - 10) as u8
    }
}

/// The bytes of the code `#RRGGBB`, written with uppercase digits.
pub open spec fn upper_hex_code_of(r: u8, g: u8, b: u8) -> Seq<u8> {
    seq![
        0x23u8,
        upper_hex_digit_byte(r / 16),
        upper_hex_digit_byte(r % 16),
        upper_hex_digit_byte(g / 16),
        upper_hex_digit_byte(g % 16),
        upper_hex_digit_byte(b / 16),
        upper_hex_digit_byte(b % 16),
    ]
}

/// The letter digits `A`-`F` and `a`-`f` have the same values: a digit's
/// case never changes what it counts.
pub proof fn law_hex_digit_case_blind(b: u8)
    requires
        0x41 <= b <= 0x46,
    ensures
        hex_digit_value(b) == hex_digit_value((b + 0x20) as u8),
        hex_digit_value(b) == Some((b - 0x37) as u8),
{
}

/// Reading the code of a colour written with uppercase digits gives the
/// colour too: `#AABBCC` and `#aabbcc` name the same opaque colour.
pub proof fn law_upper_hex_code_round_trip(r: u8, g: u8, b: u8)
    ensures
        hex_code_well_cut(upper_hex_code_of(r, g, b)),
        hex_color(upper_hex_code_of(r, g, b)) == Rgba8::opaque(r, g, b),
        hex_color(upper_hex_code_of(r, g, b)) == hex_color(hex_code_of(r, g, b)),
{
    law_hex_code_round_trip(r, g, b);
    let bytes = upper_hex_code_of(r, g, b);
    assert(r / 16 < 16 && r % 16 < 16 && 16 * (r / 16) + r % 16 == r);
    assert(g / 16 < 16 && g % 16 < 16 && 16 * (g / 16) + g % 16 == g);
    assert(b / 16 < 16 && b % 16 < 16 && 16 * (b / 16) + b % 16 == b);
    assert(bytes.drop_first()[0] == bytes[1]);
    assert(leading_hashes(bytes.drop_first()) == 0);
    assert(leading_hashes(bytes) == 1);
    let t = bytes.skip(1);
    assert(hex_digits(bytes) == t);
    assert forall|j: int| 0 <= j < t.len() implies t[j] < 0x80 by {
        assert(t[j] == bytes[j + 1]);
    }
    lemma_ascii_bytes_cut_anywhere(t);
}

// ── The dark theme ─────────────────────────────────────────────────────────

/// The colours the MonolithUI dark theme puts into egui's visuals, slot by
/// slot (the stroke widths and corner radii are set with them).
#[derive(Debug, Clone, Copy, PartialEq, Eq, Structural)]
pub struct MonolithVisuals {
    pub window_fill: Rgba8,
    pub panel_fill: Rgba8,
    pub faint_bg: Rgba8,
    pub extreme_bg: Rgba8,
    pub inactive_bg: Rgba8,
    pub inactive_fg: Rgba8,
    pub inactive_weak_bg: Rgba8,
    pub hovered_bg: Rgba8,
    pub hovered_fg: Rgba8,
    pub hovered_weak_bg: Rgba8,
    pub active_bg: Rgba8,
    pub active_fg: Rgba8,
    pub active_weak_bg: Rgba8,
    pub noninteractive_bg: Rgba8,
    /// Labels and separators: the separator colour.
    pub noninteractive_fg: Rgba8,
    pub selection_bg: Rgba8,
    pub selection_fg: Rgba8,
    pub hyperlink: Rgba8,
}

/// The dark theme's colours under a brand preset: surfaces for fills,
/// secondary text for idle strokes, the brand's primary colour for hovered,
/// pressed, selected and link states, its tints for pressed and selected
/// backgrounds, and the separator for labels.
pub fn monolith_dark_visuals(brand: BrandPreset) -> (v: MonolithVisuals)
    ensures
        v.window_fill == Rgba8::opaque(0x10, 0x10, 0x12),
        v.panel_fill == Rgba8::opaque(0x22, 0x22, 0x24),
        v.faint_bg == Rgba8::opaque(0x18, 0x18, 0x1a),
        v.extreme_bg == Rgba8::opaque(0x08, 0x08, 0x0a),
        v.inactive_bg == Rgba8::opaque(0x2a, 0x2a, 0x2d),
        v.inactive_fg == Rgba8::opaque(0xd1, 0xd5, 0xdb),
        v.inactive_weak_bg == Rgba8::opaque(0x22, 0x22, 0x24),
        v.hovered_bg == Rgba8::opaque(0x34, 0x34, 0x37),
        v.hovered_fg == brand.primary_color(),
        v.hovered_weak_bg == Rgba8::opaque(0x34, 0x34, 0x37),
        Rgba8::is_unmultiplied(v.active_bg, brand.primary_color().r, brand.primary_color().g, brand.primary_color().b, OPACITY_20),
        v.active_fg == brand.primary_color(),
        v.active_weak_bg == v.active_bg,
        v.noninteractive_bg == Rgba8::opaque(0x22, 0x22, 0x24),
        Rgba8::is_unmultiplied(v.noninteractive_fg, 255, 255, 255, 18),
        Rgba8::is_unmultiplied(v.selection_bg, brand.primary_color().r, brand.primary_color().g, brand.primary_color().b, OPACITY_12),
        v.selection_fg == brand.primary_color(),
        v.hyperlink == brand.primary_color(),
{
    let primary = brand.primary();
    let active = brand.primary_active();
    MonolithVisuals {
        window_fill: MonolithSurfaces::surface_1(),
        panel_fill: MonolithSurfaces::surface_3(),
        faint_bg: MonolithSurfaces::surface_2(),
        extreme_bg: MonolithSurfaces::surface_0(),
        inactive_bg: MonolithSurfaces::surface_4(),
        inactive_fg: MonoText::secondary(),
        inactive_weak_bg: MonolithSurfaces::surface_3(),
        hovered_bg: MonolithSurfaces::surface_5(),
        hovered_fg: primary,
        hovered_weak_bg: MonolithSurfaces::surface_5(),
        active_bg: active,
        active_fg: primary,
        active_weak_bg: active,
        noninteractive_bg: MonolithSurfaces::surface_3(),
        noninteractive_fg: MonoSemantics::separator(),
        selection_bg: brand.primary_bg(),
        selection_fg: primary,
        hyperlink: primary,
    }
}

} // verus!
