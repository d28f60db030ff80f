//! What the interface's widgets show for a given state: status and log
//! colouring, platform badges, queue row actions, time and size texts, and
//! the little animated indicators.

use vstd::prelude::*;
use vstd::string::*;
use vstd::utf8::*;
use crate::app::Tab;
use crate::bridge::GuiCommand;
use crate::text::{digits_value, join3, law_zero_padded2_reads_back, same_text, starts_with_char, zero_padded2, zero_padded2_text};
use crate::theme::{rgb, BrandPreset, MonoSemantics, Rgba8};

verus! {

// ── Case mapping ───────────────────────────────────────────────────────────

/// The text `str::to_lowercase` returns for `s`: its lowercase form under
/// Unicode's case mappings, as std computes it.
pub uninterp spec fn lowercase(s: Seq<char>) -> Seq<char>;

/// The text `str::to_uppercase` returns for `s`: its uppercase form under
/// Unicode's case mappings, as std computes it.
pub uninterp spec fn uppercase(s: Seq<char>) -> Seq<char>;

/// Calls `str::to_lowercase`, whose result depends on the text alone.
#[verifier::external_body]
fn to_lowercase(s: &str) -> (r: String)
    ensures
        r@ == lowercase(s@),
{
    s.to_lowercase()
}

/// Calls `str::to_uppercase`, whose result depends on the text alone.
#[verifier::external_body]
fn to_uppercase(s: &str) -> (r: String)
    ensures
        r@ == uppercase(s@),
{
    s.to_uppercase()
}

// ── Status dots and log lines ──────────────────────────────────────────────

/// The semantic tone of a status or log line.
#[derive(Debug, Clone, Copy, PartialEq, Eq, Structural)]
pub enum Tone {
    /// Green: running, finished, online.
    Success,
    /// Amber: waiting or paused.
    Warning,
    /// Red: failures and anything unknown.
    Danger,
    /// The brand's primary colour: system messages.
    Brand,
    /// Neutral body text.
    Plain,
}

/// The tone of a status dot: `Active`, `Complete` and `Online` are green,
/// `Queued`, `Warning` and `Paused` amber, any other status red.
pub open spec fn status_tone_of(status: Seq<char>) -> Tone {
    if status == "Active"@ || status == "Complete"@ || status == "Online"@ {
        Tone::Success
    } else if status == "Queued"@ || status == "Warning"@ || status == "Paused"@ {
        Tone::Warning
    } else {
        Tone::Danger
    }
}

/// The tone of a status dot.
pub fn status_tone(status: &str) -> (t: Tone)
    ensures
        t == status_tone_of(status@),
{
    if same_text(status, "Active") || same_text(status, "Complete") || same_text(status, "Online") {
        Tone::Success
    } else if same_text(status, "Queued") || same_text(status, "Warning") || same_text(status, "Paused") {
        Tone::Warning
    } else {
        Tone::Danger
    }
}

/// Whether a status dot is drawn with a soft glow ring: only green ones.
pub fn status_glows(status: &str) -> (g: bool)
    ensures
        g == (status_tone_of(status@) == Tone::Success),
{
    status_tone(status) == Tone::Success
}

/// The tone of a log line: lines opening with a check mark are green, with
/// a cross red, with a gear in the brand colour, the rest neutral.
pub open spec fn log_tone_of(line: Seq<char>) -> Tone {
    if line.len() > 0 && line[0] == '\u{2713}' {
        Tone::Success
    } else if line.len() > 0 && line[0] == '\u{2717}' {
        Tone::Danger
    } else if line.len() > 0 && line[0] == '\u{2699}' {
        Tone::Brand
    } else {
        Tone::Plain
    }
}

/// The tone of a log line.
pub fn log_tone(line: &str) -> (t: Tone)
    ensures
        t == log_tone_of(line@),
{
    if starts_with_char(line, '\u{2713}') {
        Tone::Success
    } else if starts_with_char(line, '\u{2717}') {
        Tone::Danger
    } else if starts_with_char(line, '\u{2699}') {
        Tone::Brand
    } else {
        Tone::Plain
    }
}

/// The colour a tone is painted in under a brand preset.
pub open spec fn tone_rgba(tone: Tone, brand: BrandPreset) -> Rgba8 {
    match tone {
        Tone::Success => Rgba8::opaque(0x34, 0xa8, 0x53),
        Tone::Warning => Rgba8::opaque(0xfb, 0xbf, 0x24),
        Tone::Danger => Rgba8::opaque(0xf2, 0x8b, 0x82),
        Tone::Brand => brand.primary_color(),
        Tone::Plain => Rgba8::opaque(0xd1, 0xd5, 0xdb),
    }
}

impl Tone {
    /// The colour the tone is painted in: the semantic colours, the brand's
    /// primary colour, or the secondary text colour.
    pub fn color(&self, brand: BrandPreset) -> (c: Rgba8)
        ensures
            c == tone_rgba(*self, brand),
    {
        match self {
            Tone::Success => MonoSemantics::success(),
            Tone::Warning => MonoSemantics::warning(),
            Tone::Danger => MonoSemantics::danger(),
            Tone::Brand => brand.primary(),
            Tone::Plain => crate::theme::MonoText::secondary(),
        }
    }
}

// ── Platform badges ────────────────────────────────────────────────────────

/// The official colour of a platform, looked up by its lowercase name;
/// unknown platforms are violet.
pub open spec fn platform_rgba(key: Seq<char>) -> Rgba8 {
    if key == "youtube"@ {
        Rgba8::opaque(255, 85, 85)
    } else if key == "instagram"@ {
        Rgba8::opaque(255, 120, 200)
    } else if key == "tiktok"@ {
        Rgba8::opaque(85, 255, 255)
    } else if key == "twitch"@ {
        Rgba8::opaque(180, 100, 255)
    } else if key == "torrent"@ {
        Rgba8::opaque(85, 255, 120)
    } else if key == "bluesky"@ {
        Rgba8::opaque(96, 165, 250)
    } else if key == "reddit"@ {
        Rgba8::opaque(255, 69, 0)
    } else if key == "pinterest"@ {
        Rgba8::opaque(230, 0, 35)
    } else if key == "vimeo"@ {
        Rgba8::opaque(26, 180, 255)
    } else if key == "bilibili"@ {
        Rgba8::opaque(0, 161, 214)
    } else if key == "twitter"@ || key == "x"@ {
        Rgba8::opaque(29, 161, 242)
    } else {
        Rgba8::opaque(168, 85, 247)
    }
}

/// The icon-font glyph of a platform, looked up by its lowercase name;
/// unknown platforms get a generic file glyph.
pub open spec fn platform_glyph_of(key: Seq<char>) -> Seq<char> {
    if key == "youtube"@ {
        "\u{f05c3}"@
    } else if key == "instagram"@ {
        "\u{f015f}"@
    } else if key == "tiktok"@ {
        "\u{f04f3}"@
    } else if key == "twitch"@ {
        "\u{f04d3}"@
    } else if key == "torrent"@ {
        "\u{f0117}"@
    } else if key == "bluesky"@ {
        "\u{f059f}"@
    } else if key == "reddit"@ {
        "\u{f0459}"@
    } else if key == "pinterest"@ {
        "\u{f03d6}"@
    } else if key == "vimeo"@ {
        "\u{f0a08}"@
    } else if key == "bilibili"@ {
        "\u{f015c}"@
    } else if key == "twitter"@ || key == "x"@ {
        "\u{f01e9}"@
    } else {
        "\u{f021a}"@
    }
}

/// The badge colour of a platform (its name compared in lowercase).
pub fn platform_color(platform: &str) -> (c: Rgba8)
    ensures
        c == platform_rgba(lowercase(platform@)),
{
    let key = to_lowercase(platform);
    let k = key.as_str();
    if same_text(k, "youtube") {
        rgb(255, 85, 85)
    } else if same_text(k, "instagram") {
        rgb(255, 120, 200)
    } else if same_text(k, "tiktok") {
        rgb(85, 255, 255)
    } else if same_text(k, "twitch") {
        rgb(180, 100, 255)
    } else if same_text(k, "torrent") {
        rgb(85, 255, 120)
    } else if same_text(k, "bluesky") {
        rgb(96, 165, 250)
    } else if same_text(k, "reddit") {
        rgb(255, 69, 0)
    } else if same_text(k, "pinterest") {
        rgb(230, 0, 35)
    } else if same_text(k, "vimeo") {
        rgb(26, 180, 255)
    } else if same_text(k, "bilibili") {
        rgb(0, 161, 214)
    } else if same_text(k, "twitter") || same_text(k, "x") {
        rgb(29, 161, 242)
    } else {
        rgb(168, 85, 247)
    }
}

/// The badge glyph of a platform (its name compared in lowercase).
pub fn platform_glyph(platform: &str) -> (g: &'static str)
    ensures
        g@ == platform_glyph_of(lowercase(platform@)),
{
    let key = to_lowercase(platform);
    let k = key.as_str();
    if same_text(k, "youtube") {
        "\u{f05c3}"
    } else if same_text(k, "instagram") {
        "\u{f015f}"
    } else if same_text(k, "tiktok") {
        "\u{f04f3}"
    } else if same_text(k, "twitch") {
        "\u{f04d3}"
    } else if same_text(k, "torrent") {
        "\u{f0117}"
    } else if same_text(k, "bluesky") {
        "\u{f059f}"
    } else if same_text(k, "reddit") {
        "\u{f0459}"
    } else if same_text(k, "pinterest") {
        "\u{f03d6}"
    } else if same_text(k, "vimeo") {
        "\u{f0a08}"
    } else if same_text(k, "bilibili") {
        "\u{f015c}"
    } else if same_text(k, "twitter") || same_text(k, "x") {
        "\u{f01e9}"
    } else {
        "\u{f021a}"
    }
}

/// The badge text of a platform: its glyph, two spaces, its name in
/// uppercase.
pub fn platform_label(platform: &str) -> (s: String)
    ensures
        s@ == platform_glyph_of(lowercase(platform@)) + "  "@ + uppercase(platform@),
{
    let upper = to_uppercase(platform);
    join3(platform_glyph(platform), "  ", upper.as_str())
}

/// The platform caption laid over a preview thumbnail: the name in
/// uppercase between two pairs of spaces.
pub fn platform_caption(platform: &str) -> (s: String)
    ensures
        s@ == "  "@ + uppercase(platform@) + "  "@,
{
    let upper = to_uppercase(platform);
    join3("  ", upper.as_str(), "  ")
}

// ── Queue rows ─────────────────────────────────────────────────────────────

/// The pause or resume command a queue row offers: running downloads can
/// be paused, paused ones resumed, the others have neither (every row can be
/// removed).
pub open spec fn row_toggle_of(status: Seq<char>, id: u64) -> Option<GuiCommand> {
    if status == "Active"@ {
        Some(GuiCommand::PauseDownload { id })
    } else if status == "Paused"@ {
        Some(GuiCommand::ResumeDownload { id })
    } else {
        None
    }
}

/// The pause or resume command of a queue row, if it has one.
pub fn row_toggle_command(status: &str, id: u64) -> (cmd: Option<GuiCommand>)
    ensures
        cmd == row_toggle_of(status@, id),
{
    if same_text(status, "Active") {
        Some(GuiCommand::PauseDownload { id })
    } else if same_text(status, "Paused") {
        Some(GuiCommand::ResumeDownload { id })
    } else {
        None
    }
}

/// Whether a queue row shows its transfer speed: only running downloads
/// that are moving data.
pub fn row_shows_speed(status: &str, speed_positive: bool) -> (show: bool)
    ensures
        show == (status@ == "Active"@ && speed_positive),
{
    same_text(status, "Active") && speed_positive
}

// ── Texts ──────────────────────────────────────────────────────────────────

/// A media duration as minutes and seconds, each padded to two digits.
pub fn format_duration(seconds: u64) -> (s: String)
    ensures
        s@ == zero_padded2((seconds / 60) as nat) + ":"@ + zero_padded2((seconds % 60) as nat),
{
    let m = zero_padded2_text(seconds / 60);
    let sec = zero_padded2_text(seconds % 60);
    join3(m.as_str(), ":", sec.as_str())
}

/// The longest title a preview card shows in full, in bytes.
pub const TITLE_LIMIT: usize = 50;

/// The bytes a shortened title keeps before its ellipsis.
pub const TITLE_KEEP: usize = 47;

/// Shortens a title longer than 50 bytes to its first 47 bytes and an
/// ellipsis. The cut must fall between two characters.
pub fn shorten_title(title: &str) -> (s: String)
    requires
        title.spec_bytes().len() > TITLE_LIMIT ==> is_char_boundary(title.spec_bytes(), TITLE_KEEP as int),
    ensures
        s@ == if title.spec_bytes().len() > TITLE_LIMIT {
            decode_utf8(title.spec_bytes().subrange(0, TITLE_KEEP as int)) + "..."@
        } else {
            title@
        },
{
    if title.as_bytes().len() > TITLE_LIMIT {
        let (head, _tail) = title.split_at(TITLE_KEEP);
        proof {
            broadcast use encode_utf8_decode_utf8;

            assert(head.spec_bytes() == encode_utf8(head@));
            assert(title.spec_bytes().subrange(0, TITLE_KEEP as int) == head.spec_bytes());
            assert(decode_utf8(encode_utf8(head@)) == head@);
            assert(decode_utf8(title.spec_bytes().subrange(0, TITLE_KEEP as int)) == head@);
        }
        let mut s = String::from_str(head);
        s.append("...");
        s
    } else {
        String::from_str(title)
    }
}

/// `count` copies of the character `c`.
pub open spec fn repeated(c: char, count: nat) -> Seq<char> {
    Seq::new(count, |i: int| c)
}

/// A text meter `width` cells wide with `filled` full blocks and light
/// shade after them.
pub fn meter_bar(filled: usize, width: usize) -> (s: String)
    ensures
        s@ == repeated('\u{2588}', filled as nat) + repeated(
            '\u{2591}',
            (if width > filled {
                width - filled
            } else {
                0
            }) as nat,
        ),
{
    proof {
        reveal_strlit("\u{2588}");
        reveal_strlit("\u{2591}");
    }
    let mut s = String::new();
    let mut i: usize = 0;
    while i < filled
        invariant
            i <= filled,
            s@ == repeated('\u{2588}', i as nat),
        decreases filled - i,
    {
        proof {
            reveal_strlit("\u{2588}");
        }
        s.append("\u{2588}");
        assert(s@ =~= repeated('\u{2588}', (i + 1) as nat));
        i = i + 1;
    }
    let rest: usize = if width > filled {
        width - filled
    } else {
        0
    };
    let ghost full = s@;
    let mut j: usize = 0;
    while j < rest
        invariant
            j <= rest,
            full == repeated('\u{2588}', filled as nat),
            s@ == full + repeated('\u{2591}', j as nat),
        decreases rest - j,
    {
        proof {
            reveal_strlit("\u{2591}");
        }
        s.append("\u{2591}");
        assert(s@ =~= full + repeated('\u{2591}', (j + 1) as nat));
        j = j + 1;
    }
    s
}

// ── Indicators ─────────────────────────────────────────────────────────────

/// The frame of the sidebar's radar spinner for the milliseconds within
/// the current second: a new frame every quarter second.
pub fn radar_frame(millis: u32) -> (frame: &'static str)
    ensures
        frame@ == (if (millis / 250) % 4 == 0 {
            "|"@
        } else if (millis / 250) % 4 == 1 {
            "/"@
        } else if (millis / 250) % 4 == 2 {
            "-"@
        } else {
            "\\"@
        }),
{
    let idx = (millis / 250) % 4;
    if idx == 0 {
        "|"
    } else if idx == 1 {
        "/"
    } else if idx == 2 {
        "-"
    } else {
        "\\"
    }
}

/// The status shown by the toolbar's pulsing connection dot for the
/// milliseconds within the current second: `Active` in the first half,
/// `Online` in the second.
pub fn pulse_status(millis: u32) -> (status: &'static str)
    ensures
        status@ == (if (millis / 500) % 2 == 0 {
            "Active"@
        } else {
            "Online"@
        }),
{
    if (millis / 500) % 2 == 0 {
        "Active"
    } else {
        "Online"
    }
}

// ── Navigation ─────────────────────────────────────────────────────────────

impl Tab {
    /// The tab's label in the navigation.
    pub fn label(&self) -> (s: &'static str)
        ensures
            s@ == (match *self {
                Tab::Home => "Home"@,
                Tab::Queue => "Queue"@,
                Tab::Settings => "Settings"@,
                Tab::Logs => "Logs"@,
                Tab::About => "About"@,
            }),
    {
        match self {
            Tab::Home => "Home",
            Tab::Queue => "Queue",
            Tab::Settings => "Settings",
            Tab::Logs => "Logs",
            Tab::About => "About",
        }
    }

    /// The tabs in navigation order.
    pub fn all() -> (tabs: Vec<Tab>)
        ensures
            tabs@ == seq![Tab::Home, Tab::Queue, Tab::Settings, Tab::Logs, Tab::About],
    {
        let mut tabs = Vec::new();
        tabs.push(Tab::Home);
        tabs.push(Tab::Queue);
        tabs.push(Tab::Settings);
        tabs.push(Tab::Logs);
        tabs.push(Tab::About);
        tabs
    }
}

impl BrandPreset {
    /// The presets in the order the settings tab offers them.
    pub fn all() -> (presets: Vec<BrandPreset>)
        ensures
            presets@ == seq![
                BrandPreset::PlasmCore,
                BrandPreset::OxidizedGold,
                BrandPreset::VioletReaction,
                BrandPreset::CoolantLiquid,
                BrandPreset::CriticalMass,
            ],
    {
        let mut presets = Vec::new();
        presets.push(BrandPreset::PlasmCore);
        presets.push(BrandPreset::OxidizedGold);
        presets.push(BrandPreset::VioletReaction);
        presets.push(BrandPreset::CoolantLiquid);
        presets.push(BrandPreset::CriticalMass);
        presets
    }
}


// ── Laws ───────────────────────────────────────────────────────────────────

/// The log paints each report line by its kind: finished downloads green,
/// failed downloads red, whether the line comes from the engine's report or
/// from the interface's own note.
pub proof fn law_report_lines_toned(id: u64, title: Seq<char>, size: Seq<char>, path: Seq<char>, error: Seq<char>)
    ensures
        log_tone_of(crate::app::completion_note(title)) == Tone::Success,
        log_tone_of(crate::app::failure_note(id, error)) == Tone::Danger,
        log_tone_of(crate::runtime::completion_report(id, size, path)) == Tone::Success,
        log_tone_of(crate::runtime::failure_report(id, error)) == Tone::Danger,
{
    reveal_strlit("\u{2713} [");
    reveal_strlit("\u{2717} [ID #");
    reveal_strlit("\u{2713} [DL#");
    reveal_strlit("\u{2717} [DL#");
}

/// The status dot of a queue entry follows the engine's state: running and
/// finished downloads are green, queued and paused ones amber, seeding and
/// failed ones red.
pub proof fn law_engine_status_tones(status: crate::runtime::QueueStatus)
    ensures
        status_tone_of(crate::runtime::status_text(status)) == match status {
            crate::runtime::QueueStatus::Active => Tone::Success,
            crate::runtime::QueueStatus::Complete => Tone::Success,
            crate::runtime::QueueStatus::Queued => Tone::Warning,
            crate::runtime::QueueStatus::Paused => Tone::Warning,
            crate::runtime::QueueStatus::Seeding => Tone::Danger,
            crate::runtime::QueueStatus::Error { .. } => Tone::Danger,
        },
{
    reveal_strlit("Active");
    reveal_strlit("Complete");
    reveal_strlit("Online");
    reveal_strlit("Queued");
    reveal_strlit("Warning");
    reveal_strlit("Paused");
    reveal_strlit("Seeding");
    reveal_strlit("Error: ");
    let text = crate::runtime::status_text(status);
    if status is Seeding {
        assert(text[0] == 'S');
        assert("Active"@[0] != text[0]);
        assert("Complete"@[0] != text[0]);
        assert("Online"@[0] != text[0]);
        assert("Queued"@[0] != text[0]);
        assert("Warning"@[0] != text[0]);
        assert("Paused"@[0] != text[0]);
    }
    if status is Queued {
        assert(text[0] == 'Q');
        assert("Active"@[0] != text[0]);
        assert("Complete"@[0] != text[0]);
        assert("Online"@[0] != text[0]);
    }
    if status is Paused {
        assert(text[0] == 'P');
        assert("Active"@[0] != text[0]);
        assert("Complete"@[0] != text[0]);
        assert("Online"@[0] != text[0]);
    }
    if let crate::runtime::QueueStatus::Error { message } = status {
        assert(text[0] == 'E');
        assert(text != "Active"@ && text != "Complete"@ && text != "Online"@) by {
            assert("Active"@[0] != text[0]);
            assert("Complete"@[0] != text[0]);
            assert("Online"@[0] != text[0]);
        }
        assert(text != "Queued"@ && text != "Warning"@ && text != "Paused"@) by {
            assert("Queued"@[0] != text[0]);
            assert("Warning"@[0] != text[0]);
            assert("Paused"@[0] != text[0]);
        }
    }
}

/// A queue row offers pausing exactly for running downloads and resuming
/// exactly for paused ones, as the engine reports their states.
pub proof fn law_row_toggle_follows_engine_status(status: crate::runtime::QueueStatus, id: u64)
    ensures
        row_toggle_of(crate::runtime::status_text(status), id) == match status {
            crate::runtime::QueueStatus::Active => Some(GuiCommand::PauseDownload { id }),
            crate::runtime::QueueStatus::Paused => Some(GuiCommand::ResumeDownload { id }),
            _ => None,
        },
{
    reveal_strlit("Active");
    reveal_strlit("Complete");
    reveal_strlit("Queued");
    reveal_strlit("Paused");
    reveal_strlit("Seeding");
    reveal_strlit("Error: ");
    let text = crate::runtime::status_text(status);
    assert("Active"@[0] == 'A' && "Paused"@[0] == 'P');
    if !(status is Active) && !(status is Paused) {
        assert(text[0] != 'A' && text[0] != 'P');
    }
    if status is Active {
        assert(text != "Paused"@);
    }
}

/// A queue row offers pausing exactly when its status text is `Active`,
/// resuming exactly when it is `Paused`, and neither for any other text
/// (finished, failed, queued or unknown downloads), always for the row's own
/// download.
pub proof fn law_row_toggle_by_status(status: Seq<char>, id: u64)
    ensures
        (row_toggle_of(status, id) == Some(GuiCommand::PauseDownload { id })) <==> status == "Active"@,
        (row_toggle_of(status, id) == Some(GuiCommand::ResumeDownload { id })) <==> status == "Paused"@,
        row_toggle_of(status, id).is_none() <==> (status != "Active"@ && status != "Paused"@),
{
    reveal_strlit("Active");
    reveal_strlit("Paused");
    assert("Active"@[0] != "Paused"@[0]);
}

/// The platforms that have a badge of their own, by lowercase name.
pub open spec fn badge_platforms() -> Seq<Seq<char>> {
    seq![
        "youtube"@, "instagram"@, "tiktok"@, "twitch"@, "torrent"@, "bluesky"@,
        "reddit"@, "pinterest"@, "vimeo"@, "bilibili"@, "twitter"@, "x"@,
    ]
}

/// Each platform of the badge table (its name compared in lowercase) gets
/// its own colour and glyph: YouTube red, Instagram pink, TikTok cyan, Twitch
/// purple, torrents green, Bluesky blue, Reddit orange, Pinterest red, Vimeo
/// blue, Bilibili blue, Twitter and X sky blue. Only a name outside the
/// table falls back to violet and the generic file glyph.
pub proof fn law_platform_badges(key: Seq<char>)
    ensures
        platform_rgba("youtube"@) == Rgba8::opaque(255, 85, 85),
        platform_rgba("instagram"@) == Rgba8::opaque(255, 120, 200),
        platform_rgba("tiktok"@) == Rgba8::opaque(85, 255, 255),
        platform_rgba("twitch"@) == Rgba8::opaque(180, 100, 255),
        platform_rgba("torrent"@) == Rgba8::opaque(85, 255, 120),
        platform_rgba("bluesky"@) == Rgba8::opaque(96, 165, 250),
        platform_rgba("reddit"@) == Rgba8::opaque(255, 69, 0),
        platform_rgba("pinterest"@) == Rgba8::opaque(230, 0, 35),
        platform_rgba("vimeo"@) == Rgba8::opaque(26, 180, 255),
        platform_rgba("bilibili"@) == Rgba8::opaque(0, 161, 214),
        platform_rgba("twitter"@) == Rgba8::opaque(29, 161, 242),
        platform_rgba("x"@) == Rgba8::opaque(29, 161, 242),
        platform_glyph_of("youtube"@) == "\u{f05c3}"@,
        platform_glyph_of("instagram"@) == "\u{f015f}"@,
        platform_glyph_of("tiktok"@) == "\u{f04f3}"@,
        platform_glyph_of("twitch"@) == "\u{f04d3}"@,
        platform_glyph_of("torrent"@) == "\u{f0117}"@,
        platform_glyph_of("bluesky"@) == "\u{f059f}"@,
        platform_glyph_of("reddit"@) == "\u{f0459}"@,
        platform_glyph_of("pinterest"@) == "\u{f03d6}"@,
        platform_glyph_of("vimeo"@) == "\u{f0a08}"@,
        platform_glyph_of("bilibili"@) == "\u{f015c}"@,
        platform_glyph_of("twitter"@) == "\u{f01e9}"@,
        platform_glyph_of("x"@) == "\u{f01e9}"@,
        !badge_platforms().contains(key) ==> platform_rgba(key) == Rgba8::opaque(168, 85, 247),
        !badge_platforms().contains(key) ==> platform_glyph_of(key) == "\u{f021a}"@,
{
    reveal_strlit("youtube");
    reveal_strlit("instagram");
    reveal_strlit("tiktok");
    reveal_strlit("twitch");
    reveal_strlit("torrent");
    reveal_strlit("bluesky");
    reveal_strlit("reddit");
    reveal_strlit("pinterest");
    reveal_strlit("vimeo");
    reveal_strlit("bilibili");
    reveal_strlit("twitter");
    reveal_strlit("x");
    assert("instagram"@.len() != "youtube"@.len());
    assert("tiktok"@.len() != "youtube"@.len());
    assert("tiktok"@.len() != "instagram"@.len());
    assert("twitch"@.len() != "youtube"@.len());
    assert("twitch"@.len() != "instagram"@.len());
    assert("twitch"@[1] != "tiktok"@[1]);
    assert("torrent"@[0] != "youtube"@[0]);
    assert("torrent"@.len() != "instagram"@.len());
    assert("torrent"@.len() != "tiktok"@.len());
    assert("torrent"@.len() != "twitch"@.len());
    assert("bluesky"@[0] != "youtube"@[0]);
    assert("bluesky"@.len() != "instagram"@.len());
    assert("bluesky"@.len() != "tiktok"@.len());
    assert("bluesky"@.len() != "twitch"@.len());
    assert("bluesky"@[0] != "torrent"@[0]);
    assert("reddit"@.len() != "youtube"@.len());
    assert("reddit"@.len() != "instagram"@.len());
    assert("reddit"@[0] != "tiktok"@[0]);
    assert("reddit"@[0] != "twitch"@[0]);
    assert("reddit"@.len() != "torrent"@.len());
    assert("reddit"@.len() != "bluesky"@.len());
    assert("pinterest"@.len() != "youtube"@.len());
    assert("pinterest"@[0] != "instagram"@[0]);
    assert("pinterest"@.len() != "tiktok"@.len());
    assert("pinterest"@.len() != "twitch"@.len());
    assert("pinterest"@.len() != "torrent"@.len());
    assert("pinterest"@.len() != "bluesky"@.len());
    assert("pinterest"@.len() != "reddit"@.len());
    assert("vimeo"@.len() != "youtube"@.len());
    assert("vimeo"@.len() != "instagram"@.len());
    assert("vimeo"@.len() != "tiktok"@.len());
    assert("vimeo"@.len() != "twitch"@.len());
    assert("vimeo"@.len() != "torrent"@.len());
    assert("vimeo"@.len() != "bluesky"@.len());
    assert("vimeo"@.len() != "reddit"@.len());
    assert("vimeo"@.len() != "pinterest"@.len());
    assert("bilibili"@.len() != "youtube"@.len());
    assert("bilibili"@.len() != "instagram"@.len());
    assert("bilibili"@.len() != "tiktok"@.len());
    assert("bilibili"@.len() != "twitch"@.len());
    assert("bilibili"@.len() != "torrent"@.len());
    assert("bilibili"@.len() != "bluesky"@.len());
    assert("bilibili"@.len() != "reddit"@.len());
    assert("bilibili"@.len() != "pinterest"@.len());
    assert("bilibili"@.len() != "vimeo"@.len());
    assert("twitter"@[0] != "youtube"@[0]);
    assert("twitter"@.len() != "instagram"@.len());
    assert("twitter"@.len() != "tiktok"@.len());
    assert("twitter"@.len() != "twitch"@.len());
    assert("twitter"@[1] != "torrent"@[1]);
    assert("twitter"@[0] != "bluesky"@[0]);
    assert("twitter"@.len() != "reddit"@.len());
    assert("twitter"@.len() != "pinterest"@.len());
    assert("twitter"@.len() != "vimeo"@.len());
    assert("twitter"@.len() != "bilibili"@.len());
    assert("x"@.len() != "youtube"@.len());
    assert("x"@.len() != "instagram"@.len());
    assert("x"@.len() != "tiktok"@.len());
    assert("x"@.len() != "twitch"@.len());
    assert("x"@.len() != "torrent"@.len());
    assert("x"@.len() != "bluesky"@.len());
    assert("x"@.len() != "reddit"@.len());
    assert("x"@.len() != "pinterest"@.len());
    assert("x"@.len() != "vimeo"@.len());
    assert("x"@.len() != "bilibili"@.len());
    assert("x"@.len() != "twitter"@.len());
    if !badge_platforms().contains(key) {
        let t = badge_platforms();
        assert(t[0] == "youtube"@);
        assert(t[1] == "instagram"@);
        assert(t[2] == "tiktok"@);
        assert(t[3] == "twitch"@);
        assert(t[4] == "torrent"@);
        assert(t[5] == "bluesky"@);
        assert(t[6] == "reddit"@);
        assert(t[7] == "pinterest"@);
        assert(t[8] == "vimeo"@);
        assert(t[9] == "bilibili"@);
        assert(t[10] == "twitter"@);
        assert(t[11] == "x"@);
    }
}

/// Status dots are green exactly for `Active`, `Complete` and `Online`,
/// amber exactly for `Queued`, `Warning` and `Paused`, and red for every
/// other text; only green dots glow.
pub proof fn law_status_tone_by_text(status: Seq<char>)
    ensures
        (status_tone_of(status) == Tone::Success) <==> (status == "Active"@ || status == "Complete"@ || status == "Online"@),
        (status_tone_of(status) == Tone::Warning) <==> (status == "Queued"@ || status == "Warning"@ || status == "Paused"@),
        (status_tone_of(status) == Tone::Danger) <==> !(status == "Active"@ || status == "Complete"@ || status == "Online"@
            || status == "Queued"@ || status == "Warning"@ || status == "Paused"@),
{    reveal_strlit("Active");
    reveal_strlit("Complete");
    reveal_strlit("Online");
    reveal_strlit("Queued");
    reveal_strlit("Warning");
    reveal_strlit("Paused");
    assert("Complete"@.len() != "Active"@.len());
    assert("Online"@[0] != "Active"@[0]);
    assert("Online"@.len() != "Complete"@.len());
    assert("Queued"@[0] != "Active"@[0]);
    assert("Queued"@.len() != "Complete"@.len());
    assert("Queued"@[0] != "Online"@[0]);
    assert("Warning"@.len() != "Active"@.len());
    assert("Warning"@.len() != "Complete"@.len());
    assert("Warning"@.len() != "Online"@.len());
    assert("Warning"@.len() != "Queued"@.len());
    assert("Paused"@[0] != "Active"@[0]);
    assert("Paused"@.len() != "Complete"@.len());
    assert("Paused"@[0] != "Online"@[0]);
    assert("Paused"@[0] != "Queued"@[0]);
    assert("Paused"@.len() != "Warning"@.len());
}

/// A log line is green exactly when it opens with a check mark, red exactly
/// when it opens with a cross, in the brand colour exactly when it opens with
/// a gear, and neutral otherwise (an empty line too).
pub proof fn law_log_tone_by_first_char(line: Seq<char>)
    ensures
        (log_tone_of(line) == Tone::Success) <==> (line.len() > 0 && line[0] == '\u{2713}'),
        (log_tone_of(line) == Tone::Danger) <==> (line.len() > 0 && line[0] == '\u{2717}'),
        (log_tone_of(line) == Tone::Brand) <==> (line.len() > 0 && line[0] == '\u{2699}'),
        line.len() == 0 ==> log_tone_of(line) == Tone::Plain,
{
}

/// A meter is as wide as the larger of its width and its filled count: the
/// filled cells are full blocks, every cell after them light shade.
pub proof fn law_meter_cells(filled: nat, width: nat)
    ensures
        ({
            let rest: nat = if width > filled { (width - filled) as nat } else { 0 };
            let bar = repeated('\u{2588}', filled) + repeated('\u{2591}', rest);
            &&& bar.len() == if width > filled { width } else { filled }
            &&& forall|i: int| 0 <= i < filled ==> bar[i] == '\u{2588}'
            &&& forall|i: int| filled <= i < bar.len() ==> bar[i] == '\u{2591}'
        }),
{
}

/// A duration's text reads back as the duration: its minutes field times
/// sixty plus its seconds field, the seconds always two digits under sixty.
pub proof fn law_duration_reads_back(seconds: u64)
    ensures
        zero_padded2((seconds % 60) as nat).len() == 2,
        digits_value(zero_padded2((seconds % 60) as nat)) < 60,
        60 * digits_value(zero_padded2((seconds / 60) as nat)) + digits_value(zero_padded2((seconds % 60) as nat))
            == seconds,
{
    law_zero_padded2_reads_back((seconds / 60) as nat);
    law_zero_padded2_reads_back((seconds % 60) as nat);
    let x: nat = (seconds % 60) as nat;
    if x >= 10 {
        assert(crate::text::decimal(x / 10).len() == 1);
        assert(crate::text::decimal(x).len() == 2);
    }
}

} // verus!
