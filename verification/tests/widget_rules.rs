use mangofetch_gui::fonts::{font_search_step, FontSearch};
use mangofetch_gui::app::Tab;
use mangofetch_gui::bridge::GuiCommand;
use mangofetch_gui::fonts::{monospace_candidates, proportional_candidates};
use mangofetch_gui::theme::{BrandPreset, Rgba8};
use mangofetch_gui::widgets::{
    format_duration, log_tone, meter_bar, platform_caption, platform_color, platform_glyph, platform_label, pulse_status,
    radar_frame, row_shows_speed, row_toggle_command, shorten_title, status_glows, status_tone, Tone,
};

fn opaque(r: u8, g: u8, b: u8) -> Rgba8 {
    Rgba8 { r, g, b, a: 255 }
}

#[test]
fn status_tones() {
    for s in ["Active", "Complete", "Online"] {
        assert_eq!(status_tone(s), Tone::Success);
        assert!(status_glows(s));
    }
    for s in ["Queued", "Warning", "Paused"] {
        assert_eq!(status_tone(s), Tone::Warning);
        assert!(!status_glows(s));
    }
    for s in ["Error", "Seeding", "Error: x", "", "active"] {
        assert_eq!(status_tone(s), Tone::Danger);
    }
}

#[test]
fn tone_colours() {
    assert_eq!(Tone::Success.color(BrandPreset::PlasmCore), opaque(0x34, 0xa8, 0x53));
    assert_eq!(Tone::Warning.color(BrandPreset::PlasmCore), opaque(0xfb, 0xbf, 0x24));
    assert_eq!(Tone::Danger.color(BrandPreset::PlasmCore), opaque(0xf2, 0x8b, 0x82));
    assert_eq!(Tone::Brand.color(BrandPreset::CriticalMass), opaque(0xef, 0x44, 0x44));
    assert_eq!(Tone::Plain.color(BrandPreset::PlasmCore), opaque(0xd1, 0xd5, 0xdb));
}

#[test]
fn log_tones() {
    assert_eq!(log_tone("\u{2713} [DL#01] COMPLETE"), Tone::Success);
    assert_eq!(log_tone("\u{2717} [ID #2] Error: x"), Tone::Danger);
    assert_eq!(log_tone("\u{2699} System: update"), Tone::Brand);
    assert_eq!(log_tone("Enqueued download: u"), Tone::Plain);
    assert_eq!(log_tone(""), Tone::Plain);
}

#[test]
fn platform_badges_ignore_case() {
    assert_eq!(platform_color("YouTube"), opaque(255, 85, 85));
    assert_eq!(platform_color("TIKTOK"), opaque(85, 255, 255));
    assert_eq!(platform_color("X"), opaque(29, 161, 242));
    assert_eq!(platform_color("twitter"), opaque(29, 161, 242));
    assert_eq!(platform_color("Generic"), opaque(168, 85, 247));
    assert_eq!(platform_glyph("Reddit"), "\u{f0459}");
    assert_eq!(platform_glyph("Torrent"), "\u{f0117}");
    assert_eq!(platform_glyph("unknown"), "\u{f021a}");
    assert_eq!(platform_label("Bluesky"), "\u{f059f}  BLUESKY");
    assert_eq!(platform_caption("vimeo"), "  VIMEO  ");
}

#[test]
fn row_actions() {
    assert!(matches!(row_toggle_command("Active", 4), Some(GuiCommand::PauseDownload { id: 4 })));
    assert!(matches!(row_toggle_command("Paused", 4), Some(GuiCommand::ResumeDownload { id: 4 })));
    assert!(row_toggle_command("Queued", 4).is_none());
    assert!(row_toggle_command("Error: x", 4).is_none());
    assert!(row_shows_speed("Active", true));
    assert!(!row_shows_speed("Active", false));
    assert!(!row_shows_speed("Paused", true));
}

#[test]
fn durations() {
    assert_eq!(format_duration(0), "00:00");
    assert_eq!(format_duration(61), "01:01");
    assert_eq!(format_duration(3599), "59:59");
    assert_eq!(format_duration(6000), "100:00");
}

#[test]
fn titles_are_shortened_past_fifty_bytes() {
    let short = "a".repeat(50);
    assert_eq!(shorten_title(&short), short);
    let long = "b".repeat(51);
    assert_eq!(shorten_title(&long), format!("{}...", "b".repeat(47)));
    let mixed = format!("{}{}", "c".repeat(45), "\u{e9}\u{e9}\u{e9}");
    assert_eq!(mixed.len(), 51);
    assert_eq!(shorten_title(&mixed), format!("{}\u{e9}...", "c".repeat(45)));
}

#[test]
fn meter_bars() {
    assert_eq!(meter_bar(3, 8), "\u{2588}\u{2588}\u{2588}\u{2591}\u{2591}\u{2591}\u{2591}\u{2591}");
    assert_eq!(meter_bar(0, 2), "\u{2591}\u{2591}");
    assert_eq!(meter_bar(8, 8), "\u{2588}".repeat(8));
    assert_eq!(meter_bar(0, 0), "");
}

#[test]
fn animated_indicators() {
    assert_eq!(radar_frame(0), "|");
    assert_eq!(radar_frame(249), "|");
    assert_eq!(radar_frame(250), "/");
    assert_eq!(radar_frame(500), "-");
    assert_eq!(radar_frame(999), "\\");
    assert_eq!(radar_frame(1000), "|");
    assert_eq!(pulse_status(0), "Active");
    assert_eq!(pulse_status(499), "Active");
    assert_eq!(pulse_status(500), "Online");
    assert_eq!(pulse_status(1000), "Active");
}

#[test]
fn navigation_lists() {
    let tabs = Tab::all();
    let labels: Vec<&str> = tabs.iter().map(|t| t.label()).collect();
    assert_eq!(labels, vec!["Home", "Queue", "Settings", "Logs", "About"]);
    let names: Vec<&str> = BrandPreset::all().iter().map(|p| p.name()).collect();
    assert_eq!(names, vec!["Plasma Core", "Oxidized Gold", "Violet Reaction", "Coolant Liquid", "Critical Mass"]);
}

#[test]
fn font_candidates() {
    let p = proportional_candidates();
    assert_eq!(p.len(), 12);
    assert_eq!(p[0], "sans-serif");
    assert_eq!(p[11], "PingFang SC");
    let m = monospace_candidates();
    assert_eq!(m[0], "monospace");
    assert_eq!(m[11], "Menlo");
}

#[test]
fn font_search_steps() {
    assert!(matches!(font_search_step(0, 3, Some(vec![1, 2])), FontSearch::Found(0, ref d) if d == &vec![1u8, 2]));
    assert!(matches!(font_search_step(0, 3, None), FontSearch::Next(1)));
    assert!(matches!(font_search_step(1, 3, None), FontSearch::Next(2)));
    assert!(matches!(font_search_step(2, 3, None), FontSearch::Exhausted));
    assert!(matches!(font_search_step(2, 3, Some(vec![])), FontSearch::Found(2, _)));
}

#[test]
fn font_search_visits_candidates_in_order() {
    let names = monospace_candidates();
    let installed = ["Fira Code", "Menlo"];
    let mut visited = Vec::new();
    let mut index = 0usize;
    let outcome = loop {
        visited.push(index);
        let lookup = if installed.contains(&names[index]) { Some(vec![index as u8]) } else { None };
        match font_search_step(index, names.len(), lookup) {
            FontSearch::Found(found, data) => break Some((found, data)),
            FontSearch::Next(next) => index = next,
            FontSearch::Exhausted => break None,
        }
    };
    assert_eq!(visited, (0..=9).collect::<Vec<usize>>());
    assert_eq!(outcome, Some((9, vec![9u8])));
}
