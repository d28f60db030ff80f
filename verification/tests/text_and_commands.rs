use mangofetch_gui::bridge::GuiCommand;
use mangofetch_gui::text::{decimal_text, same_text, starts_with_char, zero_padded2_text};

#[test]
fn decimal_rendering() {
    assert_eq!(decimal_text(0), "0");
    assert_eq!(decimal_text(7), "7");
    assert_eq!(decimal_text(10), "10");
    assert_eq!(decimal_text(1234567890), "1234567890");
    assert_eq!(decimal_text(u64::MAX), u64::MAX.to_string());
}

#[test]
fn two_digit_padding() {
    assert_eq!(zero_padded2_text(0), "00");
    assert_eq!(zero_padded2_text(5), "05");
    assert_eq!(zero_padded2_text(42), "42");
    assert_eq!(zero_padded2_text(123), "123");
    for n in [0u64, 3, 9, 10, 99, 100, 4096] {
        assert_eq!(zero_padded2_text(n), format!("{:02}", n));
    }
}

#[test]
fn text_comparison() {
    assert!(same_text("Active", "Active"));
    assert!(!same_text("Active", "active"));
    assert!(!same_text("Active", "Activ"));
    assert!(same_text("", ""));
    assert!(same_text("\u{2713} ok", "\u{2713} ok"));
    assert!(starts_with_char("\u{2713} done", '\u{2713}'));
    assert!(!starts_with_char("", '\u{2713}'));
}

#[test]
fn command_descriptions() {
    let start = GuiCommand::StartDownload {
        url: "https://example.com/v".to_string(),
        output_dir: "/tmp".to_string(),
        quality: None,
        video_format: None,
        audio_format: None,
        audio_quality: None,
        audio_only: true,
    };
    assert_eq!(start.describe(), "StartDownload(https://example.com/v)");
    assert_eq!(GuiCommand::PauseDownload { id: 7 }.describe(), "PauseDownload(7)");
    assert_eq!(GuiCommand::ResumeDownload { id: 12 }.describe(), "ResumeDownload(12)");
    assert_eq!(GuiCommand::RemoveDownload { id: 0 }.describe(), "RemoveDownload(0)");
    assert_eq!(GuiCommand::RefreshQueue.describe(), "RefreshQueue");
    assert_eq!(GuiCommand::CheckDependencies.describe(), "CheckDependencies");
    assert_eq!(GuiCommand::FetchMediaInfo { url: "u".to_string() }.describe(), "FetchMediaInfo(u)");
    assert_eq!(GuiCommand::Shutdown.describe(), "Shutdown");
}
