use mangofetch_gui::bridge::{CoreEvent, GuiCommand};
use mangofetch_gui::runtime::{
    compact_size_unit, completion_events, dependency_event, dependency_failure_line, download_mode, failure_events,
    next_step, phase_line, preview_event, queue_entry, queue_title, retry_line, small_size_text, status_label,
    unsupported_platform_event, unsupported_platform_line, QueueStatus, Received, RuntimeStep, SizeUnit,
};

#[test]
fn command_loop_steps() {
    assert!(matches!(next_step(Received::Command(GuiCommand::Shutdown)), RuntimeStep::Stop));
    assert!(matches!(next_step(Received::Disconnected), RuntimeStep::Stop));
    assert!(matches!(next_step(Received::Timeout), RuntimeStep::RefreshState));
    assert!(matches!(
        next_step(Received::Command(GuiCommand::PauseDownload { id: 3 })),
        RuntimeStep::Run(GuiCommand::PauseDownload { id: 3 })
    ));
}

#[test]
fn download_mode_and_title() {
    assert_eq!(download_mode(true).as_deref(), Some("audio"));
    assert_eq!(download_mode(false), None);
    assert_eq!(queue_title(Some("Clip".to_string())), "Clip");
    assert_eq!(queue_title(None), "Download");
}

#[test]
fn engine_error_lines() {
    assert_eq!(unsupported_platform_line(), "Error: Plataforma no soportada");
    assert_eq!(dependency_failure_line("no network"), "Error de dependencias: no network");
    match unsupported_platform_event() {
        CoreEvent::MediaInfoFetched(Err(e)) => assert_eq!(e, "Platform not supported"),
        _ => panic!("expected an error"),
    }
}

#[test]
fn dependency_events() {
    assert!(matches!(dependency_event(Some((true, false))), CoreEvent::DependencyStatus { ytdlp: true, ffmpeg: false }));
    assert!(matches!(dependency_event(None), CoreEvent::DependencyStatus { ytdlp: false, ffmpeg: false }));
}

#[test]
fn status_labels() {
    assert_eq!(status_label(&QueueStatus::Active), "Active");
    assert_eq!(status_label(&QueueStatus::Queued), "Queued");
    assert_eq!(status_label(&QueueStatus::Paused), "Paused");
    assert_eq!(status_label(&QueueStatus::Seeding), "Seeding");
    assert_eq!(status_label(&QueueStatus::Complete), "Complete");
    assert_eq!(status_label(&QueueStatus::Error { message: "disk full".to_string() }), "Error: disk full");
}

#[test]
fn queue_entries_from_engine_state() {
    let e = queue_entry(8, "T".to_string(), "Reddit".to_string(), &QueueStatus::Paused, 5, 6);
    assert_eq!(e.id, 8);
    assert_eq!(e.title, "T");
    assert_eq!(e.platform, "Reddit");
    assert_eq!(e.status, "Paused");
    assert_eq!((e.progress_bits, e.speed_bits, e.eta), (5, 6, None));
}

#[test]
fn completion_report() {
    let evs = completion_events(7, Some("1.5 MB".to_string()), Some("/d/a.mp4".to_string()));
    assert!(matches!(&evs[0], CoreEvent::DownloadComplete { id: 7, title } if title == "/d/a.mp4"));
    assert!(matches!(&evs[1], CoreEvent::LogLine(l) if l == "\u{2713} [DL#07] COMPLETE | Size: 1.5 MB | Path: /d/a.mp4"));
    let evs = completion_events(123, None, None);
    assert!(matches!(&evs[0], CoreEvent::DownloadComplete { id: 123, title } if title == "--"));
    assert!(matches!(&evs[1], CoreEvent::LogLine(l) if l == "\u{2713} [DL#123] COMPLETE | Size: -- | Path: --"));
}

#[test]
fn failure_report() {
    let evs = failure_events(3, "403".to_string());
    assert!(matches!(&evs[0], CoreEvent::DownloadError { id: 3, error } if error == "403"));
    assert!(matches!(&evs[1], CoreEvent::LogLine(l) if l == "\u{2717} [DL#03] ERROR | 403"));
}

#[test]
fn retry_and_phase_lines() {
    assert_eq!(retry_line(2, 3, 1500), "\u{21bb} [DL#02] RETRY | Attempt 3 in 1500ms");
    assert_eq!(phase_line(10, "merging"), "\u{27eb} [DL#10] Phase transition: merging");
}

#[test]
fn preview_events_are_generic() {
    match preview_event("Song".to_string(), Some(200)) {
        CoreEvent::MediaInfoFetched(Ok(info)) => {
            assert_eq!(info.title, "Song");
            assert_eq!(info.duration, Some(200));
            assert_eq!(info.platform, "Generic");
            assert!(info.available_formats.is_empty());
        }
        _ => panic!("expected metadata"),
    }
}

#[test]
fn size_units() {
    assert_eq!(compact_size_unit(0), SizeUnit::Bytes);
    assert_eq!(compact_size_unit(1023), SizeUnit::Bytes);
    assert_eq!(compact_size_unit(1024), SizeUnit::KiloBytes);
    assert_eq!(compact_size_unit(1_048_575), SizeUnit::KiloBytes);
    assert_eq!(compact_size_unit(1_048_576), SizeUnit::MegaBytes);
    assert_eq!(compact_size_unit(1_073_741_823), SizeUnit::MegaBytes);
    assert_eq!(compact_size_unit(1_073_741_824), SizeUnit::GigaBytes);
    assert_eq!(compact_size_unit(u64::MAX), SizeUnit::GigaBytes);
    assert_eq!(small_size_text(512), "512 B");
    assert_eq!(small_size_text(0), "0 B");
}
