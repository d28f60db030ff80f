use mangofetch_gui::app::PreviewPanel;
use mangofetch_gui::app::{AppModel, Tab, LOG_CAPACITY, PROGRESS_COMPLETE_BITS};
use mangofetch_gui::bridge::{CoreEvent, GuiCommand, MediaInfo, QueueItemInfo};
use mangofetch_gui::theme::BrandPreset;

fn item(id: u64, status: &str) -> QueueItemInfo {
    QueueItemInfo {
        id,
        title: format!("title {}", id),
        platform: "YouTube".to_string(),
        status: status.to_string(),
        progress_bits: 0,
        speed_bits: 0,
        eta: None,
    }
}

fn model_with_items(items: Vec<QueueItemInfo>) -> AppModel {
    let mut m = AppModel::new("/downloads".to_string());
    m.apply_event(CoreEvent::QueueUpdated(items));
    m
}

#[test]
fn initial_state() {
    let m = AppModel::new("/downloads".to_string());
    assert_eq!(m.current_tab, Tab::Home);
    assert_eq!(m.theme, BrandPreset::PlasmCore);
    assert!(m.items.is_empty() && m.logs.is_empty());
    assert_eq!(m.output_dir, "/downloads");
    assert_eq!(m.selected_quality, "Best");
    assert_eq!(m.selected_video_format, "mp4");
    assert_eq!(m.selected_audio_format, "mp3");
    assert_eq!(m.selected_audio_quality, "320K");
    assert_eq!(m.concurrent_limit, 3);
    assert!(m.auto_retry && !m.audio_only && !m.top_nav_layout && !m.show_persistent_logs);
    assert!(!m.ytdlp_installed && !m.ffmpeg_installed && !m.media_info_loading);
}

#[test]
fn startup_sends_dependency_check_then_refresh() {
    let cmds = AppModel::startup_commands();
    assert_eq!(cmds.len(), 2);
    assert!(matches!(cmds[0], GuiCommand::CheckDependencies));
    assert!(matches!(cmds[1], GuiCommand::RefreshQueue));
}

#[test]
fn progress_updates_first_matching_entry_only() {
    let mut m = model_with_items(vec![item(1, "Active"), item(2, "Active"), item(2, "Queued")]);
    let progress = 42.5f32.to_bits();
    let speed = 1024.0f64.to_bits();
    m.apply_event(CoreEvent::DownloadProgress { id: 2, progress_bits: progress, speed_bits: speed, eta: Some(9) });
    assert_eq!(m.items[1].progress_bits, progress);
    assert_eq!(m.items[1].speed_bits, speed);
    assert_eq!(m.items[1].eta, Some(9));
    assert_eq!(m.items[2].progress_bits, 0);
    assert_eq!(m.items[0].progress_bits, 0);
    assert_eq!(m.items.len(), 3);
    assert!(m.logs.is_empty());
}

#[test]
fn progress_for_unknown_download_changes_nothing() {
    let mut m = model_with_items(vec![item(1, "Active")]);
    m.apply_event(CoreEvent::DownloadProgress { id: 5, progress_bits: 1, speed_bits: 1, eta: None });
    assert_eq!(m.items[0].progress_bits, 0);
    assert_eq!(m.items.len(), 1);
}

#[test]
fn completion_marks_entry_and_logs() {
    let mut m = model_with_items(vec![item(3, "Active")]);
    m.apply_event(CoreEvent::DownloadComplete { id: 3, title: "/d/video.mp4".to_string() });
    assert_eq!(m.items[0].status, "Complete");
    assert_eq!(m.items[0].progress_bits, PROGRESS_COMPLETE_BITS);
    assert_eq!(f32::from_bits(PROGRESS_COMPLETE_BITS), 100.0);
    assert_eq!(m.logs, vec!["\u{2713} [/d/video.mp4] Completed successfully".to_string()]);
}

#[test]
fn completion_of_unknown_download_still_logs() {
    let mut m = model_with_items(vec![]);
    m.apply_event(CoreEvent::DownloadComplete { id: 3, title: "x".to_string() });
    assert!(m.items.is_empty());
    assert_eq!(m.logs.len(), 1);
}

#[test]
fn failure_marks_entry_and_logs_only_when_known() {
    let mut m = model_with_items(vec![item(4, "Active")]);
    m.apply_event(CoreEvent::DownloadError { id: 4, error: "timeout".to_string() });
    assert_eq!(m.items[0].status, "Error");
    assert_eq!(m.logs, vec!["\u{2717} [ID #4] Error: timeout".to_string()]);
    m.apply_event(CoreEvent::DownloadError { id: 99, error: "nope".to_string() });
    assert_eq!(m.logs.len(), 1);
}

#[test]
fn media_info_result_replaces_preview() {
    let mut m = AppModel::new("/d".to_string());
    m.input_url = "https://v".to_string();
    let cmd = m.fetch_preview();
    assert!(matches!(cmd, Some(GuiCommand::FetchMediaInfo { ref url }) if url == "https://v"));
    assert!(m.media_info_loading);
    m.apply_event(CoreEvent::MediaInfoFetched(Err("boom".to_string())));
    assert!(!m.media_info_loading);
    assert!(m.media_info.is_none());
    assert_eq!(m.media_info_error.as_deref(), Some("boom"));
    let info = MediaInfo { title: "T".to_string(), duration: Some(61), platform: "Vimeo".to_string(), available_formats: vec![] };
    m.apply_event(CoreEvent::MediaInfoFetched(Ok(info)));
    assert!(m.media_info_error.is_none());
    assert_eq!(m.media_info.as_ref().map(|i| i.title.as_str()), Some("T"));
}

#[test]
fn preview_without_url_does_nothing() {
    let mut m = AppModel::new("/d".to_string());
    assert!(m.fetch_preview().is_none());
    assert!(!m.media_info_loading);
}

#[test]
fn dependency_status_sets_flags() {
    let mut m = AppModel::new("/d".to_string());
    m.apply_event(CoreEvent::DependencyStatus { ytdlp: true, ffmpeg: false });
    assert!(m.ytdlp_installed && !m.ffmpeg_installed);
}

#[test]
fn log_stream_is_capped() {
    let mut m = AppModel::new("/d".to_string());
    for i in 0..(LOG_CAPACITY + 5) {
        m.apply_event(CoreEvent::LogLine(format!("line {}", i)));
    }
    assert_eq!(m.logs.len(), LOG_CAPACITY);
    assert_eq!(m.logs[0], "line 5");
    assert_eq!(m.logs[LOG_CAPACITY - 1], format!("line {}", LOG_CAPACITY + 4));
}

#[test]
fn enqueue_sends_once_and_switches_to_queue() {
    let mut m = AppModel::new("/d".to_string());
    m.input_url = "https://youtu.be/x".to_string();
    m.audio_only = true;
    let cmd = m.enqueue_download();
    match cmd {
        Some(GuiCommand::StartDownload { url, output_dir, quality, video_format, audio_format, audio_quality, audio_only }) => {
            assert_eq!(url, "https://youtu.be/x");
            assert_eq!(output_dir, "/d");
            assert_eq!(quality.as_deref(), Some("Best"));
            assert_eq!(video_format.as_deref(), Some("mp4"));
            assert_eq!(audio_format.as_deref(), Some("mp3"));
            assert_eq!(audio_quality.as_deref(), Some("320K"));
            assert!(audio_only);
        }
        _ => panic!("expected a start command"),
    }
    assert_eq!(m.current_tab, Tab::Queue);
    assert!(m.input_url.is_empty());
    assert_eq!(m.logs, vec!["Enqueued download: https://youtu.be/x".to_string()]);
    assert!(m.enqueue_download().is_none());
    assert_eq!(m.logs.len(), 1);
}

#[test]
fn opening_queue_tab_requests_refresh() {
    let mut m = AppModel::new("/d".to_string());
    assert!(matches!(m.select_tab(Tab::Queue), Some(GuiCommand::RefreshQueue)));
    assert_eq!(m.current_tab, Tab::Queue);
    assert!(m.select_tab(Tab::Settings).is_none());
    assert_eq!(m.current_tab, Tab::Settings);
}

#[test]
fn layout_toggle_twice_restores() {
    let mut m = AppModel::new("/d".to_string());
    m.toggle_layout();
    assert!(m.top_nav_layout);
    m.toggle_layout();
    assert!(!m.top_nav_layout);
}

#[test]
fn theme_and_log_clearing() {
    let mut m = AppModel::new("/d".to_string());
    m.set_theme(BrandPreset::CriticalMass);
    assert_eq!(m.theme, BrandPreset::CriticalMass);
    m.apply_event(CoreEvent::LogLine("a".to_string()));
    m.clear_logs();
    assert!(m.logs.is_empty());
}

#[test]
fn active_downloads_are_counted() {
    let m = model_with_items(vec![item(1, "Active"), item(2, "Paused"), item(3, "Active"), item(4, "active")]);
    assert_eq!(m.active_count(), 2);
    assert_eq!(model_with_items(vec![]).active_count(), 0);
}

#[test]
fn preview_panel_choice() {
    let mut m = AppModel::new("/d".to_string());
    assert_eq!(m.preview_panel(false), PreviewPanel::QuickStart);
    m.media_info_error = Some("x".to_string());
    assert_eq!(m.preview_panel(true), PreviewPanel::Failure);
    m.media_info = Some(MediaInfo { title: "t".to_string(), duration: None, platform: "p".to_string(), available_formats: vec![] });
    assert_eq!(m.preview_panel(false), PreviewPanel::Metadata);
    assert_eq!(m.preview_panel(true), PreviewPanel::Thumbnail);
    m.media_info_loading = true;
    assert_eq!(m.preview_panel(true), PreviewPanel::Loading);
}
