//! Decisions of the engine thread: what each received command makes it do,
//! how the engine's queue states and reports become interface events, and
//! the log lines it emits.

use vstd::prelude::*;
use vstd::string::*;
use crate::bridge::{CoreEvent, GuiCommand, MediaInfo, QueueItemInfo};
use crate::text::{decimal, decimal_text, join3, join4, zero_padded2, zero_padded2_text};

verus! {

// ── The command loop ───────────────────────────────────────────────────────

/// What a wait on the command channel produced.
#[derive(Debug)]
pub enum Received {
    /// A command arrived.
    Command(GuiCommand),
    /// The polling interval passed without a command.
    Timeout,
    /// The interface side of the channel is gone.
    Disconnected,
}

/// What the engine thread does next.
#[derive(Debug)]
pub enum RuntimeStep {
    /// Carry out the command on the engine.
    Run(GuiCommand),
    /// Push the queue state to the interface.
    RefreshState,
    /// Leave the loop and shut the engine down.
    Stop,
}

/// The engine thread's reaction to a wait on the command channel: a
/// shutdown command or a closed channel stops it, any other command is
/// carried out, and an idle interval triggers a state refresh.
pub fn next_step(received: Received) -> (step: RuntimeStep)
    ensures
        match received {
            Received::Command(GuiCommand::Shutdown) => step is Stop,
            Received::Command(cmd) => step == RuntimeStep::Run(cmd),
            Received::Timeout => step is RefreshState,
            Received::Disconnected => step is Stop,
        },
{
    match received {
        Received::Command(GuiCommand::Shutdown) => RuntimeStep::Stop,
        Received::Command(cmd) => RuntimeStep::Run(cmd),
        Received::Timeout => RuntimeStep::RefreshState,
        Received::Disconnected => RuntimeStep::Stop,
    }
}

/// The download mode handed to the engine: `audio` for audio-only
/// downloads, none otherwise.
pub fn download_mode(audio_only: bool) -> (mode: Option<String>)
    ensures
        match mode {
            Some(m) => audio_only && m@ == "audio"@,
            None => !audio_only,
        },
{
    if audio_only {
        Some(String::from_str("audio"))
    } else {
        None
    }
}

/// The title a new queue entry gets: the fetched media title, or
/// `Download` when the metadata could not be fetched.
pub fn queue_title(fetched_title: Option<String>) -> (title: String)
    ensures
        title@ == match fetched_title {
            Some(t) => t@,
            None => "Download"@,
        },
{
    match fetched_title {
        Some(t) => t,
        None => String::from_str("Download"),
    }
}

/// The log line sent when no platform handles a URL to download.
pub fn unsupported_platform_line() -> (line: String)
    ensures
        line@ == "Error: Plataforma no soportada"@,
{
    String::from_str("Error: Plataforma no soportada")
}

/// The log line sent when the external tools cannot be provided.
pub fn dependency_failure_line(error: &str) -> (line: String)
    ensures
        line@ == "Error de dependencias: "@ + error@,
{
    let mut line = String::from_str("Error de dependencias: ");
    line.append(error);
    line
}

/// The answer to a dependency check: which of yt-dlp and ffmpeg were found,
/// or neither when the check itself failed.
pub fn dependency_event(found: Option<(bool, bool)>) -> (ev: CoreEvent)
    ensures
        ev == (match found {
            Some((ytdlp, ffmpeg)) => CoreEvent::DependencyStatus { ytdlp, ffmpeg },
            None => CoreEvent::DependencyStatus { ytdlp: false, ffmpeg: false },
        }),
{
    match found {
        Some((ytdlp, ffmpeg)) => CoreEvent::DependencyStatus { ytdlp, ffmpeg },
        None => CoreEvent::DependencyStatus { ytdlp: false, ffmpeg: false },
    }
}

/// The answer to a metadata request for a URL that no platform handles.
pub fn unsupported_platform_event() -> (ev: CoreEvent)
    ensures
        (ev matches CoreEvent::MediaInfoFetched(Err(e)) && e@ == "Platform not supported"@),
{
    CoreEvent::MediaInfoFetched(Err(String::from_str("Platform not supported")))
}

// ── Queue states ───────────────────────────────────────────────────────────

/// The state of a queued download as the engine reports it.
#[derive(Debug, Clone)]
pub enum QueueStatus {
    Active,
    Queued,
    Paused,
    Seeding,
    Complete,
    Error { message: String },
}

/// The status text the interface shows for a queue state.
pub open spec fn status_text(status: QueueStatus) -> Seq<char> {
    match status {
        QueueStatus::Active => "Active"@,
        QueueStatus::Queued => "Queued"@,
        QueueStatus::Paused => "Paused"@,
        QueueStatus::Seeding => "Seeding"@,
        QueueStatus::Complete => "Complete"@,
        QueueStatus::Error { message } => "Error: "@ + message@,
    }
}

/// Renders a queue state as the status text of an interface entry.
pub fn status_label(status: &QueueStatus) -> (s: String)
    ensures
        s@ == status_text(*status),
{
    match status {
        QueueStatus::Active => String::from_str("Active"),
        QueueStatus::Queued => String::from_str("Queued"),
        QueueStatus::Paused => String::from_str("Paused"),
        QueueStatus::Seeding => String::from_str("Seeding"),
        QueueStatus::Complete => String::from_str("Complete"),
        QueueStatus::Error { message } => {
            let mut s = String::from_str("Error: ");
            s.append(message.as_str());
            s
        },
    }
}

/// The interface entry for an engine queue entry; the remaining time is not
/// reported.
pub fn queue_entry(
    id: u64,
    title: String,
    platform: String,
    status: &QueueStatus,
    progress_bits: u32,
    speed_bits: u64,
) -> (item: QueueItemInfo)
    ensures
        item.id == id,
        item.title == title,
        item.platform == platform,
        item.status@ == status_text(*status),
        item.progress_bits == progress_bits,
        item.speed_bits == speed_bits,
        item.eta.is_none(),
{
    QueueItemInfo { id, title, platform, status: status_label(status), progress_bits, speed_bits, eta: None }
}

// ── Download reports ───────────────────────────────────────────────────────

/// The log line of a finished download: its tag (`[DL#` and the id padded
/// to two digits), the size and the path.
pub open spec fn completion_report(id: u64, size: Seq<char>, path: Seq<char>) -> Seq<char> {
    "\u{2713} [DL#"@ + zero_padded2(id as nat) + "] COMPLETE | Size: "@ + size + " | Path: "@ + path
}

/// The log line of a failed download: its tag and the error message.
pub open spec fn failure_report(id: u64, message: Seq<char>) -> Seq<char> {
    "\u{2717} [DL#"@ + zero_padded2(id as nat) + "] ERROR | "@ + message
}

/// Report lines tag a download as `[DL#` and its id padded to two digits.
///
/// The events sent when a download finishes: the completion, titled with the
/// file path, then a log line with the size and the path (`--` for an
/// unknown size or path).
pub fn completion_events(id: u64, size_text: Option<String>, path: Option<String>) -> (evs: Vec<CoreEvent>)
    ensures
        evs@.len() == 2,
        ({
            let path_text = match path {
                Some(p) => p@,
                None => "--"@,
            };
            let size = match size_text {
                Some(s) => s@,
                None => "--"@,
            };
            &&& evs@[0] matches CoreEvent::DownloadComplete { id: i, title } && i == id && title@ == path_text
            &&& evs@[1] matches CoreEvent::LogLine(line) && line@ == completion_report(id, size, path_text)
        }),
{
    let size = match size_text {
        Some(s) => s,
        None => String::from_str("--"),
    };
    let path_text = match path {
        Some(p) => p,
        None => String::from_str("--"),
    };
    let tag = zero_padded2_text(id);
    let mut line = join3("\u{2713} [DL#", tag.as_str(), "] COMPLETE | Size: ");
    line.append(size.as_str());
    line.append(" | Path: ");
    line.append(path_text.as_str());
    let title = path_text.clone();
    let mut evs = Vec::new();
    evs.push(CoreEvent::DownloadComplete { id, title });
    evs.push(CoreEvent::LogLine(line));
    evs
}

/// The events sent when a download fails: the failure, then a log line.
pub fn failure_events(id: u64, message: String) -> (evs: Vec<CoreEvent>)
    ensures
        evs@.len() == 2,
        evs@[0] == (CoreEvent::DownloadError { id, error: message }),
        (evs@[1] matches CoreEvent::LogLine(line) && line@ == failure_report(id, message@)),
{
    let tag = zero_padded2_text(id);
    let line = join4("\u{2717} [DL#", tag.as_str(), "] ERROR | ", message.as_str());
    let mut evs = Vec::new();
    evs.push(CoreEvent::DownloadError { id, error: message });
    evs.push(CoreEvent::LogLine(line));
    evs
}

/// The log line for a retried download.
pub fn retry_line(id: u64, attempt: u32, delay_ms: u64) -> (line: String)
    ensures
        line@ == "\u{21bb} [DL#"@ + zero_padded2(id as nat) + "] RETRY | Attempt "@ + decimal(attempt as nat) + " in "@
            + decimal(delay_ms as nat) + "ms"@,
{
    let tag = zero_padded2_text(id);
    let a = decimal_text(attempt as u64);
    let d = decimal_text(delay_ms);
    let mut line = join3("\u{21bb} [DL#", tag.as_str(), "] RETRY | Attempt ");
    line.append(a.as_str());
    line.append(" in ");
    line.append(d.as_str());
    line.append("ms");
    line
}

/// The log line for a download entering a new phase.
pub fn phase_line(id: u64, phase: &str) -> (line: String)
    ensures
        line@ == "\u{27eb} [DL#"@ + zero_padded2(id as nat) + "] Phase transition: "@ + phase@,
{
    let tag = zero_padded2_text(id);
    join4("\u{27eb} [DL#", tag.as_str(), "] Phase transition: ", phase)
}

/// The metadata event for a media preview the engine reports while it
/// resolves a download: platform `Generic`, no formats.
pub fn preview_event(title: String, duration: Option<u64>) -> (ev: CoreEvent)
    ensures
        (ev matches CoreEvent::MediaInfoFetched(Ok(info)) && info.title == title && info.duration == duration
            && info.platform@ == "Generic"@ && info.available_formats@.len() == 0),
{
    CoreEvent::MediaInfoFetched(
        Ok(MediaInfo { title, duration, platform: String::from_str("Generic"), available_formats: Vec::new() }),
    )
}

// ── Sizes ──────────────────────────────────────────────────────────────────

/// The unit a byte count is shown in.
#[derive(Debug, Clone, Copy, PartialEq, Eq, Structural)]
pub enum SizeUnit {
    Bytes,
    KiloBytes,
    MegaBytes,
    GigaBytes,
}

/// The unit of the compact size notation: bytes below 1 KiB, KiB below
/// 1 MiB, MiB below 1 GiB, GiB from there.
pub fn compact_size_unit(bytes: u64) -> (u: SizeUnit)
    ensures
        u == if bytes < 1024 {
            SizeUnit::Bytes
        } else if bytes < 1_048_576 {
            SizeUnit::KiloBytes
        } else if bytes < 1_073_741_824 {
            SizeUnit::MegaBytes
        } else {
            SizeUnit::GigaBytes
        },
{
    if bytes < 1024 {
        SizeUnit::Bytes
    } else if bytes < 1_048_576 {
        SizeUnit::KiloBytes
    } else if bytes < 1_073_741_824 {
        SizeUnit::MegaBytes
    } else {
        SizeUnit::GigaBytes
    }
}

/// The compact notation of a count below 1 KiB: the count and `B`.
pub fn small_size_text(bytes: u64) -> (s: String)
    requires
        bytes < 1024,
    ensures
        s@ == decimal(bytes as nat) + " B"@,
{
    let mut s = decimal_text(bytes);
    s.append(" B");
    s
}

} // verus!
