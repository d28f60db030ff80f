//! Messages exchanged between the interface thread and the download engine.

use vstd::prelude::*;
use vstd::string::*;
use crate::text::{decimal, decimal_text, join3};

verus! {

/// Commands sent from the interface to the download engine.
#[derive(Debug, Clone)]
pub enum GuiCommand {
    StartDownload {
        url: String,
        output_dir: String,
        quality: Option<String>,
        video_format: Option<String>,
        audio_format: Option<String>,
        audio_quality: Option<String>,
        audio_only: bool,
    },
    PauseDownload { id: u64 },
    ResumeDownload { id: u64 },
    RemoveDownload { id: u64 },
    RefreshQueue,
    CheckDependencies,
    FetchMediaInfo { url: String },
    Shutdown,
}

/// The one-line description of a command: its name and, where it carries
/// one, its URL or download id in brackets.
pub open spec fn command_description(cmd: GuiCommand) -> Seq<char> {
    match cmd {
        GuiCommand::StartDownload { url, .. } => "StartDownload("@ + url@ + ")"@,
        GuiCommand::PauseDownload { id } => "PauseDownload("@ + decimal(id as nat) + ")"@,
        GuiCommand::ResumeDownload { id } => "ResumeDownload("@ + decimal(id as nat) + ")"@,
        GuiCommand::RemoveDownload { id } => "RemoveDownload("@ + decimal(id as nat) + ")"@,
        GuiCommand::RefreshQueue => "RefreshQueue"@,
        GuiCommand::CheckDependencies => "CheckDependencies"@,
        GuiCommand::FetchMediaInfo { url } => "FetchMediaInfo("@ + url@ + ")"@,
        GuiCommand::Shutdown => "Shutdown"@,
    }
}

impl GuiCommand {
    /// Describes the command for the engine's log, as its `Display` text.
    pub fn describe(&self) -> (s: String)
        ensures
            s@ == command_description(*self),
    {
        match self {
            GuiCommand::StartDownload { url, .. } => join3("StartDownload(", url.as_str(), ")"),
            GuiCommand::PauseDownload { id } => {
                let n = decimal_text(*id);
                join3("PauseDownload(", n.as_str(), ")")
            },
            GuiCommand::ResumeDownload { id } => {
                let n = decimal_text(*id);
                join3("ResumeDownload(", n.as_str(), ")")
            },
            GuiCommand::RemoveDownload { id } => {
                let n = decimal_text(*id);
                join3("RemoveDownload(", n.as_str(), ")")
            },
            GuiCommand::RefreshQueue => String::from_str("RefreshQueue"),
            GuiCommand::CheckDependencies => String::from_str("CheckDependencies"),
            GuiCommand::FetchMediaInfo { url } => join3("FetchMediaInfo(", url.as_str(), ")"),
            GuiCommand::Shutdown => String::from_str("Shutdown"),
        }
    }
}

/// One entry of the download queue as the interface shows it.
///
/// The completion percentage (`f32`) and the speed in bytes per second
/// (`f64`) are carried as their IEEE-754 bit patterns: the interface logic
/// only stores and replaces them, and the renderer decodes them.
#[derive(Debug, Clone)]
pub struct QueueItemInfo {
    pub id: u64,
    pub title: String,
    pub platform: String,
    pub status: String,
    pub progress_bits: u32,
    pub speed_bits: u64,
    pub eta: Option<u64>,
}

/// Metadata of a media item (title, duration, platform, formats).
#[derive(Debug, Clone)]
pub struct MediaInfo {
    pub title: String,
    pub duration: Option<u64>,
    pub platform: String,
    pub available_formats: Vec<String>,
}

/// Events emitted by the download engine towards the interface.
#[derive(Debug)]
pub enum CoreEvent {
    QueueUpdated(Vec<QueueItemInfo>),
    DownloadProgress { id: u64, progress_bits: u32, speed_bits: u64, eta: Option<u64> },
    DownloadComplete { id: u64, title: String },
    DownloadError { id: u64, error: String },
    MediaInfoFetched(Result<MediaInfo, String>),
    DependencyStatus { ytdlp: bool, ffmpeg: bool },
    LogLine(String),
}

} // verus!
