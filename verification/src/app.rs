//! The interface state of the download station and how it moves: engine
//! events folded into the state, and the user actions that produce engine
//! commands.

use vstd::prelude::*;
use vstd::string::*;
use crate::bridge::{CoreEvent, GuiCommand, MediaInfo, QueueItemInfo};
use crate::text::{decimal, decimal_text, join3, join4, same_text};
use crate::theme::BrandPreset;

verus! {

/// The tabs of the navigation.
#[derive(Debug, Clone, Copy, PartialEq, Eq, Structural)]
pub enum Tab {
    Home,
    Queue,
    Settings,
    Logs,
    About,
}

/// The number of log lines the engine's log stream keeps: a new line beyond
/// it drops the oldest.
pub const LOG_CAPACITY: usize = 800;

/// The bit pattern of the `f32` value 100.0: the progress of a finished
/// download.
pub const PROGRESS_COMPLETE_BITS: u32 = 0x42c8_0000;

/// The interface state, apart from the engine connection, the rendering
/// resources and the telemetry sampler.
pub struct AppModel {
    pub current_tab: Tab,
    pub theme: BrandPreset,
    /// The download queue as last reported by the engine.
    pub items: Vec<QueueItemInfo>,
    /// The activity log shown in the log tab.
    pub logs: Vec<String>,
    pub ytdlp_installed: bool,
    pub ffmpeg_installed: bool,
    /// The URL typed in the home tab.
    pub input_url: String,
    pub output_dir: String,
    pub audio_only: bool,
    pub selected_quality: String,
    pub selected_video_format: String,
    pub selected_audio_format: String,
    pub selected_audio_quality: String,
    /// A metadata request is in flight.
    pub media_info_loading: bool,
    pub media_info: Option<MediaInfo>,
    pub media_info_error: Option<String>,
    pub concurrent_limit: usize,
    pub auto_retry: bool,
    pub show_persistent_logs: bool,
    /// Tabs in a top bar instead of the sidebar.
    pub top_nav_layout: bool,
}

// ── Queue entries ──────────────────────────────────────────────────────────

/// `i` is the first position of the queue that holds the download `id`.
pub open spec fn first_with_id(items: Seq<QueueItemInfo>, id: u64, i: int) -> bool {
    &&& 0 <= i < items.len()
    &&& items[i].id == id
    &&& forall|j: int| 0 <= j < i ==> items[j].id != id
}

/// The queue holds the download `id`.
pub open spec fn holds_id(items: Seq<QueueItemInfo>, id: u64) -> bool {
    exists|i: int| 0 <= i < items.len() && items[i].id == id
}

/// The first position of the queue that holds the download `id`.
pub open spec fn first_index(items: Seq<QueueItemInfo>, id: u64) -> int {
    choose|i: int| first_with_id(items, id, i)
}

/// `new` is `old` with its first entry for `id` replaced by an entry that
/// `change` relates to it, or `old` itself when no entry is for `id`.
pub open spec fn first_entry_changed(
    old: Seq<QueueItemInfo>,
    new: Seq<QueueItemInfo>,
    id: u64,
    change: spec_fn(QueueItemInfo, QueueItemInfo) -> bool,
) -> bool {
    if holds_id(old, id) {
        let i = first_index(old, id);
        &&& new.len() == old.len()
        &&& change(old[i], new[i])
        &&& forall|j: int| 0 <= j < old.len() && j != i ==> new[j] == old[j]
    } else {
        new == old
    }
}

/// The entry keeps its identity, title, platform and status, and takes the
/// reported progress, speed and remaining time.
pub open spec fn progressed(progress_bits: u32, speed_bits: u64, eta: Option<u64>) -> spec_fn(
    QueueItemInfo,
    QueueItemInfo,
) -> bool {
    |o: QueueItemInfo, n: QueueItemInfo|
        {
            &&& n.id == o.id
            &&& n.title == o.title
            &&& n.platform == o.platform
            &&& n.status == o.status
            &&& n.progress_bits == progress_bits
            &&& n.speed_bits == speed_bits
            &&& n.eta == eta
        }
}

/// The entry is marked `Complete` at 100 %, everything else kept.
pub open spec fn completed() -> spec_fn(QueueItemInfo, QueueItemInfo) -> bool {
    |o: QueueItemInfo, n: QueueItemInfo|
        {
            &&& n.id == o.id
            &&& n.title == o.title
            &&& n.platform == o.platform
            &&& n.status@ == "Complete"@
            &&& n.progress_bits == PROGRESS_COMPLETE_BITS
            &&& n.speed_bits == o.speed_bits
            &&& n.eta == o.eta
        }
}

/// The entry is marked `Error`, everything else kept.
pub open spec fn failed() -> spec_fn(QueueItemInfo, QueueItemInfo) -> bool {
    |o: QueueItemInfo, n: QueueItemInfo|
        {
            &&& n.id == o.id
            &&& n.title == o.title
            &&& n.platform == o.platform
            &&& n.status@ == "Error"@
            &&& n.progress_bits == o.progress_bits
            &&& n.speed_bits == o.speed_bits
            &&& n.eta == o.eta
        }
}

/// The number of queue entries whose status is `Active`.
pub open spec fn active_entries(items: Seq<QueueItemInfo>) -> nat
    decreases items.len(),
{
    if items.len() == 0 {
        0
    } else {
        active_entries(items.drop_last()) + if items.last().status@ == "Active"@ {
            1nat
        } else {
            0nat
        }
    }
}

// ── Log lines ──────────────────────────────────────────────────────────────

/// `new` is `old` with one more line at the end, whose text is `line`.
pub open spec fn line_appended(old: Seq<String>, new: Seq<String>, line: Seq<char>) -> bool {
    &&& new.len() == old.len() + 1
    &&& forall|j: int| 0 <= j < old.len() ==> new[j] == old[j]
    &&& new.last()@ == line
}

/// The log after a streamed line: the line is appended and, when that makes
/// the log longer than its capacity, the oldest line is dropped.
pub open spec fn streamed(old: Seq<String>, line: String) -> Seq<String> {
    if old.len() + 1 > LOG_CAPACITY {
        old.push(line).drop_first()
    } else {
        old.push(line)
    }
}

/// The line logged when a download finishes.
pub open spec fn completion_note(title: Seq<char>) -> Seq<char> {
    "\u{2713} ["@ + title + "] Completed successfully"@
}

/// The line logged when a queued download fails.
pub open spec fn failure_note(id: u64, error: Seq<char>) -> Seq<char> {
    "\u{2717} [ID #"@ + decimal(id as nat) + "] Error: "@ + error
}

/// The line logged when a download is queued.
pub open spec fn enqueue_note(url: Seq<char>) -> Seq<char> {
    "Enqueued download: "@ + url
}

// ── State relations ────────────────────────────────────────────────────────

/// The form, navigation and preferences are the same in both states.
pub open spec fn same_settings(a: AppModel, b: AppModel) -> bool {
    &&& a.current_tab == b.current_tab
    &&& a.theme == b.theme
    &&& a.input_url == b.input_url
    &&& a.output_dir == b.output_dir
    &&& a.audio_only == b.audio_only
    &&& a.selected_quality == b.selected_quality
    &&& a.selected_video_format == b.selected_video_format
    &&& a.selected_audio_format == b.selected_audio_format
    &&& a.selected_audio_quality == b.selected_audio_quality
    &&& a.concurrent_limit == b.concurrent_limit
    &&& a.auto_retry == b.auto_retry
    &&& a.show_persistent_logs == b.show_persistent_logs
    &&& a.top_nav_layout == b.top_nav_layout
}

/// The metadata preview is the same in both states.
pub open spec fn same_preview(a: AppModel, b: AppModel) -> bool {
    &&& a.media_info_loading == b.media_info_loading
    &&& a.media_info == b.media_info
    &&& a.media_info_error == b.media_info_error
}

/// The dependency flags are the same in both states.
pub open spec fn same_dependencies(a: AppModel, b: AppModel) -> bool {
    a.ytdlp_installed == b.ytdlp_installed && a.ffmpeg_installed == b.ffmpeg_installed
}

/// How an engine event moves the interface state from `a` to `b`.
pub open spec fn event_step(a: AppModel, b: AppModel, event: CoreEvent) -> bool {
    match event {
        CoreEvent::QueueUpdated(list) => {
            &&& b.items@ == list@
            &&& b.logs@ == a.logs@
            &&& same_preview(a, b)
            &&& same_dependencies(a, b)
        },
        CoreEvent::DownloadProgress { id, progress_bits, speed_bits, eta } => {
            &&& first_entry_changed(a.items@, b.items@, id, progressed(progress_bits, speed_bits, eta))
            &&& b.logs@ == a.logs@
            &&& same_preview(a, b)
            &&& same_dependencies(a, b)
        },
        CoreEvent::DownloadComplete { id, title } => {
            &&& first_entry_changed(a.items@, b.items@, id, completed())
            &&& line_appended(a.logs@, b.logs@, completion_note(title@))
            &&& same_preview(a, b)
            &&& same_dependencies(a, b)
        },
        CoreEvent::DownloadError { id, error } => {
            &&& first_entry_changed(a.items@, b.items@, id, failed())
            &&& if holds_id(a.items@, id) {
                line_appended(a.logs@, b.logs@, failure_note(id, error@))
            } else {
                b.logs@ == a.logs@
            }
            &&& same_preview(a, b)
            &&& same_dependencies(a, b)
        },
        CoreEvent::MediaInfoFetched(result) => {
            &&& !b.media_info_loading
            &&& match result {
                Ok(info) => b.media_info == Some(info) && b.media_info_error.is_none(),
                Err(e) => b.media_info.is_none() && b.media_info_error == Some(e),
            }
            &&& b.items@ == a.items@
            &&& b.logs@ == a.logs@
            &&& same_dependencies(a, b)
        },
        CoreEvent::DependencyStatus { ytdlp, ffmpeg } => {
            &&& b.ytdlp_installed == ytdlp
            &&& b.ffmpeg_installed == ffmpeg
            &&& b.items@ == a.items@
            &&& b.logs@ == a.logs@
            &&& same_preview(a, b)
        },
        CoreEvent::LogLine(line) => {
            &&& b.logs@ == streamed(a.logs@, line)
            &&& b.items@ == a.items@
            &&& same_preview(a, b)
            &&& same_dependencies(a, b)
        },
    }
}

/// Locates the first queue entry for the download `id`.
pub fn find_item(items: &Vec<QueueItemInfo>, id: u64) -> (r: Option<usize>)
    ensures
        match r {
            Some(i) => first_with_id(items@, id, i as int),
            None => !holds_id(items@, id),
        },
{
    let mut i: usize = 0;
    while i < items.len()
        invariant
            i <= items@.len(),
            forall|j: int| 0 <= j < i ==> items@[j].id != id,
        decreases items@.len() - i,
    {
        if items[i].id == id {
            return Some(i);
        }
        i = i + 1;
    }
    None
}

/// The first entry for an id is unique, so `first_index` names it.
proof fn lemma_first_index(items: Seq<QueueItemInfo>, id: u64, i: int)
    requires
        first_with_id(items, id, i),
    ensures
        holds_id(items, id),
        first_index(items, id) == i,
{
    let k = first_index(items, id);
    assert(first_with_id(items, id, k));
    if k < i {
        assert(items[k].id != id);
    } else if i < k {
        assert(items[i].id != id);
    }
}

impl AppModel {
    /// The state at start-up, saving into `output_dir`: home tab, plasma
    /// preset, empty queue and log, best video quality in MP4, MP3 audio at
    /// 320K, three concurrent downloads, automatic retries on.
    pub fn new(output_dir: String) -> (m: AppModel)
        ensures
            m.current_tab == Tab::Home,
            m.theme == BrandPreset::PlasmCore,
            m.items@.len() == 0,
            m.logs@.len() == 0,
            !m.ytdlp_installed,
            !m.ffmpeg_installed,
            m.input_url@.len() == 0,
            m.output_dir == output_dir,
            !m.audio_only,
            m.selected_quality@ == "Best"@,
            m.selected_video_format@ == "mp4"@,
            m.selected_audio_format@ == "mp3"@,
            m.selected_audio_quality@ == "320K"@,
            !m.media_info_loading,
            m.media_info.is_none(),
            m.media_info_error.is_none(),
            m.concurrent_limit == 3,
            m.auto_retry,
            !m.show_persistent_logs,
            !m.top_nav_layout,
    {
        AppModel {
            current_tab: Tab::Home,
            theme: BrandPreset::PlasmCore,
            items: Vec::new(),
            logs: Vec::new(),
            ytdlp_installed: false,
            ffmpeg_installed: false,
            input_url: String::new(),
            output_dir,
            audio_only: false,
            selected_quality: String::from_str("Best"),
            selected_video_format: String::from_str("mp4"),
            selected_audio_format: String::from_str("mp3"),
            selected_audio_quality: String::from_str("320K"),
            media_info_loading: false,
            media_info: None,
            media_info_error: None,
            concurrent_limit: 3,
            auto_retry: true,
            show_persistent_logs: false,
            top_nav_layout: false,
        }
    }

    /// The commands sent once the interface is up: a dependency check, then
    /// a queue refresh.
    pub fn startup_commands() -> (cmds: Vec<GuiCommand>)
        ensures
            cmds@.len() == 2,
            cmds@[0] == GuiCommand::CheckDependencies,
            cmds@[1] == GuiCommand::RefreshQueue,
    {
        let mut cmds = Vec::new();
        cmds.push(GuiCommand::CheckDependencies);
        cmds.push(GuiCommand::RefreshQueue);
        cmds
    }

    /// Folds one engine event into the state.
    pub fn apply_event(&mut self, event: CoreEvent)
        ensures
            event_step(*old(self), *final(self), event),
            same_settings(*old(self), *final(self)),
    {
        match event {
            CoreEvent::QueueUpdated(list) => {
                self.items = list;
            },
            CoreEvent::DownloadProgress { id, progress_bits, speed_bits, eta } => {
                match find_item(&self.items, id) {
                    Some(i) => {
                        proof {
                            lemma_first_index(self.items@, id, i as int);
                        }
                        let updated = QueueItemInfo {
                            id: self.items[i].id,
                            title: self.items[i].title.clone(),
                            platform: self.items[i].platform.clone(),
                            status: self.items[i].status.clone(),
                            progress_bits,
                            speed_bits,
                            eta,
                        };
                        self.items.set(i, updated);
                    },
                    None => {},
                }
            },
            CoreEvent::DownloadComplete { id, title } => {
                match find_item(&self.items, id) {
                    Some(i) => {
                        proof {
                            lemma_first_index(self.items@, id, i as int);
                        }
                        let updated = QueueItemInfo {
                            id: self.items[i].id,
                            title: self.items[i].title.clone(),
                            platform: self.items[i].platform.clone(),
                            status: String::from_str("Complete"),
                            progress_bits: PROGRESS_COMPLETE_BITS,
                            speed_bits: self.items[i].speed_bits,
                            eta: self.items[i].eta,
                        };
                        self.items.set(i, updated);
                    },
                    None => {},
                }
                let line = join3("\u{2713} [", title.as_str(), "] Completed successfully");
                self.logs.push(line);
            },
            CoreEvent::DownloadError { id, error } => {
                match find_item(&self.items, id) {
                    Some(i) => {
                        proof {
                            lemma_first_index(self.items@, id, i as int);
                        }
                        let updated = QueueItemInfo {
                            id: self.items[i].id,
                            title: self.items[i].title.clone(),
                            platform: self.items[i].platform.clone(),
                            status: String::from_str("Error"),
                            progress_bits: self.items[i].progress_bits,
                            speed_bits: self.items[i].speed_bits,
                            eta: self.items[i].eta,
                        };
                        self.items.set(i, updated);
                        let n = decimal_text(id);
                        let line = join4("\u{2717} [ID #", n.as_str(), "] Error: ", error.as_str());
                        self.logs.push(line);
                    },
                    None => {},
                }
            },
            CoreEvent::MediaInfoFetched(result) => {
                self.media_info_loading = false;
                match result {
                    Ok(info) => {
                        self.media_info = Some(info);
                        self.media_info_error = None;
                    },
                    Err(err) => {
                        self.media_info = None;
                        self.media_info_error = Some(err);
                    },
                }
            },
            CoreEvent::DependencyStatus { ytdlp, ffmpeg } => {
                self.ytdlp_installed = ytdlp;
                self.ffmpeg_installed = ffmpeg;
            },
            CoreEvent::LogLine(line) => {
                self.logs.push(line);
                if self.logs.len() > LOG_CAPACITY {
                    let _ = self.logs.remove(0);
                }
            },
        }
    }
}


// ── User actions ───────────────────────────────────────────────────────────

/// The command that queues the download typed in the form.
pub open spec fn start_command(a: AppModel) -> GuiCommand {
    GuiCommand::StartDownload {
        url: a.input_url,
        output_dir: a.output_dir,
        quality: Some(a.selected_quality),
        video_format: Some(a.selected_video_format),
        audio_format: Some(a.selected_audio_format),
        audio_quality: Some(a.selected_audio_quality),
        audio_only: a.audio_only,
    }
}

/// Pressing "Enqueue Download" in state `a` leads to `b` and sends `cmd`:
/// nothing happens without a URL; otherwise the download is queued with the
/// form's options, logged, the URL and preview are cleared and the queue tab
/// opens.
pub open spec fn enqueue_step(a: AppModel, b: AppModel, cmd: Option<GuiCommand>) -> bool {
    if a.input_url@.len() == 0 {
        cmd.is_none() && b == a
    } else {
        &&& cmd == Some(start_command(a))
        &&& line_appended(a.logs@, b.logs@, enqueue_note(a.input_url@))
        &&& b.input_url@.len() == 0
        &&& b == (AppModel {
            logs: b.logs,
            input_url: b.input_url,
            media_info: None,
            current_tab: Tab::Queue,
            ..a
        })
    }
}

/// Asking for a preview in state `a` leads to `b` and sends `cmd`: nothing
/// happens without a URL; otherwise a metadata request for the URL is sent
/// and the preview shows it loading.
pub open spec fn preview_step(a: AppModel, b: AppModel, cmd: Option<GuiCommand>) -> bool {
    if a.input_url@.len() == 0 {
        cmd.is_none() && b == a
    } else {
        &&& cmd == Some(GuiCommand::FetchMediaInfo { url: a.input_url })
        &&& b == (AppModel {
            media_info_loading: true,
            media_info: None,
            media_info_error: None,
            ..a
        })
    }
}

/// Choosing `tab` in state `a` leads to `b` and sends `cmd`: the tab opens,
/// and opening the queue asks the engine for a fresh queue.
pub open spec fn tab_step(a: AppModel, b: AppModel, tab: Tab, cmd: Option<GuiCommand>) -> bool {
    &&& b == (AppModel { current_tab: tab, ..a })
    &&& cmd == if tab == Tab::Queue {
        Some(GuiCommand::RefreshQueue)
    } else {
        None
    }
}

/// The layout hotkey in state `a` leads to `b`: sidebar and top bar swap.
pub open spec fn layout_step(a: AppModel, b: AppModel) -> bool {
    b == (AppModel { top_nav_layout: !a.top_nav_layout, ..a })
}

/// What the preview column of the home tab shows.
#[derive(Debug, Clone, Copy, PartialEq, Eq, Structural)]
pub enum PreviewPanel {
    /// Placeholders while a metadata request is in flight.
    Loading,
    /// The metadata laid over the media's thumbnail.
    Thumbnail,
    /// The metadata card.
    Metadata,
    /// The error of the last metadata request.
    Failure,
    /// The quick start guide.
    QuickStart,
}

impl AppModel {
    /// The panel of the preview column: placeholders while loading, then the
    /// metadata (over its thumbnail when one is at hand), else the last
    /// error, else the quick start guide.
    pub fn preview_panel(&self, has_thumbnail: bool) -> (p: PreviewPanel)
        ensures
            p == (if self.media_info_loading {
                PreviewPanel::Loading
            } else if self.media_info.is_some() {
                if has_thumbnail {
                    PreviewPanel::Thumbnail
                } else {
                    PreviewPanel::Metadata
                }
            } else if self.media_info_error.is_some() {
                PreviewPanel::Failure
            } else {
                PreviewPanel::QuickStart
            }),
    {
        if self.media_info_loading {
            PreviewPanel::Loading
        } else if self.media_info.is_some() {
            if has_thumbnail {
                PreviewPanel::Thumbnail
            } else {
                PreviewPanel::Metadata
            }
        } else if self.media_info_error.is_some() {
            PreviewPanel::Failure
        } else {
            PreviewPanel::QuickStart
        }
    }

    /// Opens a tab; opening the queue returns a refresh request for the
    /// engine.
    pub fn select_tab(&mut self, tab: Tab) -> (cmd: Option<GuiCommand>)
        ensures
            tab_step(*old(self), *final(self), tab, cmd),
    {
        self.current_tab = tab;
        if tab == Tab::Queue {
            Some(GuiCommand::RefreshQueue)
        } else {
            None
        }
    }

    /// The "Enqueue Download" action: returns the command to send, if any.
    pub fn enqueue_download(&mut self) -> (cmd: Option<GuiCommand>)
        ensures
            enqueue_step(*old(self), *final(self), cmd),
    {
        if self.input_url.as_str().is_empty() {
            return None;
        }
        let cmd = GuiCommand::StartDownload {
            url: self.input_url.clone(),
            output_dir: self.output_dir.clone(),
            quality: Some(self.selected_quality.clone()),
            video_format: Some(self.selected_video_format.clone()),
            audio_format: Some(self.selected_audio_format.clone()),
            audio_quality: Some(self.selected_audio_quality.clone()),
            audio_only: self.audio_only,
        };
        let mut line = String::from_str("Enqueued download: ");
        line.append(self.input_url.as_str());
        self.logs.push(line);
        self.input_url = String::new();
        self.media_info = None;
        self.current_tab = Tab::Queue;
        Some(cmd)
    }

    /// The "Inspect" action: returns the metadata request to send, if any.
    pub fn fetch_preview(&mut self) -> (cmd: Option<GuiCommand>)
        ensures
            preview_step(*old(self), *final(self), cmd),
    {
        if self.input_url.as_str().is_empty() {
            return None;
        }
        self.media_info_loading = true;
        self.media_info = None;
        self.media_info_error = None;
        Some(GuiCommand::FetchMediaInfo { url: self.input_url.clone() })
    }

    /// Swaps between the sidebar and the top-bar navigation.
    pub fn toggle_layout(&mut self)
        ensures
            layout_step(*old(self), *final(self)),
    {
        self.top_nav_layout = !self.top_nav_layout;
    }

    /// Switches the brand preset.
    pub fn set_theme(&mut self, preset: BrandPreset)
        ensures
            *final(self) == (AppModel { theme: preset, ..*old(self) }),
    {
        self.theme = preset;
    }

    /// Empties the activity log.
    pub fn clear_logs(&mut self)
        ensures
            final(self).logs@.len() == 0,
            *final(self) == (AppModel { logs: final(self).logs, ..*old(self) }),
    {
        self.logs = Vec::new();
    }

    /// The number of downloads whose status is `Active`.
    pub fn active_count(&self) -> (n: usize)
        ensures
            n == active_entries(self.items@),
    {
        let mut n: usize = 0;
        let mut i: usize = 0;
        while i < self.items.len()
            invariant
                i <= self.items@.len(),
                n == active_entries(self.items@.subrange(0, i as int)),
                n <= i,
            decreases self.items@.len() - i,
        {
            assert(self.items@.subrange(0, i + 1).drop_last() =~= self.items@.subrange(0, i as int));
            if same_text(self.items[i].status.as_str(), "Active") {
                n = n + 1;
            }
            i = i + 1;
        }
        assert(self.items@.subrange(0, i as int) =~= self.items@);
        n
    }
}


// ── Laws ───────────────────────────────────────────────────────────────────

/// A download is queued once per typed URL: right after a queued download
/// the form is empty, so pressing "Enqueue Download" again sends nothing and
/// changes nothing.
pub proof fn law_enqueue_sends_once(a: AppModel, b: AppModel, c: AppModel, first: Option<GuiCommand>, second: Option<GuiCommand>)
    requires
        enqueue_step(a, b, first),
        first.is_some(),
        enqueue_step(b, c, second),
    ensures
        second.is_none(),
        c == b,
{
}

/// The layout hotkey pressed twice restores the state.
pub proof fn law_layout_toggle_involutive(a: AppModel, b: AppModel, c: AppModel)
    requires
        layout_step(a, b),
        layout_step(b, c),
    ensures
        c == a,
{
}

/// A streamed log line never takes the log beyond its capacity, and it is
/// always the newest line afterwards.
pub proof fn law_log_stays_within_capacity(a: AppModel, b: AppModel, line: String)
    requires
        a.logs@.len() <= LOG_CAPACITY,
        event_step(a, b, CoreEvent::LogLine(line)),
    ensures
        b.logs@.len() <= LOG_CAPACITY,
        b.logs@.len() > 0,
        b.logs@.last() == line,
{
}

/// Progress reports never add, drop, reorder or re-label queue entries:
/// every position keeps its download id, title, platform and status.
pub proof fn law_progress_keeps_entries(
    a: AppModel,
    b: AppModel,
    id: u64,
    progress_bits: u32,
    speed_bits: u64,
    eta: Option<u64>,
)
    requires
        event_step(a, b, CoreEvent::DownloadProgress { id, progress_bits, speed_bits, eta }),
    ensures
        b.items@.len() == a.items@.len(),
        forall|j: int|
            0 <= j < a.items@.len() ==> {
                &&& #[trigger] b.items@[j].id == a.items@[j].id
                &&& b.items@[j].title == a.items@[j].title
                &&& b.items@[j].platform == a.items@[j].platform
                &&& b.items@[j].status == a.items@[j].status
            },
{
    if holds_id(a.items@, id) {
        let i = first_index(a.items@, id);
        assert(progressed(progress_bits, speed_bits, eta)(a.items@[i], b.items@[i]));
    }
}

/// Reports about a download that the queue does not hold leave the queue as
/// it is.
pub proof fn law_unknown_download_keeps_queue(a: AppModel, b: AppModel, event: CoreEvent)
    requires
        event_step(a, b, event),
        match event {
            CoreEvent::DownloadProgress { id, .. } => !holds_id(a.items@, id),
            CoreEvent::DownloadComplete { id, .. } => !holds_id(a.items@, id),
            CoreEvent::DownloadError { id, .. } => !holds_id(a.items@, id),
            _ => false,
        },
    ensures
        b.items@ == a.items@,
{
}

/// A preview request followed by the engine's answer settles the preview:
/// it is no longer loading, and it shows either the metadata or the error,
/// never both.
pub proof fn law_preview_settles(a: AppModel, b: AppModel, c: AppModel, cmd: Option<GuiCommand>, result: Result<MediaInfo, String>)
    requires
        preview_step(a, b, cmd),
        cmd.is_some(),
        event_step(b, c, CoreEvent::MediaInfoFetched(result)),
    ensures
        b.media_info_loading,
        !c.media_info_loading,
        c.media_info.is_some() != c.media_info_error.is_some(),
{
}

/// Queueing a download sends the form exactly as it stands: the command's
/// URL, output folder, quality, formats and audio-only flag are the form's.
pub proof fn law_enqueue_carries_form(a: AppModel, b: AppModel, cmd: Option<GuiCommand>)
    requires
        enqueue_step(a, b, cmd),
        a.input_url@.len() > 0,
    ensures
        match cmd {
            Some(GuiCommand::StartDownload { url, output_dir, quality, video_format, audio_format, audio_quality, audio_only }) => {
                &&& url == a.input_url
                &&& output_dir == a.output_dir
                &&& quality == Some(a.selected_quality)
                &&& video_format == Some(a.selected_video_format)
                &&& audio_format == Some(a.selected_audio_format)
                &&& audio_quality == Some(a.selected_audio_quality)
                &&& audio_only == a.audio_only
            },
            _ => false,
        },
{
}

/// Whether a queue entry is running.
pub open spec fn is_active_entry(item: QueueItemInfo) -> bool {
    item.status@ == "Active"@
}

/// The active-download count is the number of queue entries whose status is
/// exactly `Active`: the length of the queue filtered on that status, so an
/// entry in any other state adds nothing.
pub proof fn law_active_count_filters_queue(items: Seq<QueueItemInfo>)
    ensures
        active_entries(items) == items.filter(|item: QueueItemInfo| is_active_entry(item)).len(),
    decreases items.len(),
{
    reveal_with_fuel(Seq::filter, 2);
    if items.len() > 0 {
        law_active_count_filters_queue(items.drop_last());
    }
}

/// A queue that holds a download has a first entry for it.
proof fn lemma_first_index_exists(items: Seq<QueueItemInfo>, id: u64, k: int)
    requires
        0 <= k < items.len(),
        items[k].id == id,
    ensures
        first_with_id(items, id, first_index(items, id)),
    decreases k,
{
    if exists|j: int| 0 <= j < k && items[j].id == id {
        let j = choose|j: int| 0 <= j < k && items[j].id == id;
        lemma_first_index_exists(items, id, j);
    } else {
        assert(first_with_id(items, id, k));
    }
}

/// A finished download's entry reads `Complete` at 100 % and a failed one's
/// reads `Error`, with its identity, title and platform kept; every other
/// entry of the queue stays as it was, and the log gains the report line.
pub proof fn law_reports_settle_entries(a: AppModel, b: AppModel, event: CoreEvent)
    requires
        event_step(a, b, event),
        match event {
            CoreEvent::DownloadComplete { id, .. } => holds_id(a.items@, id),
            CoreEvent::DownloadError { id, .. } => holds_id(a.items@, id),
            _ => false,
        },
    ensures
        ({
            let id = match event {
                CoreEvent::DownloadComplete { id, .. } => id,
                CoreEvent::DownloadError { id, .. } => id,
                _ => 0,
            };
            let i = first_index(a.items@, id);
            &&& 0 <= i < a.items@.len()
            &&& a.items@[i].id == id
            &&& b.items@.len() == a.items@.len()
            &&& b.items@[i].id == id
            &&& b.items@[i].title == a.items@[i].title
            &&& b.items@[i].platform == a.items@[i].platform
            &&& forall|j: int| 0 <= j < a.items@.len() && j != i ==> b.items@[j] == a.items@[j]
            &&& b.logs@.len() == a.logs@.len() + 1
            &&& match event {
                CoreEvent::DownloadComplete { title, .. } => {
                    &&& b.items@[i].status@ == "Complete"@
                    &&& b.items@[i].progress_bits == 0x42c8_0000u32
                    &&& b.logs@.last()@ == "\u{2713} ["@ + title@ + "] Completed successfully"@
                },
                CoreEvent::DownloadError { error, .. } => {
                    &&& b.items@[i].status@ == "Error"@
                    &&& b.items@[i].progress_bits == a.items@[i].progress_bits
                    &&& b.logs@.last()@ == "\u{2717} [ID #"@ + decimal(id as nat) + "] Error: "@ + error@
                },
                _ => true,
            }
        }),
{
    match event {
        CoreEvent::DownloadComplete { id, .. } => {
            let k = choose|k: int| 0 <= k < a.items@.len() && a.items@[k].id == id;
            lemma_first_index_exists(a.items@, id, k);
            let i = first_index(a.items@, id);
            assert(completed()(a.items@[i], b.items@[i]));
        },
        CoreEvent::DownloadError { id, .. } => {
            let k = choose|k: int| 0 <= k < a.items@.len() && a.items@[k].id == id;
            lemma_first_index_exists(a.items@, id, k);
            let i = first_index(a.items@, id);
            assert(failed()(a.items@[i], b.items@[i]));
        },
        _ => {},
    }
}

} // verus!
