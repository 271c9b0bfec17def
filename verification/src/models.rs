//! Application state: which panels are open, which previews run, the
//! recording session and the export in progress.
//!
//! The session state is generic in what it carries but does not inspect:
//! the streams' synchronization `S`, thread handles `H`, capture details `C`
//! and export processes `P`. Transitions that must signal the streams
//! return the signals to deliver.
use vstd::prelude::*;

use crate::audio::AudioStream;
use crate::constants::WindowLabel;

verus! {

// ----------------------------------------------------------------------------
// Open windows
// ----------------------------------------------------------------------------

/// Windows whose open state is tracked.
pub open spec fn is_tracked_window(w: WindowLabel) -> bool {
    w == WindowLabel::StartRecordingDock || w == WindowLabel::RecordingInputOptions
        || w == WindowLabel::RecordingSourceSelector
}

/// Which of the tracked panels are open.
pub struct GlobalState {
    start_recording_dock: bool,
    recording_input_options: bool,
    recording_source_selector: bool,
}

impl View for GlobalState {
    type V = Map<WindowLabel, bool>;

    /// Open state of each tracked window.
    closed spec fn view(&self) -> Map<WindowLabel, bool> {
        Map::new(
            |w: WindowLabel| is_tracked_window(w),
            |w: WindowLabel|
                if w == WindowLabel::StartRecordingDock {
                    self.start_recording_dock
                } else if w == WindowLabel::RecordingInputOptions {
                    self.recording_input_options
                } else {
                    self.recording_source_selector
                },
        )
    }
}

impl GlobalState {
    /// All tracked windows start closed.
    pub fn new() -> (s: Self)
        ensures
            s@ == Map::new(|w: WindowLabel| is_tracked_window(w), |w: WindowLabel| false),
    {
        let s = GlobalState {
            start_recording_dock: false,
            recording_input_options: false,
            recording_source_selector: false,
        };
        assert(s@ =~= Map::new(|w: WindowLabel| is_tracked_window(w), |w: WindowLabel| false));
        s
    }

    fn set_open(&mut self, window: WindowLabel, open: bool)
        ensures
            final(self)@ == if is_tracked_window(window) {
                old(self)@.insert(window, open)
            } else {
                old(self)@
            },
    {
        match window {
            WindowLabel::StartRecordingDock => self.start_recording_dock = open,
            WindowLabel::RecordingInputOptions => self.recording_input_options = open,
            WindowLabel::RecordingSourceSelector => self.recording_source_selector = open,
            _ => {},
        }
        proof {
            if is_tracked_window(window) {
                assert(self@ =~= old(self)@.insert(window, open));
            } else {
                assert(self@ =~= old(self)@);
            }
        }
    }

    /// Marks a tracked window closed; other windows are not tracked.
    pub fn window_closed(&mut self, window: WindowLabel)
        ensures
            final(self)@ == if is_tracked_window(window) {
                old(self)@.insert(window, false)
            } else {
                old(self)@
            },
    {
        self.set_open(window, false);
    }

    /// Marks a tracked window open; other windows are not tracked.
    pub fn window_opened(&mut self, window: WindowLabel)
        ensures
            final(self)@ == if is_tracked_window(window) {
                old(self)@.insert(window, true)
            } else {
                old(self)@
            },
    {
        self.set_open(window, true);
    }

    /// Is `window` tracked and open?
    pub fn is_window_open(&self, window: &WindowLabel) -> (open: bool)
        ensures
            open == (self@.contains_key(*window) && self@[*window]),
    {
        match window {
            WindowLabel::StartRecordingDock => self.start_recording_dock,
            WindowLabel::RecordingInputOptions => self.recording_input_options,
            WindowLabel::RecordingSourceSelector => self.recording_source_selector,
            _ => false,
        }
    }
}

/// What was last reported for a window is what is read back: after it is
/// opened it reads as open exactly when it is tracked, after it is closed it
/// reads as closed, and the other windows read as before.
pub proof fn law_window_state_read_back(s: GlobalState, w: WindowLabel, other: WindowLabel, open: bool)
    requires
        other != w,
    ensures
        ({
            let after = if is_tracked_window(w) { s@.insert(w, open) } else { s@ };
            &&& (after.contains_key(w) && after[w]) == (is_tracked_window(w) && open)
            &&& (after.contains_key(other) && after[other]) == (s@.contains_key(other) && s@[other])
        }),
{
}

/// The open state after each report in turn: a window reported opened
/// (`true`) or closed (`false`) reads so when it is tracked; other windows
/// are not tracked.
pub open spec fn after_reports(m: Map<WindowLabel, bool>, reports: Seq<(WindowLabel, bool)>) -> Map<
    WindowLabel,
    bool,
>
    decreases reports.len(),
{
    if reports.len() == 0 {
        m
    } else {
        let prev = after_reports(m, reports.drop_last());
        let (w, open) = reports.last();
        if is_tracked_window(w) {
            prev.insert(w, open)
        } else {
            prev
        }
    }
}

/// The last report made of `w`, if any.
pub open spec fn last_report(reports: Seq<(WindowLabel, bool)>, w: WindowLabel) -> Option<bool>
    decreases reports.len(),
{
    if reports.len() == 0 {
        None
    } else if reports.last().0 == w {
        Some(reports.last().1)
    } else {
        last_report(reports.drop_last(), w)
    }
}

/// From the state a new [`GlobalState`] starts in, after any sequence of
/// opened and closed reports, a window reads as open exactly when it is
/// tracked and the last report made of it said it opened; every other
/// window reads as closed, even right after it was reported opened.
pub proof fn law_window_reports_read_back(reports: Seq<(WindowLabel, bool)>, w: WindowLabel)
    ensures
        ({
            let m = after_reports(
                Map::new(|x: WindowLabel| is_tracked_window(x), |x: WindowLabel| false),
                reports,
            );
            &&& m.contains_key(w) == is_tracked_window(w)
            &&& (m.contains_key(w) && m[w]) == (is_tracked_window(w) && last_report(reports, w) == Some(true))
        }),
    decreases reports.len(),
{
    if reports.len() > 0 {
        law_window_reports_read_back(reports.drop_last(), w);
    }
}

// ----------------------------------------------------------------------------
// Previews
// ----------------------------------------------------------------------------

/// Audio previews that are running, at most one per source.
pub struct PreviewState<T> {
    system_stream: Option<T>,
    input_stream: Option<T>,
}

impl<T> View for PreviewState<T> {
    type V = Map<AudioStream, T>;

    closed spec fn view(&self) -> Map<AudioStream, T> {
        let with_system = match self.system_stream {
            Some(s) => Map::empty().insert(AudioStream::System, s),
            None => Map::empty(),
        };
        match self.input_stream {
            Some(s) => with_system.insert(AudioStream::Input, s),
            None => with_system,
        }
    }
}

impl<T> PreviewState<T> {
    pub fn new() -> (s: Self)
        ensures
            s@ == Map::<AudioStream, T>::empty(),
    {
        PreviewState { system_stream: None, input_stream: None }
    }

    /// Keeps `stream` as the preview of `stream_key`, replacing (and
    /// dropping) any earlier one.
    pub fn set_audio_stream(&mut self, stream_key: AudioStream, stream: T)
        ensures
            final(self)@ == old(self)@.insert(stream_key, stream),
    {
        match stream_key {
            AudioStream::System => self.system_stream = Some(stream),
            AudioStream::Input => self.input_stream = Some(stream),
        }
        assert(self@ =~= old(self)@.insert(stream_key, stream));
    }

    /// Drops the preview of `stream_key`, which stops it.
    pub fn remove_audio_stream(&mut self, stream_key: AudioStream)
        ensures
            final(self)@ == old(self)@.remove(stream_key),
    {
        match stream_key {
            AudioStream::System => self.system_stream = None,
            AudioStream::Input => self.input_stream = None,
        }
        assert(self@ =~= old(self)@.remove(stream_key));
    }
}

// ----------------------------------------------------------------------------
// Video tracks
// ----------------------------------------------------------------------------

/// A video track of a recording: how it is captured, the segment files
/// written so far (one per resume) and the handle of its current writer.
#[derive(Debug, Clone)]
pub struct VideoTrackDetails<C, H> {
    pub capture_details: Option<C>,
    pub files: Option<Vec<String>>,
    pub stream_handle: Option<H>,
}

/// A video track as plain values.
pub struct TrackView<C, H> {
    pub capture_details: Option<C>,
    pub files: Option<Seq<String>>,
    pub stream_handle: Option<H>,
}

pub open spec fn files_view(files: Option<Vec<String>>) -> Option<Seq<String>> {
    match files {
        Some(v) => Some(v@),
        None => None,
    }
}

impl<C, H> View for VideoTrackDetails<C, H> {
    type V = TrackView<C, H>;

    open spec fn view(&self) -> TrackView<C, H> {
        TrackView {
            capture_details: self.capture_details,
            files: files_view(self.files),
            stream_handle: self.stream_handle,
        }
    }
}

pub open spec fn track_view<C, H>(t: Option<VideoTrackDetails<C, H>>) -> Option<TrackView<C, H>> {
    match t {
        Some(d) => Some(d@),
        None => None,
    }
}

impl<C, H> TrackView<C, H> {
    /// A new segment: its writer replaces the current one and its file,
    /// when there is one and the track keeps files, is added at the end.
    pub open spec fn with_segment(self, handle: Option<H>, file: Option<String>) -> TrackView<C, H> {
        TrackView {
            capture_details: self.capture_details,
            files: match (self.files, file) {
                (Some(fs), Some(f)) => Some(fs.push(f)),
                _ => self.files,
            },
            stream_handle: handle,
        }
    }
}

impl<C, H> VideoTrackDetails<C, H> {
    /// Records a new segment (see [`TrackView::with_segment`]).
    pub fn add_segment(&mut self, handle: Option<H>, file: Option<String>)
        ensures
            final(self)@ == old(self)@.with_segment(handle, file),
    {
        self.stream_handle = handle;
        let files = self.files.take();
        self.files = match (files, file) {
            (Some(mut fs), Some(f)) => {
                fs.push(f);
                Some(fs)
            },
            (fs, _) => fs,
        };
    }
}

/// Takes the track out, leaving none, and returns its writer handle and
/// segment files.
pub fn take_stream_and_files<C, H>(track: &mut Option<VideoTrackDetails<C, H>>) -> (r: (
    Option<H>,
    Option<Vec<String>>,
))
    ensures
        *final(track) is None,
        match *old(track) {
            Some(d) => r.0 == d.stream_handle && files_view(r.1) == files_view(d.files),
            None => r.0 is None && r.1 is None,
        },
{
    match track.take() {
        Some(details) => (details.stream_handle, details.files),
        None => (None, None),
    }
}

/// A video track at the moment its first segment starts.
pub struct VideoTrackStartDetails<C, H> {
    pub path: String,
    pub handle: H,
    pub capture_details: C,
}

impl<C, H> VideoTrackStartDetails<C, H> {
    /// The track with this single segment.
    pub open spec fn track(self) -> TrackView<C, H> {
        TrackView {
            capture_details: Some(self.capture_details),
            files: Some(seq![self.path]),
            stream_handle: Some(self.handle),
        }
    }

    pub fn into_video_track_details(self) -> (d: VideoTrackDetails<C, H>)
        ensures
            d@ == self.track(),
    {
        let mut files: Vec<String> = Vec::new();
        files.push(self.path);
        let d = VideoTrackDetails {
            capture_details: Some(self.capture_details),
            files: Some(files),
            stream_handle: Some(self.handle),
        };
        assert(d@.files == Some(seq![self.path]));
        d
    }
}

// ----------------------------------------------------------------------------
// Recording session
// ----------------------------------------------------------------------------

/// What the streams' synchronization is told after a transition:
/// whether to write samples (when `Some`), and whether to stop all streams
/// or only the video streams.
#[derive(Debug, Clone, Copy, PartialEq, Eq)]
pub struct SyncSignals {
    pub should_write: Option<bool>,
    pub stop: bool,
    pub stop_video: bool,
}

impl SyncSignals {
    pub open spec fn none() -> SyncSignals {
        SyncSignals { should_write: None, stop: false, stop_video: false }
    }

    /// Pausing: stop writing and stop the video writers, which time frames
    /// by the wall clock and would otherwise keep the paused time.
    pub open spec fn pause() -> SyncSignals {
        SyncSignals { should_write: Some(false), stop: false, stop_video: true }
    }

    /// Resuming: write again.
    pub open spec fn resume() -> SyncSignals {
        SyncSignals { should_write: Some(true), stop: false, stop_video: false }
    }

    /// Stopping: stop writing and stop every stream.
    pub open spec fn stop_all() -> SyncSignals {
        SyncSignals { should_write: Some(false), stop: true, stop_video: true }
    }
}

/// What a stopped recording leaves behind.
pub struct StoppedRecording<H> {
    pub recording_id: Option<i64>,
    pub stream_handles: Option<Vec<H>>,
    pub screen_handle: Option<H>,
    pub screen_files: Option<Vec<String>>,
    pub camera_handle: Option<H>,
    pub camera_files: Option<Vec<String>>,
}

/// A stopped recording as plain values.
pub struct StoppedView<H> {
    pub recording_id: Option<i64>,
    pub stream_handles: Option<Seq<H>>,
    pub screen_handle: Option<H>,
    pub screen_files: Option<Seq<String>>,
    pub camera_handle: Option<H>,
    pub camera_files: Option<Seq<String>>,
}

pub open spec fn handles_view<H>(h: Option<Vec<H>>) -> Option<Seq<H>> {
    match h {
        Some(v) => Some(v@),
        None => None,
    }
}

impl<H> View for StoppedRecording<H> {
    type V = StoppedView<H>;

    open spec fn view(&self) -> StoppedView<H> {
        StoppedView {
            recording_id: self.recording_id,
            stream_handles: handles_view(self.stream_handles),
            screen_handle: self.screen_handle,
            screen_files: files_view(self.screen_files),
            camera_handle: self.camera_handle,
            camera_files: files_view(self.camera_files),
        }
    }
}

/// The recording session: whether it records and is paused, its database
/// id, the streams' synchronization, the audio and input writer threads,
/// and the screen and camera tracks.
pub struct RecordingState<S, H, C> {
    pub is_recording: bool,
    pub is_paused: bool,
    pub recording_id: Option<i64>,
    pub stream_sync: Option<S>,
    pub stream_handles: Option<Vec<H>>,
    pub screen_capture_details: Option<VideoTrackDetails<C, H>>,
    pub camera_capture_details: Option<VideoTrackDetails<C, H>>,
}

/// The session as plain values.
pub struct RecordingView<S, H, C> {
    pub is_recording: bool,
    pub is_paused: bool,
    pub recording_id: Option<i64>,
    pub stream_sync: Option<S>,
    pub stream_handles: Option<Seq<H>>,
    pub screen: Option<TrackView<C, H>>,
    pub camera: Option<TrackView<C, H>>,
}

impl<S, H, C> View for RecordingState<S, H, C> {
    type V = RecordingView<S, H, C>;

    open spec fn view(&self) -> RecordingView<S, H, C> {
        RecordingView {
            is_recording: self.is_recording,
            is_paused: self.is_paused,
            recording_id: self.recording_id,
            stream_sync: self.stream_sync,
            stream_handles: handles_view(self.stream_handles),
            screen: track_view(self.screen_capture_details),
            camera: track_view(self.camera_capture_details),
        }
    }
}

/// The idle session: not recording, nothing held.
pub open spec fn idle_session<S, H, C>() -> RecordingView<S, H, C> {
    RecordingView {
        is_recording: false,
        is_paused: false,
        recording_id: None,
        stream_sync: None,
        stream_handles: None,
        screen: None,
        camera: None,
    }
}

/// The session once every stream has started.
pub open spec fn started_session<S, H, C>(
    recording_id: i64,
    stream_sync: S,
    stream_handles: Seq<H>,
    screen: VideoTrackStartDetails<C, H>,
    camera: Option<VideoTrackStartDetails<C, H>>,
) -> RecordingView<S, H, C> {
    RecordingView {
        is_recording: true,
        is_paused: false,
        recording_id: Some(recording_id),
        stream_sync: Some(stream_sync),
        stream_handles: Some(stream_handles),
        screen: Some(screen.track()),
        camera: match camera {
            Some(c) => Some(c.track()),
            None => None,
        },
    }
}

/// The session after a pause: only the pause flag changes.
pub open spec fn paused_session<S, H, C>(v: RecordingView<S, H, C>) -> RecordingView<S, H, C> {
    RecordingView { is_paused: true, ..v }
}

/// Signals of a pause: none when there is no synchronization.
pub open spec fn pause_signals<S, H, C>(v: RecordingView<S, H, C>) -> SyncSignals {
    if v.stream_sync is Some { SyncSignals::pause() } else { SyncSignals::none() }
}

/// The session after a resume: each track gets its new segment and the
/// session is no longer paused.
pub open spec fn resumed_session<S, H, C>(
    v: RecordingView<S, H, C>,
    screen_handle: H,
    screen_file: String,
    camera_handle: Option<H>,
    camera_file: Option<String>,
) -> RecordingView<S, H, C> {
    RecordingView {
        is_paused: false,
        screen: match v.screen {
            Some(t) => Some(t.with_segment(Some(screen_handle), Some(screen_file))),
            None => None,
        },
        camera: match v.camera {
            Some(t) => Some(t.with_segment(camera_handle, camera_file)),
            None => None,
        },
        ..v
    }
}

/// Signals of a resume: none when there is no synchronization.
pub open spec fn resume_signals<S, H, C>(v: RecordingView<S, H, C>) -> SyncSignals {
    if v.stream_sync is Some { SyncSignals::resume() } else { SyncSignals::none() }
}

/// What stopping hands back: the id, the writer threads, and each track's
/// current writer and segment files.
pub open spec fn stopped_parts<S, H, C>(v: RecordingView<S, H, C>) -> StoppedView<H> {
    StoppedView {
        recording_id: v.recording_id,
        stream_handles: v.stream_handles,
        screen_handle: match v.screen {
            Some(t) => t.stream_handle,
            None => None,
        },
        screen_files: match v.screen {
            Some(t) => t.files,
            None => None,
        },
        camera_handle: match v.camera {
            Some(t) => t.stream_handle,
            None => None,
        },
        camera_files: match v.camera {
            Some(t) => t.files,
            None => None,
        },
    }
}

/// Signals of a stop: none when there is no synchronization.
pub open spec fn stop_signals<S, H, C>(v: RecordingView<S, H, C>) -> SyncSignals {
    if v.stream_sync is Some { SyncSignals::stop_all() } else { SyncSignals::none() }
}

impl<S, H, C> RecordingState<S, H, C> {
    pub fn new() -> (s: Self)
        ensures
            s@ == idle_session::<S, H, C>(),
    {
        RecordingState {
            is_recording: false,
            is_paused: false,
            recording_id: None,
            stream_sync: None,
            stream_handles: None,
            screen_capture_details: None,
            camera_capture_details: None,
        }
    }

    /// Enters the recording state once every stream has started. The screen
    /// and the camera start their first segment; without a camera there is
    /// no camera track.
    pub fn recording_started(
        &mut self,
        recording_id: i64,
        stream_sync: S,
        stream_handles: Vec<H>,
        screen_recorder: VideoTrackStartDetails<C, H>,
        camera_recorder: Option<VideoTrackStartDetails<C, H>>,
    )
        ensures
            final(self)@ == started_session(
                recording_id,
                stream_sync,
                stream_handles@,
                screen_recorder,
                camera_recorder,
            ),
    {
        self.is_recording = true;
        self.is_paused = false;
        self.recording_id = Some(recording_id);
        self.stream_sync = Some(stream_sync);
        self.stream_handles = Some(stream_handles);
        self.screen_capture_details = Some(screen_recorder.into_video_track_details());
        if let Some(camera_recorder) = camera_recorder {
            self.camera_capture_details = Some(camera_recorder.into_video_track_details());
        } else {
            self.camera_capture_details = None;
        }
    }

    /// Leaves the recording state. Returns what the session held, its
    /// synchronization and the signals to send it (stop everything).
    pub fn recording_stopped(&mut self) -> (r: (StoppedRecording<H>, Option<S>, SyncSignals))
        ensures
            final(self)@ == idle_session::<S, H, C>(),
            r.0@ == stopped_parts(old(self)@),
            r.1 == old(self)@.stream_sync,
            r.2 == stop_signals(old(self)@),
    {
        self.is_recording = false;
        self.is_paused = false;
        let stream_sync = self.stream_sync.take();
        let signals = if stream_sync.is_some() {
            SyncSignals { should_write: Some(false), stop: true, stop_video: true }
        } else {
            SyncSignals { should_write: None, stop: false, stop_video: false }
        };
        let (screen_handle, screen_files) = take_stream_and_files(&mut self.screen_capture_details);
        let (camera_handle, camera_files) = take_stream_and_files(&mut self.camera_capture_details);
        let stopped = StoppedRecording {
            recording_id: self.recording_id.take(),
            stream_handles: self.stream_handles.take(),
            screen_handle,
            screen_files,
            camera_handle,
            camera_files,
        };
        (stopped, stream_sync, signals)
    }

    /// Pauses: the session keeps everything and the streams are told to
    /// stop writing, the video writers to stop.
    pub fn pause_recording(&mut self) -> (signals: SyncSignals)
        ensures
            final(self)@ == paused_session(old(self)@),
            signals == pause_signals(old(self)@),
    {
        self.is_paused = true;
        if self.stream_sync.is_some() {
            SyncSignals { should_write: Some(false), stop: false, stop_video: true }
        } else {
            SyncSignals { should_write: None, stop: false, stop_video: false }
        }
    }

    /// Resumes with new video writers: each track records its new segment
    /// and the streams are told to write again.
    pub fn resume_recording(
        &mut self,
        screen_stream_handle: H,
        screen_file: String,
        camera_stream_handle: Option<H>,
        camera_file: Option<String>,
    ) -> (signals: SyncSignals)
        ensures
            final(self)@ == resumed_session(
                old(self)@,
                screen_stream_handle,
                screen_file,
                camera_stream_handle,
                camera_file,
            ),
            signals == resume_signals(old(self)@),
    {
        let screen = self.screen_capture_details.take();
        self.screen_capture_details = match screen {
            Some(mut details) => {
                details.add_segment(Some(screen_stream_handle), Some(screen_file));
                Some(details)
            },
            None => None,
        };
        let camera = self.camera_capture_details.take();
        self.camera_capture_details = match camera {
            Some(mut details) => {
                details.add_segment(camera_stream_handle, camera_file);
                Some(details)
            },
            None => None,
        };
        self.is_paused = false;
        if self.stream_sync.is_some() {
            SyncSignals { should_write: Some(true), stop: false, stop_video: false }
        } else {
            SyncSignals { should_write: None, stop: false, stop_video: false }
        }
    }

    pub fn is_recording(&self) -> (b: bool)
        ensures
            b == self@.is_recording,
    {
        self.is_recording
    }

    pub fn is_paused(&self) -> (b: bool)
        ensures
            b == self@.is_paused,
    {
        self.is_paused
    }
}

// ----------------------------------------------------------------------------
// Laws of the session
// ----------------------------------------------------------------------------

/// One resume: the screen's new writer and segment file, and the camera's
/// new writer and segment file when the camera resumed.
pub struct ResumeStep<H> {
    pub screen_handle: H,
    pub screen_file: String,
    pub camera_handle: Option<H>,
    pub camera_file: Option<String>,
}

/// Pausing and resuming once for each step, in order.
pub open spec fn pause_resume_all<S, H, C>(
    v: RecordingView<S, H, C>,
    steps: Seq<ResumeStep<H>>,
) -> RecordingView<S, H, C>
    decreases steps.len(),
{
    if steps.len() == 0 {
        v
    } else {
        let before = pause_resume_all(v, steps.drop_last());
        let r = steps.last();
        resumed_session(paused_session(before), r.screen_handle, r.screen_file, r.camera_handle, r.camera_file)
    }
}

/// The screen segment files of the steps, in order.
pub open spec fn screen_files_of<H>(steps: Seq<ResumeStep<H>>) -> Seq<String>
    decreases steps.len(),
{
    if steps.len() == 0 {
        Seq::empty()
    } else {
        screen_files_of(steps.drop_last()).push(steps.last().screen_file)
    }
}

/// The camera segment files of the steps that have one, in order.
pub open spec fn camera_files_of<H>(steps: Seq<ResumeStep<H>>) -> Seq<String>
    decreases steps.len(),
{
    if steps.len() == 0 {
        Seq::empty()
    } else {
        let rest = camera_files_of(steps.drop_last());
        match steps.last().camera_file {
            Some(f) => rest.push(f),
            None => rest,
        }
    }
}

/// A session that starts with a screen segment (and a camera segment when
/// there is a camera), is paused and resumed any number of times, and is
/// then stopped hands back every segment in the order recorded: the first
/// screen segment followed by each resumed one, and, with a camera, the
/// first camera segment followed by each resumed camera segment. It is
/// recording and not paused until it stops, keeps its id, writer threads
/// and synchronization, and the stop tells every stream to stop.
pub proof fn law_session_keeps_every_segment<S, H, C>(
    recording_id: i64,
    stream_sync: S,
    stream_handles: Seq<H>,
    screen: VideoTrackStartDetails<C, H>,
    camera: Option<VideoTrackStartDetails<C, H>>,
    steps: Seq<ResumeStep<H>>,
)
    ensures
        ({
            let running = pause_resume_all(
                started_session(recording_id, stream_sync, stream_handles, screen, camera),
                steps,
            );
            let stopped = stopped_parts(running);
            &&& running.is_recording
            &&& !running.is_paused
            &&& running.recording_id == Some(recording_id)
            &&& running.stream_sync == Some(stream_sync)
            &&& stopped.recording_id == Some(recording_id)
            &&& stopped.stream_handles == Some(stream_handles)
            &&& stopped.screen_files == Some(seq![screen.path] + screen_files_of(steps))
            &&& stopped.camera_files == match camera {
                Some(c) => Some(seq![c.path] + camera_files_of(steps)),
                None => None,
            }
            &&& stop_signals(running) == SyncSignals::stop_all()
        }),
    decreases steps.len(),
{
    if steps.len() == 0 {
        assert(seq![screen.path] + screen_files_of(steps) =~= seq![screen.path]);
        if let Some(c) = camera {
            assert(seq![c.path] + camera_files_of(steps) =~= seq![c.path]);
        }
    } else {
        let prev = steps.drop_last();
        law_session_keeps_every_segment(recording_id, stream_sync, stream_handles, screen, camera, prev);
        assert(seq![screen.path] + screen_files_of(steps) =~= (seq![screen.path] + screen_files_of(prev)).push(
            steps.last().screen_file,
        ));
        if let Some(c) = camera {
            if let Some(f) = steps.last().camera_file {
                assert(seq![c.path] + camera_files_of(steps) =~= (seq![c.path] + camera_files_of(prev)).push(f));
            }
        }
    }
}

/// A pause followed by a resume leaves the session recording and not
/// paused, sends opposite write signals, and adds exactly the new segment to
/// the screen track.
pub proof fn law_pause_then_resume<S, H, C>(
    v: RecordingView<S, H, C>,
    handle: H,
    file: String,
)
    requires
        v.is_recording,
        v.stream_sync is Some,
        v.screen matches Some(t) && t.files is Some,
    ensures
        ({
            let after = resumed_session(paused_session(v), handle, file, None, None);
            &&& after.is_recording
            &&& !after.is_paused
            &&& pause_signals(v).should_write == Some(false)
            &&& resume_signals(paused_session(v)).should_write == Some(true)
            &&& after.screen->0.files == Some(v.screen->0.files->0.push(file))
            &&& after.screen->0.stream_handle == Some(handle)
        }),
{
}

/// Stopping is final: a stop hands back every track's segments, and a
/// second stop, made on the idle session the first one leaves, hands back
/// nothing and signals nothing.
pub proof fn law_stop_ends_idle<S, H, C>(v: RecordingView<S, H, C>)
    ensures
        stopped_parts(v).screen_files == match v.screen {
            Some(t) => t.files,
            None => None,
        },
        stopped_parts(v).camera_files == match v.camera {
            Some(t) => t.files,
            None => None,
        },
        !idle_session::<S, H, C>().is_recording,
        stopped_parts(idle_session::<S, H, C>()) == (StoppedView::<H> {
            recording_id: None,
            stream_handles: None,
            screen_handle: None,
            screen_files: None,
            camera_handle: None,
            camera_files: None,
        }),
        stop_signals(idle_session::<S, H, C>()) == SyncSignals::none(),
{
}

// ----------------------------------------------------------------------------
// Editing
// ----------------------------------------------------------------------------

/// The editor: whether it is in use and the export being encoded, if any.
pub struct EditingState<P> {
    pub is_editing: bool,
    pub export_process: Option<P>,
}

impl<P> EditingState<P> {
    pub fn new() -> (s: Self)
        ensures
            !s.is_editing,
            s.export_process is None,
    {
        EditingState { is_editing: false, export_process: None }
    }

    /// The editor opened on a finished recording.
    pub fn editing_started(&mut self)
        ensures
            final(self).is_editing,
            final(self).export_process == old(self).export_process,
    {
        self.is_editing = true;
    }

    pub fn is_editing(&self) -> (b: bool)
        ensures
            b == self.is_editing,
    {
        self.is_editing
    }

    /// Keeps the running export so that it can be cancelled.
    pub fn set_export_process(&mut self, export_process: P)
        ensures
            final(self).export_process == Some(export_process),
            final(self).is_editing == old(self).is_editing,
    {
        self.export_process = Some(export_process);
    }

    /// Takes the running export out, leaving none.
    pub fn take_export_process(&mut self) -> (p: Option<P>)
        ensures
            p == old(self).export_process,
            final(self).export_process is None,
            final(self).is_editing == old(self).is_editing,
    {
        self.export_process.take()
    }
}

} // verus!
