use orbit_cursor::audio::AudioStream;
use orbit_cursor::constants::WindowLabel;
use orbit_cursor::models::{
    take_stream_and_files, EditingState, GlobalState, PreviewState, RecordingState, SyncSignals,
    VideoTrackDetails, VideoTrackStartDetails,
};
use orbit_cursor::recording::session::resume_track_file;
use orbit_cursor::recording::models::RecordingFile;

type Session = RecordingState<&'static str, u32, &'static str>;

fn start(state: &mut Session, with_camera: bool) {
    let screen = VideoTrackStartDetails { path: "/r/screen-1.mp4".to_string(), handle: 10, capture_details: "screen" };
    let camera = if with_camera {
        Some(VideoTrackStartDetails { path: "/r/camera-1.mp4".to_string(), handle: 20, capture_details: "camera" })
    } else {
        None
    };
    state.recording_started(42, "sync", vec![1, 2], screen, camera);
}

#[test]
fn window_state_reads_back_what_was_reported() {
    let mut g = GlobalState::new();
    assert!(!g.is_window_open(&WindowLabel::StartRecordingDock));
    g.window_opened(WindowLabel::StartRecordingDock);
    assert!(g.is_window_open(&WindowLabel::StartRecordingDock));
    assert!(!g.is_window_open(&WindowLabel::RecordingSourceSelector));
    g.window_closed(WindowLabel::StartRecordingDock);
    assert!(!g.is_window_open(&WindowLabel::StartRecordingDock));
}

#[test]
fn untracked_windows_never_read_open() {
    let mut g = GlobalState::new();
    g.window_opened(WindowLabel::Editor);
    assert!(!g.is_window_open(&WindowLabel::Editor));
    g.window_opened(WindowLabel::RecordingInputOptions);
    assert!(g.is_window_open(&WindowLabel::RecordingInputOptions));
}

#[test]
fn previews_replace_and_remove() {
    let mut p: PreviewState<u8> = PreviewState::new();
    p.set_audio_stream(AudioStream::System, 1);
    p.set_audio_stream(AudioStream::System, 2);
    p.remove_audio_stream(AudioStream::Input);
    p.remove_audio_stream(AudioStream::System);
}

#[test]
fn session_starts_pauses_resumes_and_stops() {
    let mut s: Session = RecordingState::new();
    assert!(!s.is_recording() && !s.is_paused());
    start(&mut s, true);
    assert!(s.is_recording() && !s.is_paused());
    assert_eq!(s.recording_id, Some(42));

    let pause = s.pause_recording();
    assert_eq!(pause, SyncSignals { should_write: Some(false), stop: false, stop_video: true });
    assert!(s.is_paused());

    let resume = s.resume_recording(11, "/r/screen-2.mp4".to_string(), Some(21), Some("/r/camera-2.mp4".to_string()));
    assert_eq!(resume, SyncSignals { should_write: Some(true), stop: false, stop_video: false });
    assert!(!s.is_paused());

    let (stopped, sync, signals) = s.recording_stopped();
    assert_eq!(sync, Some("sync"));
    assert_eq!(signals, SyncSignals { should_write: Some(false), stop: true, stop_video: true });
    assert_eq!(stopped.recording_id, Some(42));
    assert_eq!(stopped.stream_handles, Some(vec![1, 2]));
    assert_eq!(stopped.screen_handle, Some(11));
    assert_eq!(stopped.screen_files, Some(vec!["/r/screen-1.mp4".to_string(), "/r/screen-2.mp4".to_string()]));
    assert_eq!(stopped.camera_handle, Some(21));
    assert_eq!(stopped.camera_files, Some(vec!["/r/camera-1.mp4".to_string(), "/r/camera-2.mp4".to_string()]));
    assert!(!s.is_recording());
    assert_eq!(s.recording_id, None);
    assert!(s.stream_sync.is_none());
}

#[test]
fn stopping_an_idle_session_signals_nothing() {
    let mut s: Session = RecordingState::new();
    let (stopped, sync, signals) = s.recording_stopped();
    assert_eq!(sync, None);
    assert_eq!(signals, SyncSignals { should_write: None, stop: false, stop_video: false });
    assert_eq!(stopped.recording_id, None);
    assert_eq!(stopped.screen_files, None);
}

#[test]
fn session_without_camera_has_no_camera_track() {
    let mut s: Session = RecordingState::new();
    start(&mut s, false);
    assert!(s.camera_capture_details.is_none());
    s.pause_recording();
    s.resume_recording(12, "/r/screen-2.mp4".to_string(), None, None);
    let (stopped, _, _) = s.recording_stopped();
    assert_eq!(stopped.camera_files, None);
    assert_eq!(stopped.screen_files.map(|f| f.len()), Some(2));
}

#[test]
fn resume_needs_id_and_synchronization() {
    let mut s: Session = RecordingState::new();
    assert_eq!(s.resumable_recording_id(), None);
    start(&mut s, false);
    assert_eq!(s.resumable_recording_id(), Some(42));
}

#[test]
fn resumed_tracks_get_fresh_files() {
    let mut s: Session = RecordingState::new();
    start(&mut s, false);
    let p = resume_track_file(&s.screen_capture_details, "/r", RecordingFile::Screen).unwrap();
    assert!(p.starts_with("/r/screen-") && p.ends_with(".mp4"));
    assert_eq!(resume_track_file(&s.camera_capture_details, "/r", RecordingFile::Camera), None);
    let no_capture: Option<VideoTrackDetails<&str, u32>> =
        Some(VideoTrackDetails { capture_details: None, files: None, stream_handle: None });
    assert_eq!(resume_track_file(&no_capture, "/r", RecordingFile::Camera), None);
}

#[test]
fn taking_a_track_leaves_none() {
    let mut t: Option<VideoTrackDetails<u8, u8>> =
        Some(VideoTrackDetails { capture_details: Some(1), files: Some(vec!["a".to_string()]), stream_handle: Some(2) });
    let (h, f) = take_stream_and_files(&mut t);
    assert_eq!(h, Some(2));
    assert_eq!(f, Some(vec!["a".to_string()]));
    assert!(t.is_none());
    assert_eq!(take_stream_and_files(&mut t), (None, None));
}

#[test]
fn editing_state_hands_out_the_export_once() {
    let mut e: EditingState<u8> = EditingState::new();
    assert!(!e.is_editing());
    e.editing_started();
    assert!(e.is_editing());
    e.set_export_process(5);
    assert_eq!(e.take_export_process(), Some(5));
    assert_eq!(e.take_export_process(), None);
}

#[test]
fn camera_segments_kept_across_resumes() {
    let mut s: Session = RecordingState::new();
    start(&mut s, true);
    for (i, camera) in [(2, true), (3, false), (4, true)] {
        s.pause_recording();
        let cam_file = if camera { Some(format!("/r/camera-{i}.mp4")) } else { None };
        s.resume_recording(10 + i, format!("/r/screen-{i}.mp4"), Some(20 + i), cam_file);
    }
    let (stopped, _, _) = s.recording_stopped();
    assert_eq!(
        stopped.screen_files,
        Some(vec![
            "/r/screen-1.mp4".to_string(),
            "/r/screen-2.mp4".to_string(),
            "/r/screen-3.mp4".to_string(),
            "/r/screen-4.mp4".to_string()
        ])
    );
    assert_eq!(
        stopped.camera_files,
        Some(vec!["/r/camera-1.mp4".to_string(), "/r/camera-2.mp4".to_string(), "/r/camera-4.mp4".to_string()])
    );
}

#[test]
fn window_reports_read_back_the_last_one() {
    let mut g = GlobalState::new();
    g.window_opened(WindowLabel::RecordingSourceSelector);
    g.window_opened(WindowLabel::StartRecordingDock);
    g.window_closed(WindowLabel::RecordingSourceSelector);
    g.window_opened(WindowLabel::Editor);
    assert!(g.is_window_open(&WindowLabel::StartRecordingDock));
    assert!(!g.is_window_open(&WindowLabel::RecordingSourceSelector));
    assert!(!g.is_window_open(&WindowLabel::RecordingInputOptions));
    assert!(!g.is_window_open(&WindowLabel::Editor));
}
