use ffmpeg_sidecar::command::FfmpegCommand;
use orbit_cursor::models::StoppedRecording;
use orbit_cursor::recording::audio::{AudioSampleWriter, TailBuffer};
use orbit_cursor::recording::ffmpeg::{
    audio_command, choose_hardware_encoder, concat_command, frame_writer_command, rawvideo_command,
    segment_list_contents, segment_list_path, CropArea, FfmpegInputDetails, TargetOs,
};
use orbit_cursor::recording::file::{folder_size_bytes, try_folder_size_bytes, FsEntry};
use orbit_cursor::recording::input_events::{InputEventKind, MouseRecordKind, MoveThrottle};
use orbit_cursor::recording::models::{RecordingFile, RecordingFileSet, RecordingManifest, RecordingType};
use orbit_cursor::recording::screen::{next_frame_buffer, pack_nv12_frame};
use orbit_cursor::recording::session::{
    plan_stop, ready_barrier_count, recording_session_directory, session_timestamp, LocalTime,
};

fn args_of(cmd: &FfmpegCommand) -> Vec<String> {
    cmd.get_args().map(|a| a.to_string_lossy().into_owned()).collect()
}

fn strings(items: &[&str]) -> Vec<String> {
    items.iter().map(|s| s.to_string()).collect()
}

fn is_uuid(s: &str) -> bool {
    let groups: Vec<&str> = s.split('-').collect();
    groups.len() == 5
        && [8, 4, 4, 4, 12].iter().zip(groups.iter()).all(|(n, g)| g.len() == *n)
        && s.chars().all(|c| c == '-' || c.is_ascii_digit() || ('a'..='f').contains(&c))
}

#[test]
fn tail_buffer_holds_back_its_capacity() {
    let mut t = TailBuffer::new(4);
    let mut out = Vec::new();
    t.push_and_write(&[1, 2, 3], &mut out);
    assert!(out.is_empty());
    t.push_and_write(&[4, 5, 6], &mut out);
    assert_eq!(out, vec![1, 2]);
    t.push_and_write(&[7], &mut out);
    assert_eq!(out, vec![1, 2, 3]);
}

#[test]
fn tail_buffer_with_no_capacity_holds_nothing_back() {
    let mut t = TailBuffer::new(0);
    let mut out = Vec::new();
    t.push_and_write(&[1, 2], &mut out);
    assert_eq!(out, vec![1, 2]);
    t.push_and_write(&[3], &mut out);
    assert_eq!(out, vec![1, 2, 3]);
}

#[test]
fn tail_buffer_holds_back_only_its_capacity_of_a_large_push() {
    let mut t = TailBuffer::new(2);
    let mut out = Vec::new();
    t.push_and_write(&[1, 2, 3, 4, 5], &mut out);
    assert_eq!(out, vec![1, 2, 3]);
    t.push_and_write(&[6], &mut out);
    assert_eq!(out, vec![1, 2, 3, 4]);
}

#[test]
fn tail_buffer_writes_all_but_the_last_capacity_over_many_pushes() {
    let chunks: Vec<Vec<u8>> = vec![vec![], vec![1], vec![2, 3, 4], vec![], vec![5, 6, 7, 8, 9, 10], vec![11]];
    for capacity in 0..15usize {
        let mut t = TailBuffer::new(capacity);
        let mut out = Vec::new();
        let mut pushed: Vec<u8> = Vec::new();
        for c in &chunks {
            t.push_and_write(c, &mut out);
            pushed.extend_from_slice(c);
            let kept = pushed.len().min(capacity);
            assert_eq!(out, pushed[..pushed.len() - kept].to_vec());
        }
    }
}

#[test]
fn audio_writer_keeps_recording_length() {
    let mut w = AudioSampleWriter::new(vec![0, 0, 0, 0]);
    let mut out = Vec::new();
    w.write_samples(false, &[9, 9], &mut out);
    assert!(out.is_empty());
    w.write_samples(true, &[1, 2], &mut out);
    assert_eq!(out, vec![0, 0, 0, 0]);
    w.write_samples(true, &[3, 4], &mut out);
    assert_eq!(out, vec![0, 0, 0, 0]);
    w.write_samples(true, &[5, 6], &mut out);
    assert_eq!(out, vec![0, 0, 0, 0, 1, 2]);
}

#[test]
fn recording_type_names() {
    assert_eq!(RecordingType::Region.as_ref(), "Region");
    assert_eq!(RecordingType::Window.to_string(), "Window");
    assert_eq!(RecordingType::from_name("Screen"), Some(RecordingType::Screen));
    assert_eq!(RecordingType::from_name("screen"), None);
}

#[test]
fn recording_file_names_and_paths() {
    assert_eq!(RecordingFile::Screen.as_ref(), "screen.mp4");
    assert_eq!(RecordingFile::SystemAudio.as_ref(), "system_audio.wav");
    assert_eq!(RecordingFile::Microphone.as_ref(), "microphone.wav");
    assert_eq!(RecordingFile::Camera.as_ref(), "camera.mp4");
    assert_eq!(RecordingFile::MouseEvents.as_ref(), "mouse_events.msgpack");
    assert_eq!(RecordingFile::Metadata.to_string(), "metadata.json");
    assert_eq!(RecordingFile::from_name("camera.mp4"), Some(RecordingFile::Camera));
    assert_eq!(RecordingFile::Camera.complete_path("/rec"), "/rec/camera.mp4");
}

#[test]
fn recording_file_unique_names() {
    let n = RecordingFile::Screen.unique();
    let uuid = n.strip_prefix("screen-").unwrap().strip_suffix(".mp4").unwrap();
    assert!(is_uuid(uuid));
    let m = RecordingFile::MouseEvents.unique();
    assert!(m.starts_with("mouse_events-") && m.ends_with(".msgpack"));
    assert_ne!(RecordingFile::Camera.unique(), RecordingFile::Camera.unique());
}

#[test]
fn default_file_set_has_required_files_only() {
    let s = RecordingFileSet::default();
    assert_eq!(s.screen, RecordingFile::Screen);
    assert_eq!(s.metadata, RecordingFile::Metadata);
    assert_eq!(s.mouse_events, RecordingFile::MouseEvents);
    assert_eq!(s.system_audio, None);
    assert_eq!(s.camera, None);
    assert_eq!(s.microphone, None);
    let m = RecordingManifest { directory: "/rec".to_string(), files: s };
    assert_eq!(m.directory, "/rec");
}

#[test]
fn folder_size_counts_files_at_any_depth() {
    let tree = FsEntry::Directory {
        entries: vec![
            FsEntry::File { size: 10 },
            FsEntry::Other,
            FsEntry::Directory { entries: vec![FsEntry::File { size: 5 }, FsEntry::File { size: 7 }] },
        ],
    };
    assert_eq!(folder_size_bytes(&tree), 22);
    assert_eq!(folder_size_bytes(&FsEntry::File { size: 10 }), 0);
    assert_eq!(folder_size_bytes(&FsEntry::Directory { entries: vec![] }), 0);
}

#[test]
fn rawvideo_writer_arguments() {
    let input = FfmpegInputDetails {
        width: 1920,
        height: 1080,
        pixel_format: "nv12".to_string(),
        crop: Some(CropArea {
            width: "800".to_string(),
            height: "600".to_string(),
            x: "10".to_string(),
            y: "20".to_string(),
        }),
        output_frame_rate: Some(60),
    };
    let expected = strings(&[
        "-loglevel", "level+info",
        "-use_wallclock_as_timestamps", "1",
        "-f", "rawvideo",
        "-pix_fmt", "nv12",
        "-s", "1920x1080",
        "-re",
        "-i", "-",
        "-vf", "crop=800:600:10:20",
        "-c:v", "hevc_videotoolbox",
        "-b:v", "12000k",
        "-tag:v", "hvc1",
        "-pix_fmt", "yuv420p",
        "-r", "60",
        "/rec/screen-1.mp4",
    ]);
    assert_eq!(args_of(&rawvideo_command("/rec/screen-1.mp4", &input, TargetOs::MacOs, "")), expected);
}

#[test]
fn rawvideo_writer_without_crop_or_rate() {
    let input = FfmpegInputDetails {
        width: 640,
        height: 480,
        pixel_format: "yuyv422".to_string(),
        crop: None,
        output_frame_rate: None,
    };
    let args = args_of(&rawvideo_command("/c.mp4", &input, TargetOs::MacOs, ""));
    assert!(!args.iter().any(|a| a == "-vf" || a == "-r"));
    assert_eq!(args.last().unwrap(), "/c.mp4");
    assert!(args.iter().any(|a| a == "640x480"));
}

#[test]
fn frame_writer_arguments() {
    let expected = strings(&[
        "-loglevel", "level+info",
        "-framerate", "30",
        "-f", "rawvideo",
        "-pix_fmt", "bgra",
        "-s", "100x50",
        "-i", "-",
        "-c:v", "libx264",
        "-crf:v", "20",
        "/o.mp4",
    ]);
    assert_eq!(args_of(&frame_writer_command("/o.mp4", 100, 50, "bgra", Some("30"), None)), expected);
}

#[test]
fn audio_writer_arguments() {
    let expected = strings(&[
        "-loglevel", "level+info",
        "-f", "s16le",
        "-ar", "48000",
        "-ac", "2",
        "-i", "-",
        "-c:a", "pcm_s16le",
        "/rec/system_audio.wav",
    ]);
    assert_eq!(args_of(&audio_command("/rec/system_audio.wav", 48000, 2)), expected);
}

#[test]
fn segments_are_listed_and_joined() {
    let files = strings(&["/rec/a.mp4", "/rec/b.mp4"]);
    assert_eq!(segment_list_contents(&files), "file '/rec/a.mp4'\nfile '/rec/b.mp4'\n");
    assert_eq!(segment_list_contents(&Vec::new()), "");
    let p = segment_list_path("/rec");
    let uuid = p.strip_prefix("/rec/video-segments_").unwrap().strip_suffix(".txt").unwrap();
    assert!(is_uuid(uuid));
    let expected = strings(&[
        "-loglevel", "level+info",
        "-f", "concat", "-safe", "0", "-i", "/rec/list.txt", "-c", "copy", "/rec/screen.mp4",
    ]);
    assert_eq!(args_of(&concat_command("/rec/list.txt", "/rec/screen.mp4")), expected);
}

#[test]
fn hardware_encoder_preference() {
    assert_eq!(choose_hardware_encoder(Some(" V..... h264_qsv\n V..... h264_nvenc\n")), "h264_nvenc");
    assert_eq!(choose_hardware_encoder(Some(" V..... hevc_amf\n")), "hevc_amf");
    assert_eq!(choose_hardware_encoder(Some(" V..... libx264\n")), "libx264");
    assert_eq!(choose_hardware_encoder(None), "libx264");
}

#[test]
fn nv12_planes_are_packed_without_padding() {
    // 2x2 frame, luminance stride 3, chrominance stride 4
    let y = [1, 2, 0, 3, 4, 0];
    let uv = [5, 6, 0, 0];
    assert_eq!(pack_nv12_frame(2, 2, &y, 3, &uv, 4), vec![1, 2, 3, 4, 5, 6]);
}

#[test]
fn frames_repeat_when_capture_has_none() {
    let mut cached = None;
    assert_eq!(next_frame_buffer(None, &mut cached), None);
    assert_eq!(next_frame_buffer(Some(vec![1, 2]), &mut cached), Some(vec![1, 2]));
    assert_eq!(next_frame_buffer(None, &mut cached), Some(vec![1, 2]));
    assert_eq!(cached, Some(vec![1, 2]));
}

#[test]
fn pointer_moves_are_throttled() {
    let mut t = MoveThrottle::new();
    assert_eq!(t.on_event(0, InputEventKind::PointerMove, true), Some(MouseRecordKind::Move));
    assert_eq!(t.on_event(10_000, InputEventKind::PointerMove, true), None);
    assert_eq!(t.on_event(16_667, InputEventKind::PointerMove, true), Some(MouseRecordKind::Move));
    assert_eq!(t.on_event(20_000, InputEventKind::ButtonPress, true), Some(MouseRecordKind::Down));
    assert_eq!(t.on_event(20_001, InputEventKind::ButtonRelease, true), Some(MouseRecordKind::Up));
    assert_eq!(t.on_event(50_000, InputEventKind::ButtonPress, false), None);
    assert_eq!(t.on_event(50_000, InputEventKind::Other, true), None);
    assert_eq!(t.last_move_at, Some(16_667));
}

#[test]
fn start_barrier_counts_every_stream() {
    assert_eq!(ready_barrier_count(false, false, false), 2);
    assert_eq!(ready_barrier_count(true, false, true), 4);
    assert_eq!(ready_barrier_count(true, true, true), 5);
}

#[test]
fn session_directory_under_recordings() {
    let d = recording_session_directory("/data");
    let ts = d.strip_prefix("/data/Recordings/").unwrap();
    assert_eq!(ts.len(), 19);
    assert_eq!(&ts[10..11], "_");
}

fn moment(year: i32, second: u32, nanosecond: u32) -> LocalTime {
    LocalTime { year, month: 3, day: 5, hour: 7, minute: 8, second, nanosecond }
}

#[test]
fn session_timestamp_pads_every_field() {
    assert_eq!(session_timestamp(&moment(2024, 9, 0)), "2024-03-05_07-08-09");
    let t = LocalTime { year: 1999, month: 12, day: 31, hour: 23, minute: 59, second: 58, nanosecond: 999_999_999 };
    assert_eq!(session_timestamp(&t), "1999-12-31_23-59-58");
}

#[test]
fn session_timestamp_years_outside_four_digits() {
    assert_eq!(session_timestamp(&moment(5, 0, 0)), "0005-03-05_07-08-00");
    assert_eq!(session_timestamp(&moment(0, 0, 0)), "0000-03-05_07-08-00");
    assert_eq!(session_timestamp(&moment(12345, 0, 0)), "+12345-03-05_07-08-00");
    assert_eq!(session_timestamp(&moment(-5, 0, 0)), "-0005-03-05_07-08-00");
    assert_eq!(session_timestamp(&moment(-12345, 0, 0)), "-12345-03-05_07-08-00");
}

#[test]
fn session_timestamp_shows_a_leap_second_as_sixty() {
    assert_eq!(session_timestamp(&moment(2016, 59, 1_500_000_000)), "2016-03-05_07-08-60");
}

#[test]
fn stop_plan_needs_the_screen_track() {
    let stopped: StoppedRecording<u8> = StoppedRecording {
        recording_id: Some(7),
        stream_handles: Some(vec![1, 2]),
        screen_handle: Some(3),
        screen_files: Some(strings(&["/r/s1.mp4"])),
        camera_handle: Some(4),
        camera_files: None,
    };
    let plan = plan_stop(stopped).unwrap();
    assert_eq!(plan.recording_id, 7);
    assert_eq!(plan.stream_handles, vec![1, 2]);
    assert_eq!(plan.screen_handle, 3);
    assert!(plan.camera.is_none());
    let incomplete: StoppedRecording<u8> = StoppedRecording {
        recording_id: None,
        stream_handles: Some(vec![]),
        screen_handle: Some(3),
        screen_files: Some(vec![]),
        camera_handle: None,
        camera_files: None,
    };
    assert!(plan_stop(incomplete).is_none());
}

#[test]
fn folder_size_that_does_not_fit_is_refused() {
    let huge = FsEntry::Directory {
        entries: vec![
            FsEntry::File { size: u64::MAX },
            FsEntry::Directory { entries: vec![FsEntry::File { size: 1 }] },
        ],
    };
    assert_eq!(try_folder_size_bytes(&huge), None);
    let nested = FsEntry::Directory {
        entries: vec![FsEntry::Directory { entries: vec![FsEntry::File { size: u64::MAX }, FsEntry::File { size: 1 }] }],
    };
    assert_eq!(try_folder_size_bytes(&nested), None);
    let fits = FsEntry::Directory { entries: vec![FsEntry::File { size: u64::MAX - 1 }, FsEntry::File { size: 1 }] };
    assert_eq!(try_folder_size_bytes(&fits), Some(u64::MAX));
    assert_eq!(try_folder_size_bytes(&FsEntry::Other), Some(0));
}

#[test]
fn rawvideo_writer_on_windows_and_elsewhere() {
    let input = FfmpegInputDetails {
        width: 4,
        height: 2,
        pixel_format: "bgra".to_string(),
        crop: None,
        output_frame_rate: Some(60),
    };
    let head = [
        "-loglevel", "level+info",
        "-use_wallclock_as_timestamps", "1",
        "-f", "rawvideo",
        "-pix_fmt", "bgra",
        "-s", "4x2",
        "-re",
        "-i", "-",
    ];
    let mut windows: Vec<&str> = head.to_vec();
    windows.extend(["-c:v", "h264_nvenc", "-crf:v", "20", "-b:v", "12000k", "-pix_fmt", "yuv420p", "-r", "60", "/s.mp4"]);
    assert_eq!(args_of(&rawvideo_command("/s.mp4", &input, TargetOs::Windows, "h264_nvenc")), strings(&windows));
    let mut other: Vec<&str> = head.to_vec();
    other.extend(["-pix_fmt", "yuv420p", "-r", "60", "/s.mp4"]);
    assert_eq!(args_of(&rawvideo_command("/s.mp4", &input, TargetOs::Other, "h264_nvenc")), strings(&other));
}
