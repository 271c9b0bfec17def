use ffmpeg_sidecar::command::FfmpegCommand;
use orbit_cursor::recording::ffmpeg::TargetOs;
use orbit_cursor::export::{
    browse_target, check_recording_files, export_cleanup, export_command, parse_timestamp_to_milliseconds,
    progress_milliseconds, separate_output_paths, unique_path_candidate, ExportCleanup, ExportOptions,
    RecordingFilePresence,
};

fn args_of(cmd: &FfmpegCommand) -> Vec<String> {
    cmd.get_args().map(|a| a.to_string_lossy().into_owned()).collect()
}

fn strings(items: &[&str]) -> Vec<String> {
    items.iter().map(|s| s.to_string()).collect()
}

fn is_uuid(s: &str) -> bool {
    let groups: Vec<&str> = s.split('-').collect();
    groups.len() == 5
        && [8, 4, 4, 4, 12].iter().zip(groups.iter()).all(|(n, g)| g.len() == *n)
        && s.chars().all(|c| c == '-' || c.is_ascii_digit() || ('a'..='f').contains(&c))
}

#[test]
fn timestamp_parses_to_milliseconds() {
    assert_eq!(parse_timestamp_to_milliseconds("01:02:03.456"), Ok(3_723_456));
    assert_eq!(parse_timestamp_to_milliseconds("00:00:00.000000"), Ok(0));
    assert_eq!(parse_timestamp_to_milliseconds("  00:00:01.5  "), Ok(1_005));
    assert_eq!(parse_timestamp_to_milliseconds("00:01:00"), Ok(60_000));
    assert_eq!(parse_timestamp_to_milliseconds("00:00:02.123456"), Ok(2_123));
}

#[test]
fn timestamp_with_unreadable_fraction_counts_no_milliseconds() {
    assert_eq!(parse_timestamp_to_milliseconds("00:00:02.ab"), Ok(2_000));
}

#[test]
fn timestamp_errors() {
    assert_eq!(parse_timestamp_to_milliseconds("01:02"), Err(()));
    assert_eq!(parse_timestamp_to_milliseconds("a:02:03.4"), Err(()));
    assert_eq!(parse_timestamp_to_milliseconds("01:02:03:04"), Err(()));
    assert_eq!(parse_timestamp_to_milliseconds("N/A"), Err(()));
    assert_eq!(parse_timestamp_to_milliseconds("-1:00:00.0"), Err(()));
}

#[test]
fn progress_lines_report_out_time() {
    assert_eq!(progress_milliseconds("out_time=00:00:10.250000"), Some(10_250));
    assert_eq!(progress_milliseconds("out_time_ms=10250000"), None);
    assert_eq!(progress_milliseconds("frame=12"), None);
    assert_eq!(progress_milliseconds("out_time=N/A"), None);
}

#[test]
fn recording_files_present_from_listing() {
    let names = strings(&["screen.mp4", "microphone.wav", "metadata.json"]);
    let p = check_recording_files(&names);
    assert_eq!(p, RecordingFilePresence { has_system_audio: false, has_microphone: true, has_camera: false });
    let all = strings(&["camera.mp4", "system_audio.wav", "microphone.wav"]);
    assert_eq!(
        check_recording_files(&all),
        RecordingFilePresence { has_system_audio: true, has_microphone: true, has_camera: true }
    );
    assert_eq!(
        check_recording_files(&Vec::new()),
        RecordingFilePresence { has_system_audio: false, has_microphone: false, has_camera: false }
    );
}

#[test]
fn export_with_burned_camera_and_mixed_audio() {
    let p = RecordingFilePresence { has_system_audio: true, has_microphone: true, has_camera: true };
    let cmd = export_command("/rec", "/out/video.mp4", &p, false, false, TargetOs::MacOs);
    let expected = strings(&[
        "-loglevel", "level+info",
        "-i", "/rec/screen.mp4",
        "-i", "/rec/camera.mp4",
        "-i", "/rec/microphone.wav",
        "-i", "/rec/system_audio.wav",
        "-progress", "pipe:1", "-nostats",
        "-map", "[outv]",
        "-map", "[aout]",
        "-filter_complex",
        "[1:v]scale=320:-1[camera_scaled];[0:v][camera_scaled]overlay=W-w-10:H-h-10[outv];[2:a][3:a]amix=inputs=2[aout]",
        "-shortest", "-c:v", "h264_videotoolbox", "-b:v", "12000k", "-profile:v", "high",
        "-pix_fmt", "yuv420p", "-c:a", "aac", "-b:a", "192k",
        "/out/video.mp4",
    ]);
    assert_eq!(args_of(&cmd), expected);
}

#[test]
fn export_with_separate_tracks_and_camera_file() {
    let p = RecordingFilePresence { has_system_audio: true, has_microphone: true, has_camera: true };
    let cmd = export_command("/rec", "/out/video.mp4", &p, true, true, TargetOs::MacOs);
    let expected = strings(&[
        "-loglevel", "level+info",
        "-i", "/rec/screen.mp4",
        "-i", "/rec/microphone.wav",
        "-i", "/rec/system_audio.wav",
        "-progress", "pipe:1", "-nostats",
        "-map", "0:v",
        "-map", "1:a",
        "-map", "2:a",
        "-shortest", "-c:v", "h264_videotoolbox", "-b:v", "12000k", "-profile:v", "high",
        "-pix_fmt", "yuv420p", "-c:a", "aac", "-b:a", "192k",
        "/out/video.mp4",
    ]);
    assert_eq!(args_of(&cmd), expected);
}

#[test]
fn export_with_system_audio_only() {
    let p = RecordingFilePresence { has_system_audio: true, has_microphone: false, has_camera: false };
    let cmd = export_command("/rec", "/out/v.mp4", &p, false, false, TargetOs::MacOs);
    let expected = strings(&[
        "-loglevel", "level+info",
        "-i", "/rec/screen.mp4",
        "-i", "/rec/system_audio.wav",
        "-progress", "pipe:1", "-nostats",
        "-map", "0:v",
        "-map", "1:a",
        "-shortest", "-c:v", "h264_videotoolbox", "-b:v", "12000k", "-profile:v", "high",
        "-pix_fmt", "yuv420p", "-c:a", "aac", "-b:a", "192k",
        "/out/v.mp4",
    ]);
    assert_eq!(args_of(&cmd), expected);
}

#[test]
fn export_with_camera_only_uses_overlay_filter_alone() {
    let p = RecordingFilePresence { has_system_audio: false, has_microphone: false, has_camera: true };
    let args = args_of(&export_command("/rec", "/o.mp4", &p, false, false, TargetOs::MacOs));
    let i = args.iter().position(|a| a == "-filter_complex").unwrap();
    assert_eq!(
        args[i + 1],
        "[1:v]scale=320:-1[camera_scaled];[0:v][camera_scaled]overlay=W-w-10:H-h-10[outv]"
    );
    assert!(!args.iter().any(|a| a == "[aout]" || a == "1:a" || a == "2:a"));
}

#[test]
fn unique_candidate_keeps_extension_of_files() {
    let c = unique_path_candidate("/out/video.mp4", true);
    let name = c.strip_prefix("/out/video_").unwrap();
    let uuid = name.strip_suffix(".mp4").unwrap();
    assert!(is_uuid(uuid));
    let d = unique_path_candidate("/out/folder.d", false);
    let uuid = d.strip_prefix("/out/folder.d_").unwrap();
    assert!(is_uuid(uuid));
    assert_ne!(unique_path_candidate("/out/a", false), unique_path_candidate("/out/a", false));
}

#[test]
fn separate_camera_paths() {
    let (recording, camera) = separate_output_paths("/out/clip.mp4", "/out_1").unwrap();
    assert_eq!(recording, "/out_1/clip.mp4");
    assert_eq!(camera, "/out_1/clip_camera.mp4");
    let (_, camera) = separate_output_paths("/out/clip", "/d").unwrap();
    assert_eq!(camera, "/d/clip_camera.");
    assert_eq!(separate_output_paths("/", "/d"), None);
}

#[test]
fn cleanup_after_unfinished_export() {
    assert_eq!(
        export_cleanup("/d/clip.mp4", Some("/d/clip_camera.mp4"), true),
        ExportCleanup::RemoveDirectory("/d".to_string())
    );
    assert_eq!(
        export_cleanup("/d/clip.mp4", Some("/d/clip_camera.mp4"), false),
        ExportCleanup::RemoveDirectory("/d".to_string())
    );
    assert_eq!(
        export_cleanup("/d/clip.mp4", None, true),
        ExportCleanup::RemoveFile("/d/clip.mp4".to_string())
    );
    assert_eq!(export_cleanup("/d/clip.mp4", None, false), ExportCleanup::Nothing);
    assert_eq!(
        export_cleanup("/d/clip.mp4", Some("/"), true),
        ExportCleanup::RemoveFile("/d/clip.mp4".to_string())
    );
}

#[test]
fn browse_target_opens_the_folder() {
    assert_eq!(browse_target("/out/clip.mp4", false), "/out");
    assert_eq!(browse_target("/out", true), "/out");
    assert_eq!(browse_target("/", false), "/");
}

#[test]
fn export_options_hold_the_request() {
    let o = ExportOptions {
        source_folder_path: "/rec".to_string(),
        destination_file_path: "/out/a.mp4".to_string(),
        open_folder_after_export: true,
        separate_audio_tracks: false,
        separate_camera_file: true,
    };
    let c = o.clone();
    assert_eq!(c.destination_file_path, "/out/a.mp4");
    assert!(c.separate_camera_file && !c.separate_audio_tracks);
}

#[test]
fn export_off_macos_uses_libx264() {
    let p = RecordingFilePresence { has_system_audio: false, has_microphone: false, has_camera: false };
    let expected = strings(&[
        "-loglevel", "level+info",
        "-i", "/rec/screen.mp4",
        "-progress", "pipe:1", "-nostats",
        "-map", "0:v",
        "-shortest", "-c:v", "libx264", "-crf:v", "20",
        "-pix_fmt", "yuv420p", "-c:a", "aac", "-b:a", "192k",
        "/o.mp4",
    ]);
    assert_eq!(args_of(&export_command("/rec", "/o.mp4", &p, false, false, TargetOs::Windows)), expected);
    assert_eq!(args_of(&export_command("/rec", "/o.mp4", &p, false, false, TargetOs::Other)), expected);
}
