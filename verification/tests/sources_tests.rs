use orbit_cursor::window_list::{window_display_order, WindowSortKey};
use orbit_cursor::camera::{
    camera_frame_format_to_ffmpeg, camera_input_details, find_device, frame_packet, frame_to_rgba, frame_write_action,
    yuyv_to_rgba, CameraDetails, CameraFrameFormat, FrameStep, FrameWrite, StartupFrameSkipper,
};
use orbit_cursor::screen_capture::{
    display_index, get_app_targets, match_window_targets, get_display_scap_target, get_window, is_listed_window, window_target_id,
    CaptureTarget,
};

fn window(id: u32, title: &str) -> CaptureTarget {
    CaptureTarget::Window { id, title: title.to_string() }
}

fn display(id: u32, title: &str) -> CaptureTarget {
    CaptureTarget::Display { id, title: title.to_string() }
}

fn targets() -> Vec<CaptureTarget> {
    vec![
        display(1, "Built-in"),
        window(10, "Orbit Cursor"),
        window(11, "Browser"),
        display(2, "External"),
        window(12, "Orbit Cursor"),
        window(13, "Editor"),
    ]
}

#[test]
fn app_targets_are_the_apps_own_windows() {
    let titles = vec!["Orbit Cursor".to_string(), "Editor".to_string(), "Built-in".to_string()];
    let ids: Vec<u32> = get_app_targets(targets(), &titles)
        .iter()
        .map(|t| match t {
            CaptureTarget::Window { id, .. } => *id,
            CaptureTarget::Display { .. } => panic!("a display is no app window"),
        })
        .collect();
    assert_eq!(ids, vec![10, 12, 13]);
    assert!(get_app_targets(targets(), &Vec::new()).is_empty());
}

#[test]
fn display_target_by_name() {
    assert!(matches!(get_display_scap_target(targets(), "External"), Some(CaptureTarget::Display { id: 2, .. })));
    assert!(get_display_scap_target(targets(), "Browser").is_none());
}

#[test]
fn window_target_by_id_and_title() {
    assert!(matches!(get_window(targets(), 12), Some(CaptureTarget::Window { id: 12, .. })));
    assert!(get_window(targets(), 1).is_none());
    assert_eq!(window_target_id(targets(), "Orbit Cursor"), Some(10));
    assert_eq!(window_target_id(targets(), "External"), None);
}

#[test]
fn display_index_falls_back_to_first() {
    let names = vec![Some("A".to_string()), None, Some("B".to_string()), Some("B".to_string())];
    assert_eq!(display_index(&names, "B"), 2);
    assert_eq!(display_index(&names, "C"), 0);
    assert_eq!(display_index(&Vec::new(), "A"), 0);
}

#[test]
fn camera_formats_map_to_ffmpeg_names() {
    assert_eq!(camera_frame_format_to_ffmpeg(CameraFrameFormat::Mjpeg), "mjpeg");
    assert_eq!(camera_frame_format_to_ffmpeg(CameraFrameFormat::Yuyv), "yuyv422");
    assert_eq!(camera_frame_format_to_ffmpeg(CameraFrameFormat::Nv12), "nv12");
    assert_eq!(camera_frame_format_to_ffmpeg(CameraFrameFormat::Gray), "gray");
    assert_eq!(camera_frame_format_to_ffmpeg(CameraFrameFormat::RawRgb), "rgb24");
    assert_eq!(camera_frame_format_to_ffmpeg(CameraFrameFormat::RawBgr), "bgr24");
}

#[test]
fn recorded_camera_layout() {
    let d = camera_input_details(1280, 720, CameraFrameFormat::Mjpeg);
    assert_eq!((d.width, d.height, d.pixel_format.as_str()), (1280, 720, "rgb24"));
    assert!(d.crop.is_none() && d.output_frame_rate.is_none());
    assert_eq!(camera_input_details(640, 480, CameraFrameFormat::Nv12).pixel_format, "yuyv422");
    let c = CameraDetails { index: "0".to_string(), name: "FaceTime HD".to_string() };
    assert_eq!(c.clone().name, "FaceTime HD");
}

#[test]
fn preview_packet_starts_with_size() {
    let p = frame_packet(0x0102_0304, 2, vec![9, 8]);
    assert_eq!(p, vec![4, 3, 2, 1, 2, 0, 0, 0, 9, 8]);
}

#[test]
fn yuyv_frames_become_rgba() {
    // two pixels of white and two of black, full range
    let white_black = [255u8, 128, 255, 128, 0, 128, 0, 128];
    let rgba = yuyv_to_rgba(&white_black, 2, 2);
    assert_eq!(rgba.len(), 16);
    assert!(rgba[0..3].iter().all(|c| *c >= 250) && rgba[3] == 255);
    assert!(rgba[4..7].iter().all(|c| *c >= 250) && rgba[7] == 255);
    assert!(rgba[8..11].iter().all(|c| *c <= 5) && rgba[11] == 255);
    assert!(rgba[12..15].iter().all(|c| *c <= 5) && rgba[15] == 255);
    assert_eq!(frame_to_rgba(CameraFrameFormat::Yuyv, &white_black, 2, 2), rgba);
    assert_eq!(frame_to_rgba(CameraFrameFormat::RawRgb, &[1, 2, 3], 1, 1), vec![1, 2, 3]);
}

#[test]
fn odd_width_rows_stay_blank() {
    let row = [255u8, 128, 255, 128, 255, 128];
    assert_eq!(yuyv_to_rgba(&row, 3, 1), vec![0u8; 12]);
}

#[test]
fn first_camera_frames_are_dropped() {
    let mut s = StartupFrameSkipper::new();
    for _ in 0..4 {
        assert_eq!(s.on_frame(), FrameStep::Discard);
    }
    assert_eq!(s.on_frame(), FrameStep::Proceed { signal_ready: true });
    assert_eq!(s.on_frame(), FrameStep::Proceed { signal_ready: false });
    assert_eq!(s, StartupFrameSkipper { skipped: 4, ready: true });
}

#[test]
fn camera_frames_written_by_layout() {
    assert_eq!(frame_write_action(false, true, CameraFrameFormat::Mjpeg), FrameWrite::Skip);
    assert_eq!(frame_write_action(true, false, CameraFrameFormat::Yuyv), FrameWrite::Skip);
    assert_eq!(frame_write_action(true, true, CameraFrameFormat::Mjpeg), FrameWrite::DecodedMjpeg);
    assert_eq!(frame_write_action(true, true, CameraFrameFormat::Yuyv), FrameWrite::Raw);
}

#[test]
fn devices_found_by_name() {
    let names = vec!["FaceTime HD".to_string(), "USB Cam".to_string(), "USB Cam".to_string()];
    assert_eq!(find_device(&names, "USB Cam"), Some(1));
    assert_eq!(find_device(&names, "usb cam"), None);
    assert_eq!(find_device(&Vec::new(), "USB Cam"), None);
}

#[test]
fn windows_listed_by_icon_then_title() {
    let key = |icon: Option<&str>, title: &str| WindowSortKey {
        app_icon_path: icon.map(|s| s.to_string()),
        title: title.to_string(),
    };
    let keys = vec![
        key(Some("/icons/b.png"), "Zed"),
        key(None, "Terminal"),
        key(Some("/icons/a.png"), "Mail"),
        key(Some("/icons/b.png"), "Alpha"),
        key(None, "Terminal"),
        key(Some("/icons/a.png"), "Mail"),
    ];
    assert_eq!(window_display_order(&keys), vec![1, 4, 2, 5, 3, 0]);
    assert_eq!(window_display_order(&Vec::new()), Vec::<usize>::new());
    let accents = vec![key(None, "é"), key(None, "z"), key(None, "Z")];
    assert_eq!(window_display_order(&accents), vec![2, 1, 0]);
}

#[test]
fn only_titled_on_screen_windows_are_listed() {
    assert!(is_listed_window(Some("Notes"), 0, true));
    assert!(!is_listed_window(Some(""), 0, true));
    assert!(!is_listed_window(None, 0, true));
    assert!(!is_listed_window(Some("Dock"), 20, true));
    assert!(!is_listed_window(Some("Notes"), 0, false));
}

#[test]
fn os_windows_matched_to_targets_by_title() {
    let titles = vec!["Browser".to_string(), "Missing".to_string(), "Orbit Cursor".to_string(), "External".to_string()];
    assert_eq!(match_window_targets(&titles, &targets()), vec![Some(11), None, Some(10), None]);
}
