use orbit_cursor::constants::WindowLabel;
use orbit_cursor::db::{
    flag_column, hard_delete_recordings_query, is_valid_recording_name, metadata_columns, placeholder_list,
    recording_details, recording_name_update, recording_type_from_column, restore_recordings_query,
    soft_delete_recordings_query, DbError,
};
use orbit_cursor::models::GlobalState;
use orbit_cursor::recording::models::RecordingType;
use orbit_cursor::tray::{tray_click_action, tray_menu_action, SystemTrayIcon, TrayAction, TrayClick, TrayMenuAction};
use orbit_cursor::recording::ffmpeg::TargetOs;
use orbit_cursor::store::{startup_plan, store_defaults, StartupPlan, StoreDefaults};
use orbit_cursor::windows::{
    centered_origin, hide_start_recording_dock, Rect, may_focus_editor, may_show_start_recording_dock, pointer_release_actions,
    show_start_recording_dock, PointerReleaseActions,
};

#[test]
fn details_follow_the_row_flags() {
    let d = recording_details(3, "Demo".to_string(), "/rec/2024", 1, 0, 5);
    assert_eq!(d.id, 3);
    assert_eq!(d.name, "Demo");
    assert_eq!(d.screen, "/rec/2024/screen.mp4");
    assert_eq!(d.camera, Some("/rec/2024/camera.mp4".to_string()));
    assert_eq!(d.system_audio, None);
    assert_eq!(d.microphone, Some("/rec/2024/microphone.wav".to_string()));
}

#[test]
fn recording_type_column_round_trip() {
    for t in [RecordingType::Region, RecordingType::Window, RecordingType::Screen] {
        assert_eq!(recording_type_from_column(Some(t.to_string().as_str())), Some(t));
    }
    assert_eq!(recording_type_from_column(Some("region")), None);
    assert_eq!(recording_type_from_column(None), None);
}

#[test]
fn columns_as_stored() {
    assert_eq!(flag_column(true), 1);
    assert_eq!(flag_column(false), 0);
    assert_eq!(metadata_columns(1024, Some(1500)), (1024, Some(1500)));
    assert_eq!(metadata_columns(u64::MAX, None), (-1, None));
}

#[test]
fn statements_over_several_recordings() {
    assert_eq!(placeholder_list(0), "");
    assert_eq!(placeholder_list(3), "?, ?, ?");
    assert_eq!(
        soft_delete_recordings_query(&vec![1, 2]),
        Ok("UPDATE recordings SET deleted_at = CURRENT_TIMESTAMP WHERE id IN (?, ?) RETURNING deleted_at".to_string())
    );
    assert_eq!(soft_delete_recordings_query(&vec![]), Err(DbError::RowNotFound));
    assert_eq!(
        hard_delete_recordings_query(&vec![9]),
        Some("DELETE FROM recordings WHERE id IN (?) RETURNING recording_directory".to_string())
    );
    assert_eq!(hard_delete_recordings_query(&vec![]), None);
    assert_eq!(
        restore_recordings_query(&vec![4, 5, 6]),
        Ok("UPDATE recordings SET deleted_at = NULL WHERE id IN (?, ?, ?)".to_string())
    );
    assert_eq!(restore_recordings_query(&vec![]), Err(DbError::RowNotFound));
}

#[test]
fn recording_names_that_are_accepted() {
    assert!(is_valid_recording_name("My recording"));
    assert!(is_valid_recording_name("console.log"));
    assert!(is_valid_recording_name("COM0"));
    assert_eq!(recording_name_update("Take 2"), Some("Take 2".to_string()));
}

#[test]
fn recording_names_that_are_refused() {
    assert!(!is_valid_recording_name(""));
    assert!(!is_valid_recording_name(" leading"));
    assert!(!is_valid_recording_name("trailing "));
    assert!(!is_valid_recording_name("a/b"));
    assert!(!is_valid_recording_name("what?"));
    assert!(!is_valid_recording_name("con"));
    assert!(!is_valid_recording_name("LPT1.txt"));
    assert!(!is_valid_recording_name(&"x".repeat(256)));
    assert!(is_valid_recording_name(&"x".repeat(255)));
    assert_eq!(recording_name_update("bad|name"), None);
}

#[test]
fn tray_icons_and_menu() {
    assert_eq!(SystemTrayIcon::Default.to_string(), "Default");
    assert_eq!(SystemTrayIcon::Recording.icon_file(), "system-tray-recording.ico");
    assert_eq!(SystemTrayIcon::Paused.icon_file(), "system-tray-paused.ico");
    assert_eq!(SystemTrayIcon::Loading.icon_file(), "system-tray-loading.ico");
    assert_eq!(SystemTrayIcon::Default.icon_file(), "system-tray-default.ico");
    assert!(SystemTrayIcon::Default.shows_menu());
    assert!(!SystemTrayIcon::Loading.shows_menu());
    assert_eq!(tray_menu_action("open_editor"), TrayMenuAction::OpenEditor);
    assert_eq!(tray_menu_action("quit"), TrayMenuAction::Quit);
    assert_eq!(tray_menu_action("other"), TrayMenuAction::Unhandled);
}

#[test]
fn tray_clicks_control_the_recording() {
    assert_eq!(tray_click_action(false, TrayClick::LeftUp, false, false), TrayAction::Nothing);
    assert_eq!(tray_click_action(true, TrayClick::LeftUp, false, false), TrayAction::ShowStartRecordingDock);
    assert_eq!(tray_click_action(true, TrayClick::LeftUp, true, false), TrayAction::PauseRecording);
    assert_eq!(tray_click_action(true, TrayClick::LeftUp, true, true), TrayAction::ResumeRecording);
    assert_eq!(tray_click_action(true, TrayClick::RightUp, true, true), TrayAction::StopRecording);
    assert_eq!(tray_click_action(true, TrayClick::RightUp, false, false), TrayAction::Nothing);
    assert_eq!(tray_click_action(true, TrayClick::Other, true, false), TrayAction::Nothing);
}

#[test]
fn start_dock_only_when_idle() {
    assert!(may_show_start_recording_dock(false, false));
    assert!(!may_show_start_recording_dock(true, false));
    assert!(!may_show_start_recording_dock(false, true));
    assert!(may_focus_editor(true, true));
    assert!(!may_focus_editor(false, true));
}

#[test]
fn showing_and_hiding_the_dock() {
    let mut g = GlobalState::new();
    g.window_opened(WindowLabel::RecordingSourceSelector);
    assert!(!show_start_recording_dock(&mut g, true, false, true));
    assert!(!g.is_window_open(&WindowLabel::StartRecordingDock));
    assert!(g.is_window_open(&WindowLabel::RecordingSourceSelector));
    assert!(show_start_recording_dock(&mut g, false, false, true));
    assert!(g.is_window_open(&WindowLabel::StartRecordingDock));
    assert!(!g.is_window_open(&WindowLabel::RecordingSourceSelector));
    g.window_opened(WindowLabel::RecordingSourceSelector);
    assert!(hide_start_recording_dock(&mut g));
    assert!(!g.is_window_open(&WindowLabel::StartRecordingDock));
    assert!(!g.is_window_open(&WindowLabel::RecordingSourceSelector));
    assert!(!hide_start_recording_dock(&mut g));
}

#[test]
fn clicks_outside_close_panels() {
    let mut g = GlobalState::new();
    assert_eq!(
        pointer_release_actions(&g, false, false, false),
        PointerReleaseActions {
            close_standalone_listbox: true,
            close_recording_input_options: false,
            collapse_recording_source_selector: false
        }
    );
    g.window_opened(WindowLabel::StartRecordingDock);
    g.window_opened(WindowLabel::RecordingInputOptions);
    g.window_opened(WindowLabel::RecordingSourceSelector);
    let a = pointer_release_actions(&g, false, false, false);
    assert!(a.close_recording_input_options && a.collapse_recording_source_selector);
    let b = pointer_release_actions(&g, false, true, true);
    assert!(!b.close_recording_input_options && !b.collapse_recording_source_selector);
}

#[test]
fn windows_centre_in_the_work_area() {
    let work = Rect { left: 0, top: 40, right: 1920, bottom: 1080 };
    let window = Rect { left: 10, top: 10, right: 811, bottom: 611 };
    assert_eq!(centered_origin(work, window), (559, 259));
    let big = Rect { left: 0, top: 0, right: 2001, bottom: 1101 };
    assert_eq!(centered_origin(work, big), (-40, 10));
}

#[test]
fn store_defaults_fill_what_is_missing() {
    assert_eq!(
        store_defaults(false, false, TargetOs::MacOs),
        StoreDefaults { set_first_run: true, set_native_permissions: true }
    );
    assert_eq!(
        store_defaults(true, false, TargetOs::Windows),
        StoreDefaults { set_first_run: false, set_native_permissions: false }
    );
    assert_eq!(
        store_defaults(true, true, TargetOs::MacOs),
        StoreDefaults { set_first_run: false, set_native_permissions: false }
    );
}

#[test]
fn startup_on_macos_asks_for_missing_permissions_first() {
    let p = startup_plan(TargetOs::MacOs, false, Some(true));
    assert_eq!(
        p,
        StartupPlan {
            init_system_tray: false,
            init_editor: false,
            open_permissions: true,
            show_start_recording_dock: false,
            hide_dock_icon: false,
        }
    );
    let p = startup_plan(TargetOs::MacOs, true, Some(true));
    assert!(p.init_system_tray && p.show_start_recording_dock && p.hide_dock_icon && !p.open_permissions);
    let p = startup_plan(TargetOs::MacOs, true, Some(false));
    assert!(p.init_system_tray && !p.show_start_recording_dock);
    assert!(!startup_plan(TargetOs::MacOs, true, None).show_start_recording_dock);
}

#[test]
fn startup_on_windows_shows_the_dock_on_the_first_run() {
    let p = startup_plan(TargetOs::Windows, false, Some(true));
    assert_eq!(
        p,
        StartupPlan {
            init_system_tray: true,
            init_editor: true,
            open_permissions: false,
            show_start_recording_dock: true,
            hide_dock_icon: false,
        }
    );
    assert!(!startup_plan(TargetOs::Windows, true, None).show_start_recording_dock);
    let other = startup_plan(TargetOs::Other, true, Some(true));
    assert!(!other.init_system_tray && !other.show_start_recording_dock && !other.open_permissions);
}

#[test]
fn reserved_device_names_in_any_case() {
    assert!(!is_valid_recording_name("com1.txt"));
    assert!(!is_valid_recording_name("NuL"));
    assert!(!is_valid_recording_name("aux."));
    assert!(is_valid_recording_name("aux1"));
    assert!(is_valid_recording_name("LPT10"));
    assert!(!is_valid_recording_name("tab\there"));
    assert!(!is_valid_recording_name("\u{3000}wide space"));
    assert!(is_valid_recording_name("caf\u{e9} \u{1f3ac}"));
}
