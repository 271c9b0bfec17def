use orbit_cursor::audio::AudioStream;
use orbit_cursor::constants::{Events, PanelLevel, WindowLabel};

#[test]
fn events_serialize_to_their_names() {
    assert_eq!(Events::SystemAudioStreamError.as_ref(), "system_audio_stream_error");
    assert_eq!(Events::MicrophoneStreamError.as_ref(), "microphone_stream_error");
    assert_eq!(Events::StandaloneListboxDidResignKey.as_ref(), "standalone_listbox_did_resign_key");
    assert_eq!(Events::RecordingInputOptionsDidResignKey.as_ref(), "recording_input_options_did_resign_key");
    assert_eq!(Events::MonitorPermissions.as_ref(), "monitor_permissions");
    assert_eq!(Events::StartRecordingDockOpened.as_ref(), "start_recording_dock_opened");
    assert_eq!(Events::RecordingInputOptionsOpened.as_ref(), "recording_input_options_opened");
    assert_eq!(Events::RecordingStarted.as_ref(), "recording_started");
    assert_eq!(Events::ClosedStandaloneListbox.as_ref(), "closed_standalone_listbox");
    assert_eq!(Events::ClosedRecordingInputOptions.as_ref(), "closed_recording_input_options");
    assert_eq!(Events::CollapsedRecordingSourceSelector.as_ref(), "collapsed_recording_source_selector");
    assert_eq!(Events::WindowThumbnailsGenerated.as_ref(), "window_thumbnails_generated");
    assert_eq!(Events::RecordingComplete.as_ref(), "recording_complete");
    assert_eq!(Events::ClosedEditor.as_ref(), "closed_editor");
    assert_eq!(Events::ExportProgress.as_ref(), "export_progress");
    assert_eq!(Events::ExportComplete.as_ref(), "export_complete");
    assert_eq!(Events::ExportComplete.to_string(), "export_complete");
}

#[test]
fn events_parse_back_from_their_names() {
    assert_eq!(Events::from_name("recording_complete"), Some(Events::RecordingComplete));
    assert_eq!(Events::from_name("export_progress"), Some(Events::ExportProgress));
    assert_eq!(Events::from_name(Events::ClosedEditor.as_ref()), Some(Events::ClosedEditor));
    assert_eq!(Events::from_name("RecordingComplete"), None);
    assert_eq!(Events::from_name(""), None);
}

#[test]
fn window_labels_round_trip() {
    let all = [
        (WindowLabel::RequestPermissions, "request_permissions"),
        (WindowLabel::StartRecordingDock, "start_recording_dock"),
        (WindowLabel::StandaloneListbox, "standalone_listbox"),
        (WindowLabel::RecordingInputOptions, "recording_input_options"),
        (WindowLabel::RegionSelector, "region_selector"),
        (WindowLabel::RecordingSourceSelector, "recording_source_selector"),
        (WindowLabel::RecordingDock, "recording_dock"),
        (WindowLabel::Editor, "editor"),
    ];
    for (label, name) in all {
        assert_eq!(label.as_ref(), name);
        assert_eq!(label.to_string(), name);
        assert_eq!(WindowLabel::from_name(name), Some(label));
    }
    assert_eq!(WindowLabel::from_name("Editor"), None);
}

#[test]
fn panel_levels_start_at_three() {
    assert_eq!(PanelLevel::RegionSelector.value(), 3);
    assert_eq!(PanelLevel::StartRecordingDock.value(), 4);
    assert_eq!(PanelLevel::RecordingSourceSelector.value(), 5);
    assert_eq!(PanelLevel::RecordingInputOptions.value(), 6);
    assert_eq!(PanelLevel::StandaloneListBox.value(), 7);
    assert_eq!(PanelLevel::RecordingDock.value(), 8);
}

#[test]
fn audio_streams_use_camel_case_names() {
    assert_eq!(AudioStream::System.as_ref(), "system");
    assert_eq!(AudioStream::Input.as_ref(), "input");
    assert_eq!(AudioStream::from_name("input"), Some(AudioStream::Input));
    assert_eq!(AudioStream::from_name("System"), None);
}
