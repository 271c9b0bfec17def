//! Names shared with the user interface: events, window labels and panel levels.
use vstd::prelude::*;

use crate::text::{chars_to_string, str_eq, str_to_chars};

verus! {

/// Events emitted to the user interface.
#[derive(Debug, Clone, Copy, PartialEq, Eq, Hash)]
pub enum Events {
    SystemAudioStreamError,
    MicrophoneStreamError,
    StandaloneListboxDidResignKey,
    RecordingInputOptionsDidResignKey,
    MonitorPermissions,
    StartRecordingDockOpened,
    RecordingInputOptionsOpened,
    RecordingStarted,
    ClosedStandaloneListbox,
    ClosedRecordingInputOptions,
    CollapsedRecordingSourceSelector,
    WindowThumbnailsGenerated,
    RecordingComplete,
    ClosedEditor,
    ExportProgress,
    ExportComplete,
}

impl Events {
    /// Event name as the interface listens for it.
    pub open spec fn name(self) -> Seq<char> {
        match self {
            Events::SystemAudioStreamError => "system_audio_stream_error"@,
            Events::MicrophoneStreamError => "microphone_stream_error"@,
            Events::StandaloneListboxDidResignKey => "standalone_listbox_did_resign_key"@,
            Events::RecordingInputOptionsDidResignKey => "recording_input_options_did_resign_key"@,
            Events::MonitorPermissions => "monitor_permissions"@,
            Events::StartRecordingDockOpened => "start_recording_dock_opened"@,
            Events::RecordingInputOptionsOpened => "recording_input_options_opened"@,
            Events::RecordingStarted => "recording_started"@,
            Events::ClosedStandaloneListbox => "closed_standalone_listbox"@,
            Events::ClosedRecordingInputOptions => "closed_recording_input_options"@,
            Events::CollapsedRecordingSourceSelector => "collapsed_recording_source_selector"@,
            Events::WindowThumbnailsGenerated => "window_thumbnails_generated"@,
            Events::RecordingComplete => "recording_complete"@,
            Events::ClosedEditor => "closed_editor"@,
            Events::ExportProgress => "export_progress"@,
            Events::ExportComplete => "export_complete"@,
        }
    }

    pub fn as_ref(&self) -> (s: &'static str)
        ensures
            s@ == self.name(),
    {
        match self {
            Events::SystemAudioStreamError => "system_audio_stream_error",
            Events::MicrophoneStreamError => "microphone_stream_error",
            Events::StandaloneListboxDidResignKey => "standalone_listbox_did_resign_key",
            Events::RecordingInputOptionsDidResignKey => "recording_input_options_did_resign_key",
            Events::MonitorPermissions => "monitor_permissions",
            Events::StartRecordingDockOpened => "start_recording_dock_opened",
            Events::RecordingInputOptionsOpened => "recording_input_options_opened",
            Events::RecordingStarted => "recording_started",
            Events::ClosedStandaloneListbox => "closed_standalone_listbox",
            Events::ClosedRecordingInputOptions => "closed_recording_input_options",
            Events::CollapsedRecordingSourceSelector => "collapsed_recording_source_selector",
            Events::WindowThumbnailsGenerated => "window_thumbnails_generated",
            Events::RecordingComplete => "recording_complete",
            Events::ClosedEditor => "closed_editor",
            Events::ExportProgress => "export_progress",
            Events::ExportComplete => "export_complete",
        }
    }

    /// The name as an owned string, what `to_string` gives.
    pub fn to_string(&self) -> (s: String)
        ensures
            s@ == self.name(),
    {
        let v = str_to_chars(self.as_ref());
        chars_to_string(&v)
    }

    /// The variant with the given name, if any.
    pub fn from_name(s: &str) -> (r: Option<Events>)
        ensures
            match r {
                Some(e) => e.name() == s@,
                None => forall|e: Events| e.name() != s@,
            },
    {
        if str_eq(s, "system_audio_stream_error") {
            return Some(Events::SystemAudioStreamError);
        }
        if str_eq(s, "microphone_stream_error") {
            return Some(Events::MicrophoneStreamError);
        }
        if str_eq(s, "standalone_listbox_did_resign_key") {
            return Some(Events::StandaloneListboxDidResignKey);
        }
        if str_eq(s, "recording_input_options_did_resign_key") {
            return Some(Events::RecordingInputOptionsDidResignKey);
        }
        if str_eq(s, "monitor_permissions") {
            return Some(Events::MonitorPermissions);
        }
        if str_eq(s, "start_recording_dock_opened") {
            return Some(Events::StartRecordingDockOpened);
        }
        if str_eq(s, "recording_input_options_opened") {
            return Some(Events::RecordingInputOptionsOpened);
        }
        if str_eq(s, "recording_started") {
            return Some(Events::RecordingStarted);
        }
        if str_eq(s, "closed_standalone_listbox") {
            return Some(Events::ClosedStandaloneListbox);
        }
        if str_eq(s, "closed_recording_input_options") {
            return Some(Events::ClosedRecordingInputOptions);
        }
        if str_eq(s, "collapsed_recording_source_selector") {
            return Some(Events::CollapsedRecordingSourceSelector);
        }
        if str_eq(s, "window_thumbnails_generated") {
            return Some(Events::WindowThumbnailsGenerated);
        }
        if str_eq(s, "recording_complete") {
            return Some(Events::RecordingComplete);
        }
        if str_eq(s, "closed_editor") {
            return Some(Events::ClosedEditor);
        }
        if str_eq(s, "export_progress") {
            return Some(Events::ExportProgress);
        }
        if str_eq(s, "export_complete") {
            return Some(Events::ExportComplete);
        }
        assert forall|e: Events| e.name() != s@ by {
            match e {
                Events::SystemAudioStreamError => {},
                Events::MicrophoneStreamError => {},
                Events::StandaloneListboxDidResignKey => {},
                Events::RecordingInputOptionsDidResignKey => {},
                Events::MonitorPermissions => {},
                Events::StartRecordingDockOpened => {},
                Events::RecordingInputOptionsOpened => {},
                Events::RecordingStarted => {},
                Events::ClosedStandaloneListbox => {},
                Events::ClosedRecordingInputOptions => {},
                Events::CollapsedRecordingSourceSelector => {},
                Events::WindowThumbnailsGenerated => {},
                Events::RecordingComplete => {},
                Events::ClosedEditor => {},
                Events::ExportProgress => {},
                Events::ExportComplete => {},
            }
        }
        None
    }
}

proof fn lemma_events_named_system_audio_stream_error(b: Events)
    requires
        Events::SystemAudioStreamError.name() == b.name(),
    ensures
        b == Events::SystemAudioStreamError,
{
    reveal_strlit("system_audio_stream_error");
    match b {
        Events::SystemAudioStreamError => {},
        Events::MicrophoneStreamError => {
            reveal_strlit("microphone_stream_error");
            assert(b.name().len() == 23);
        },
        Events::StandaloneListboxDidResignKey => {
            reveal_strlit("standalone_listbox_did_resign_key");
            assert(b.name().len() == 33);
        },
        Events::RecordingInputOptionsDidResignKey => {
            reveal_strlit("recording_input_options_did_resign_key");
            assert(b.name().len() == 38);
        },
        Events::MonitorPermissions => {
            reveal_strlit("monitor_permissions");
            assert(b.name().len() == 19);
        },
        Events::StartRecordingDockOpened => {
            reveal_strlit("start_recording_dock_opened");
            assert(b.name().len() == 27);
        },
        Events::RecordingInputOptionsOpened => {
            reveal_strlit("recording_input_options_opened");
            assert(b.name().len() == 30);
        },
        Events::RecordingStarted => {
            reveal_strlit("recording_started");
            assert(b.name().len() == 17);
        },
        Events::ClosedStandaloneListbox => {
            reveal_strlit("closed_standalone_listbox");
            assert(b.name()[0] == 'c');
        },
        Events::ClosedRecordingInputOptions => {
            reveal_strlit("closed_recording_input_options");
            assert(b.name().len() == 30);
        },
        Events::CollapsedRecordingSourceSelector => {
            reveal_strlit("collapsed_recording_source_selector");
            assert(b.name().len() == 35);
        },
        Events::WindowThumbnailsGenerated => {
            reveal_strlit("window_thumbnails_generated");
            assert(b.name().len() == 27);
        },
        Events::RecordingComplete => {
            reveal_strlit("recording_complete");
            assert(b.name().len() == 18);
        },
        Events::ClosedEditor => {
            reveal_strlit("closed_editor");
            assert(b.name().len() == 13);
        },
        Events::ExportProgress => {
            reveal_strlit("export_progress");
            assert(b.name().len() == 15);
        },
        Events::ExportComplete => {
            reveal_strlit("export_complete");
            assert(b.name().len() == 15);
        },
    }
}

proof fn lemma_events_named_microphone_stream_error(b: Events)
    requires
        Events::MicrophoneStreamError.name() == b.name(),
    ensures
        b == Events::MicrophoneStreamError,
{
    reveal_strlit("microphone_stream_error");
    match b {
        Events::SystemAudioStreamError => {
            reveal_strlit("system_audio_stream_error");
            assert(b.name().len() == 25);
        },
        Events::MicrophoneStreamError => {},
        Events::StandaloneListboxDidResignKey => {
            reveal_strlit("standalone_listbox_did_resign_key");
            assert(b.name().len() == 33);
        },
        Events::RecordingInputOptionsDidResignKey => {
            reveal_strlit("recording_input_options_did_resign_key");
            assert(b.name().len() == 38);
        },
        Events::MonitorPermissions => {
            reveal_strlit("monitor_permissions");
            assert(b.name().len() == 19);
        },
        Events::StartRecordingDockOpened => {
            reveal_strlit("start_recording_dock_opened");
            assert(b.name().len() == 27);
        },
        Events::RecordingInputOptionsOpened => {
            reveal_strlit("recording_input_options_opened");
            assert(b.name().len() == 30);
        },
        Events::RecordingStarted => {
            reveal_strlit("recording_started");
            assert(b.name().len() == 17);
        },
        Events::ClosedStandaloneListbox => {
            reveal_strlit("closed_standalone_listbox");
            assert(b.name().len() == 25);
        },
        Events::ClosedRecordingInputOptions => {
            reveal_strlit("closed_recording_input_options");
            assert(b.name().len() == 30);
        },
        Events::CollapsedRecordingSourceSelector => {
            reveal_strlit("collapsed_recording_source_selector");
            assert(b.name().len() == 35);
        },
        Events::WindowThumbnailsGenerated => {
            reveal_strlit("window_thumbnails_generated");
            assert(b.name().len() == 27);
        },
        Events::RecordingComplete => {
            reveal_strlit("recording_complete");
            assert(b.name().len() == 18);
        },
        Events::ClosedEditor => {
            reveal_strlit("closed_editor");
            assert(b.name().len() == 13);
        },
        Events::ExportProgress => {
            reveal_strlit("export_progress");
            assert(b.name().len() == 15);
        },
        Events::ExportComplete => {
            reveal_strlit("export_complete");
            assert(b.name().len() == 15);
        },
    }
}

proof fn lemma_events_named_standalone_listbox_did_resign_key(b: Events)
    requires
        Events::StandaloneListboxDidResignKey.name() == b.name(),
    ensures
        b == Events::StandaloneListboxDidResignKey,
{
    reveal_strlit("standalone_listbox_did_resign_key");
    match b {
        Events::SystemAudioStreamError => {
            reveal_strlit("system_audio_stream_error");
            assert(b.name().len() == 25);
        },
        Events::MicrophoneStreamError => {
            reveal_strlit("microphone_stream_error");
            assert(b.name().len() == 23);
        },
        Events::StandaloneListboxDidResignKey => {},
        Events::RecordingInputOptionsDidResignKey => {
            reveal_strlit("recording_input_options_did_resign_key");
            assert(b.name().len() == 38);
        },
        Events::MonitorPermissions => {
            reveal_strlit("monitor_permissions");
            assert(b.name().len() == 19);
        },
        Events::StartRecordingDockOpened => {
            reveal_strlit("start_recording_dock_opened");
            assert(b.name().len() == 27);
        },
        Events::RecordingInputOptionsOpened => {
            reveal_strlit("recording_input_options_opened");
            assert(b.name().len() == 30);
        },
        Events::RecordingStarted => {
            reveal_strlit("recording_started");
            assert(b.name().len() == 17);
        },
        Events::ClosedStandaloneListbox => {
            reveal_strlit("closed_standalone_listbox");
            assert(b.name().len() == 25);
        },
        Events::ClosedRecordingInputOptions => {
            reveal_strlit("closed_recording_input_options");
            assert(b.name().len() == 30);
        },
        Events::CollapsedRecordingSourceSelector => {
            reveal_strlit("collapsed_recording_source_selector");
            assert(b.name().len() == 35);
        },
        Events::WindowThumbnailsGenerated => {
            reveal_strlit("window_thumbnails_generated");
            assert(b.name().len() == 27);
        },
        Events::RecordingComplete => {
            reveal_strlit("recording_complete");
            assert(b.name().len() == 18);
        },
        Events::ClosedEditor => {
            reveal_strlit("closed_editor");
            assert(b.name().len() == 13);
        },
        Events::ExportProgress => {
            reveal_strlit("export_progress");
            assert(b.name().len() == 15);
        },
        Events::ExportComplete => {
            reveal_strlit("export_complete");
            assert(b.name().len() == 15);
        },
    }
}

proof fn lemma_events_named_recording_input_options_did_resign_key(b: Events)
    requires
        Events::RecordingInputOptionsDidResignKey.name() == b.name(),
    ensures
        b == Events::RecordingInputOptionsDidResignKey,
{
    reveal_strlit("recording_input_options_did_resign_key");
    match b {
        Events::SystemAudioStreamError => {
            reveal_strlit("system_audio_stream_error");
            assert(b.name().len() == 25);
        },
        Events::MicrophoneStreamError => {
            reveal_strlit("microphone_stream_error");
            assert(b.name().len() == 23);
        },
        Events::StandaloneListboxDidResignKey => {
            reveal_strlit("standalone_listbox_did_resign_key");
            assert(b.name().len() == 33);
        },
        Events::RecordingInputOptionsDidResignKey => {},
        Events::MonitorPermissions => {
            reveal_strlit("monitor_permissions");
            assert(b.name().len() == 19);
        },
        Events::StartRecordingDockOpened => {
            reveal_strlit("start_recording_dock_opened");
            assert(b.name().len() == 27);
        },
        Events::RecordingInputOptionsOpened => {
            reveal_strlit("recording_input_options_opened");
            assert(b.name().len() == 30);
        },
        Events::RecordingStarted => {
            reveal_strlit("recording_started");
            assert(b.name().len() == 17);
        },
        Events::ClosedStandaloneListbox => {
            reveal_strlit("closed_standalone_listbox");
            assert(b.name().len() == 25);
        },
        Events::ClosedRecordingInputOptions => {
            reveal_strlit("closed_recording_input_options");
            assert(b.name().len() == 30);
        },
        Events::CollapsedRecordingSourceSelector => {
            reveal_strlit("collapsed_recording_source_selector");
            assert(b.name().len() == 35);
        },
        Events::WindowThumbnailsGenerated => {
            reveal_strlit("window_thumbnails_generated");
            assert(b.name().len() == 27);
        },
        Events::RecordingComplete => {
            reveal_strlit("recording_complete");
            assert(b.name().len() == 18);
        },
        Events::ClosedEditor => {
            reveal_strlit("closed_editor");
            assert(b.name().len() == 13);
        },
        Events::ExportProgress => {
            reveal_strlit("export_progress");
            assert(b.name().len() == 15);
        },
        Events::ExportComplete => {
            reveal_strlit("export_complete");
            assert(b.name().len() == 15);
        },
    }
}

proof fn lemma_events_named_monitor_permissions(b: Events)
    requires
        Events::MonitorPermissions.name() == b.name(),
    ensures
        b == Events::MonitorPermissions,
{
    reveal_strlit("monitor_permissions");
    match b {
        Events::SystemAudioStreamError => {
            reveal_strlit("system_audio_stream_error");
            assert(b.name().len() == 25);
        },
        Events::MicrophoneStreamError => {
            reveal_strlit("microphone_stream_error");
            assert(b.name().len() == 23);
        },
        Events::StandaloneListboxDidResignKey => {
            reveal_strlit("standalone_listbox_did_resign_key");
            assert(b.name().len() == 33);
        },
        Events::RecordingInputOptionsDidResignKey => {
            reveal_strlit("recording_input_options_did_resign_key");
            assert(b.name().len() == 38);
        },
        Events::MonitorPermissions => {},
        Events::StartRecordingDockOpened => {
            reveal_strlit("start_recording_dock_opened");
            assert(b.name().len() == 27);
        },
        Events::RecordingInputOptionsOpened => {
            reveal_strlit("recording_input_options_opened");
            assert(b.name().len() == 30);
        },
        Events::RecordingStarted => {
            reveal_strlit("recording_started");
            assert(b.name().len() == 17);
        },
        Events::ClosedStandaloneListbox => {
            reveal_strlit("closed_standalone_listbox");
            assert(b.name().len() == 25);
        },
        Events::ClosedRecordingInputOptions => {
            reveal_strlit("closed_recording_input_options");
            assert(b.name().len() == 30);
        },
        Events::CollapsedRecordingSourceSelector => {
            reveal_strlit("collapsed_recording_source_selector");
            assert(b.name().len() == 35);
        },
        Events::WindowThumbnailsGenerated => {
            reveal_strlit("window_thumbnails_generated");
            assert(b.name().len() == 27);
        },
        Events::RecordingComplete => {
            reveal_strlit("recording_complete");
            assert(b.name().len() == 18);
        },
        Events::ClosedEditor => {
            reveal_strlit("closed_editor");
            assert(b.name().len() == 13);
        },
        Events::ExportProgress => {
            reveal_strlit("export_progress");
            assert(b.name().len() == 15);
        },
        Events::ExportComplete => {
            reveal_strlit("export_complete");
            assert(b.name().len() == 15);
        },
    }
}

proof fn lemma_events_named_start_recording_dock_opened(b: Events)
    requires
        Events::StartRecordingDockOpened.name() == b.name(),
    ensures
        b == Events::StartRecordingDockOpened,
{
    reveal_strlit("start_recording_dock_opened");
    match b {
        Events::SystemAudioStreamError => {
            reveal_strlit("system_audio_stream_error");
            assert(b.name().len() == 25);
        },
        Events::MicrophoneStreamError => {
            reveal_strlit("microphone_stream_error");
            assert(b.name().len() == 23);
        },
        Events::StandaloneListboxDidResignKey => {
            reveal_strlit("standalone_listbox_did_resign_key");
            assert(b.name().len() == 33);
        },
        Events::RecordingInputOptionsDidResignKey => {
            reveal_strlit("recording_input_options_did_resign_key");
            assert(b.name().len() == 38);
        },
        Events::MonitorPermissions => {
            reveal_strlit("monitor_permissions");
            assert(b.name().len() == 19);
        },
        Events::StartRecordingDockOpened => {},
        Events::RecordingInputOptionsOpened => {
            reveal_strlit("recording_input_options_opened");
            assert(b.name().len() == 30);
        },
        Events::RecordingStarted => {
            reveal_strlit("recording_started");
            assert(b.name().len() == 17);
        },
        Events::ClosedStandaloneListbox => {
            reveal_strlit("closed_standalone_listbox");
            assert(b.name().len() == 25);
        },
        Events::ClosedRecordingInputOptions => {
            reveal_strlit("closed_recording_input_options");
            assert(b.name().len() == 30);
        },
        Events::CollapsedRecordingSourceSelector => {
            reveal_strlit("collapsed_recording_source_selector");
            assert(b.name().len() == 35);
        },
        Events::WindowThumbnailsGenerated => {
            reveal_strlit("window_thumbnails_generated");
            assert(b.name()[0] == 'w');
        },
        Events::RecordingComplete => {
            reveal_strlit("recording_complete");
            assert(b.name().len() == 18);
        },
        Events::ClosedEditor => {
            reveal_strlit("closed_editor");
            assert(b.name().len() == 13);
        },
        Events::ExportProgress => {
            reveal_strlit("export_progress");
            assert(b.name().len() == 15);
        },
        Events::ExportComplete => {
            reveal_strlit("export_complete");
            assert(b.name().len() == 15);
        },
    }
}

proof fn lemma_events_named_recording_input_options_opened(b: Events)
    requires
        Events::RecordingInputOptionsOpened.name() == b.name(),
    ensures
        b == Events::RecordingInputOptionsOpened,
{
    reveal_strlit("recording_input_options_opened");
    match b {
        Events::SystemAudioStreamError => {
            reveal_strlit("system_audio_stream_error");
            assert(b.name().len() == 25);
        },
        Events::MicrophoneStreamError => {
            reveal_strlit("microphone_stream_error");
            assert(b.name().len() == 23);
        },
        Events::StandaloneListboxDidResignKey => {
            reveal_strlit("standalone_listbox_did_resign_key");
            assert(b.name().len() == 33);
        },
        Events::RecordingInputOptionsDidResignKey => {
            reveal_strlit("recording_input_options_did_resign_key");
            assert(b.name().len() == 38);
        },
        Events::MonitorPermissions => {
            reveal_strlit("monitor_permissions");
            assert(b.name().len() == 19);
        },
        Events::StartRecordingDockOpened => {
            reveal_strlit("start_recording_dock_opened");
            assert(b.name().len() == 27);
        },
        Events::RecordingInputOptionsOpened => {},
        Events::RecordingStarted => {
            reveal_strlit("recording_started");
            assert(b.name().len() == 17);
        },
        Events::ClosedStandaloneListbox => {
            reveal_strlit("closed_standalone_listbox");
            assert(b.name().len() == 25);
        },
        Events::ClosedRecordingInputOptions => {
            reveal_strlit("closed_recording_input_options");
            assert(b.name()[0] == 'c');
        },
        Events::CollapsedRecordingSourceSelector => {
            reveal_strlit("collapsed_recording_source_selector");
            assert(b.name().len() == 35);
        },
        Events::WindowThumbnailsGenerated => {
            reveal_strlit("window_thumbnails_generated");
            assert(b.name().len() == 27);
        },
        Events::RecordingComplete => {
            reveal_strlit("recording_complete");
            assert(b.name().len() == 18);
        },
        Events::ClosedEditor => {
            reveal_strlit("closed_editor");
            assert(b.name().len() == 13);
        },
        Events::ExportProgress => {
            reveal_strlit("export_progress");
            assert(b.name().len() == 15);
        },
        Events::ExportComplete => {
            reveal_strlit("export_complete");
            assert(b.name().len() == 15);
        },
    }
}

proof fn lemma_events_named_recording_started(b: Events)
    requires
        Events::RecordingStarted.name() == b.name(),
    ensures
        b == Events::RecordingStarted,
{
    reveal_strlit("recording_started");
    match b {
        Events::SystemAudioStreamError => {
            reveal_strlit("system_audio_stream_error");
            assert(b.name().len() == 25);
        },
        Events::MicrophoneStreamError => {
            reveal_strlit("microphone_stream_error");
            assert(b.name().len() == 23);
        },
        Events::StandaloneListboxDidResignKey => {
            reveal_strlit("standalone_listbox_did_resign_key");
            assert(b.name().len() == 33);
        },
        Events::RecordingInputOptionsDidResignKey => {
            reveal_strlit("recording_input_options_did_resign_key");
            assert(b.name().len() == 38);
        },
        Events::MonitorPermissions => {
            reveal_strlit("monitor_permissions");
            assert(b.name().len() == 19);
        },
        Events::StartRecordingDockOpened => {
            reveal_strlit("start_recording_dock_opened");
            assert(b.name().len() == 27);
        },
        Events::RecordingInputOptionsOpened => {
            reveal_strlit("recording_input_options_opened");
            assert(b.name().len() == 30);
        },
        Events::RecordingStarted => {},
        Events::ClosedStandaloneListbox => {
            reveal_strlit("closed_standalone_listbox");
            assert(b.name().len() == 25);
        },
        Events::ClosedRecordingInputOptions => {
            reveal_strlit("closed_recording_input_options");
            assert(b.name().len() == 30);
        },
        Events::CollapsedRecordingSourceSelector => {
            reveal_strlit("collapsed_recording_source_selector");
            assert(b.name().len() == 35);
        },
        Events::WindowThumbnailsGenerated => {
            reveal_strlit("window_thumbnails_generated");
            assert(b.name().len() == 27);
        },
        Events::RecordingComplete => {
            reveal_strlit("recording_complete");
            assert(b.name().len() == 18);
        },
        Events::ClosedEditor => {
            reveal_strlit("closed_editor");
            assert(b.name().len() == 13);
        },
        Events::ExportProgress => {
            reveal_strlit("export_progress");
            assert(b.name().len() == 15);
        },
        Events::ExportComplete => {
            reveal_strlit("export_complete");
            assert(b.name().len() == 15);
        },
    }
}

proof fn lemma_events_named_closed_standalone_listbox(b: Events)
    requires
        Events::ClosedStandaloneListbox.name() == b.name(),
    ensures
        b == Events::ClosedStandaloneListbox,
{
    reveal_strlit("closed_standalone_listbox");
    match b {
        Events::SystemAudioStreamError => {
            reveal_strlit("system_audio_stream_error");
            assert(b.name()[0] == 's');
        },
        Events::MicrophoneStreamError => {
            reveal_strlit("microphone_stream_error");
            assert(b.name().len() == 23);
        },
        Events::StandaloneListboxDidResignKey => {
            reveal_strlit("standalone_listbox_did_resign_key");
            assert(b.name().len() == 33);
        },
        Events::RecordingInputOptionsDidResignKey => {
            reveal_strlit("recording_input_options_did_resign_key");
            assert(b.name().len() == 38);
        },
        Events::MonitorPermissions => {
            reveal_strlit("monitor_permissions");
            assert(b.name().len() == 19);
        },
        Events::StartRecordingDockOpened => {
            reveal_strlit("start_recording_dock_opened");
            assert(b.name().len() == 27);
        },
        Events::RecordingInputOptionsOpened => {
            reveal_strlit("recording_input_options_opened");
            assert(b.name().len() == 30);
        },
        Events::RecordingStarted => {
            reveal_strlit("recording_started");
            assert(b.name().len() == 17);
        },
        Events::ClosedStandaloneListbox => {},
        Events::ClosedRecordingInputOptions => {
            reveal_strlit("closed_recording_input_options");
            assert(b.name().len() == 30);
        },
        Events::CollapsedRecordingSourceSelector => {
            reveal_strlit("collapsed_recording_source_selector");
            assert(b.name().len() == 35);
        },
        Events::WindowThumbnailsGenerated => {
            reveal_strlit("window_thumbnails_generated");
            assert(b.name().len() == 27);
        },
        Events::RecordingComplete => {
            reveal_strlit("recording_complete");
            assert(b.name().len() == 18);
        },
        Events::ClosedEditor => {
            reveal_strlit("closed_editor");
            assert(b.name().len() == 13);
        },
        Events::ExportProgress => {
            reveal_strlit("export_progress");
            assert(b.name().len() == 15);
        },
        Events::ExportComplete => {
            reveal_strlit("export_complete");
            assert(b.name().len() == 15);
        },
    }
}

proof fn lemma_events_named_closed_recording_input_options(b: Events)
    requires
        Events::ClosedRecordingInputOptions.name() == b.name(),
    ensures
        b == Events::ClosedRecordingInputOptions,
{
    reveal_strlit("closed_recording_input_options");
    match b {
        Events::SystemAudioStreamError => {
            reveal_strlit("system_audio_stream_error");
            assert(b.name().len() == 25);
        },
        Events::MicrophoneStreamError => {
            reveal_strlit("microphone_stream_error");
            assert(b.name().len() == 23);
        },
        Events::StandaloneListboxDidResignKey => {
            reveal_strlit("standalone_listbox_did_resign_key");
            assert(b.name().len() == 33);
        },
        Events::RecordingInputOptionsDidResignKey => {
            reveal_strlit("recording_input_options_did_resign_key");
            assert(b.name().len() == 38);
        },
        Events::MonitorPermissions => {
            reveal_strlit("monitor_permissions");
            assert(b.name().len() == 19);
        },
        Events::StartRecordingDockOpened => {
            reveal_strlit("start_recording_dock_opened");
            assert(b.name().len() == 27);
        },
        Events::RecordingInputOptionsOpened => {
            reveal_strlit("recording_input_options_opened");
            assert(b.name()[0] == 'r');
        },
        Events::RecordingStarted => {
            reveal_strlit("recording_started");
            assert(b.name().len() == 17);
        },
        Events::ClosedStandaloneListbox => {
            reveal_strlit("closed_standalone_listbox");
            assert(b.name().len() == 25);
        },
        Events::ClosedRecordingInputOptions => {},
        Events::CollapsedRecordingSourceSelector => {
            reveal_strlit("collapsed_recording_source_selector");
            assert(b.name().len() == 35);
        },
        Events::WindowThumbnailsGenerated => {
            reveal_strlit("window_thumbnails_generated");
            assert(b.name().len() == 27);
        },
        Events::RecordingComplete => {
            reveal_strlit("recording_complete");
            assert(b.name().len() == 18);
        },
        Events::ClosedEditor => {
            reveal_strlit("closed_editor");
            assert(b.name().len() == 13);
        },
        Events::ExportProgress => {
            reveal_strlit("export_progress");
            assert(b.name().len() == 15);
        },
        Events::ExportComplete => {
            reveal_strlit("export_complete");
            assert(b.name().len() == 15);
        },
    }
}

proof fn lemma_events_named_collapsed_recording_source_selector(b: Events)
    requires
        Events::CollapsedRecordingSourceSelector.name() == b.name(),
    ensures
        b == Events::CollapsedRecordingSourceSelector,
{
    reveal_strlit("collapsed_recording_source_selector");
    match b {
        Events::SystemAudioStreamError => {
            reveal_strlit("system_audio_stream_error");
            assert(b.name().len() == 25);
        },
        Events::MicrophoneStreamError => {
            reveal_strlit("microphone_stream_error");
            assert(b.name().len() == 23);
        },
        Events::StandaloneListboxDidResignKey => {
            reveal_strlit("standalone_listbox_did_resign_key");
            assert(b.name().len() == 33);
        },
        Events::RecordingInputOptionsDidResignKey => {
            reveal_strlit("recording_input_options_did_resign_key");
            assert(b.name().len() == 38);
        },
        Events::MonitorPermissions => {
            reveal_strlit("monitor_permissions");
            assert(b.name().len() == 19);
        },
        Events::StartRecordingDockOpened => {
            reveal_strlit("start_recording_dock_opened");
            assert(b.name().len() == 27);
        },
        Events::RecordingInputOptionsOpened => {
            reveal_strlit("recording_input_options_opened");
            assert(b.name().len() == 30);
        },
        Events::RecordingStarted => {
            reveal_strlit("recording_started");
            assert(b.name().len() == 17);
        },
        Events::ClosedStandaloneListbox => {
            reveal_strlit("closed_standalone_listbox");
            assert(b.name().len() == 25);
        },
        Events::ClosedRecordingInputOptions => {
            reveal_strlit("closed_recording_input_options");
            assert(b.name().len() == 30);
        },
        Events::CollapsedRecordingSourceSelector => {},
        Events::WindowThumbnailsGenerated => {
            reveal_strlit("window_thumbnails_generated");
            assert(b.name().len() == 27);
        },
        Events::RecordingComplete => {
            reveal_strlit("recording_complete");
            assert(b.name().len() == 18);
        },
        Events::ClosedEditor => {
            reveal_strlit("closed_editor");
            assert(b.name().len() == 13);
        },
        Events::ExportProgress => {
            reveal_strlit("export_progress");
            assert(b.name().len() == 15);
        },
        Events::ExportComplete => {
            reveal_strlit("export_complete");
            assert(b.name().len() == 15);
        },
    }
}

proof fn lemma_events_named_window_thumbnails_generated(b: Events)
    requires
        Events::WindowThumbnailsGenerated.name() == b.name(),
    ensures
        b == Events::WindowThumbnailsGenerated,
{
    reveal_strlit("window_thumbnails_generated");
    match b {
        Events::SystemAudioStreamError => {
            reveal_strlit("system_audio_stream_error");
            assert(b.name().len() == 25);
        },
        Events::MicrophoneStreamError => {
            reveal_strlit("microphone_stream_error");
            assert(b.name().len() == 23);
        },
        Events::StandaloneListboxDidResignKey => {
            reveal_strlit("standalone_listbox_did_resign_key");
            assert(b.name().len() == 33);
        },
        Events::RecordingInputOptionsDidResignKey => {
            reveal_strlit("recording_input_options_did_resign_key");
            assert(b.name().len() == 38);
        },
        Events::MonitorPermissions => {
            reveal_strlit("monitor_permissions");
            assert(b.name().len() == 19);
        },
        Events::StartRecordingDockOpened => {
            reveal_strlit("start_recording_dock_opened");
            assert(b.name()[0] == 's');
        },
        Events::RecordingInputOptionsOpened => {
            reveal_strlit("recording_input_options_opened");
            assert(b.name().len() == 30);
        },
        Events::RecordingStarted => {
            reveal_strlit("recording_started");
            assert(b.name().len() == 17);
        },
        Events::ClosedStandaloneListbox => {
            reveal_strlit("closed_standalone_listbox");
            assert(b.name().len() == 25);
        },
        Events::ClosedRecordingInputOptions => {
            reveal_strlit("closed_recording_input_options");
            assert(b.name().len() == 30);
        },
        Events::CollapsedRecordingSourceSelector => {
            reveal_strlit("collapsed_recording_source_selector");
            assert(b.name().len() == 35);
        },
        Events::WindowThumbnailsGenerated => {},
        Events::RecordingComplete => {
            reveal_strlit("recording_complete");
            assert(b.name().len() == 18);
        },
        Events::ClosedEditor => {
            reveal_strlit("closed_editor");
            assert(b.name().len() == 13);
        },
        Events::ExportProgress => {
            reveal_strlit("export_progress");
            assert(b.name().len() == 15);
        },
        Events::ExportComplete => {
            reveal_strlit("export_complete");
            assert(b.name().len() == 15);
        },
    }
}

proof fn lemma_events_named_recording_complete(b: Events)
    requires
        Events::RecordingComplete.name() == b.name(),
    ensures
        b == Events::RecordingComplete,
{
    reveal_strlit("recording_complete");
    match b {
        Events::SystemAudioStreamError => {
            reveal_strlit("system_audio_stream_error");
            assert(b.name().len() == 25);
        },
        Events::MicrophoneStreamError => {
            reveal_strlit("microphone_stream_error");
            assert(b.name().len() == 23);
        },
        Events::StandaloneListboxDidResignKey => {
            reveal_strlit("standalone_listbox_did_resign_key");
            assert(b.name().len() == 33);
        },
        Events::RecordingInputOptionsDidResignKey => {
            reveal_strlit("recording_input_options_did_resign_key");
            assert(b.name().len() == 38);
        },
        Events::MonitorPermissions => {
            reveal_strlit("monitor_permissions");
            assert(b.name().len() == 19);
        },
        Events::StartRecordingDockOpened => {
            reveal_strlit("start_recording_dock_opened");
            assert(b.name().len() == 27);
        },
        Events::RecordingInputOptionsOpened => {
            reveal_strlit("recording_input_options_opened");
            assert(b.name().len() == 30);
        },
        Events::RecordingStarted => {
            reveal_strlit("recording_started");
            assert(b.name().len() == 17);
        },
        Events::ClosedStandaloneListbox => {
            reveal_strlit("closed_standalone_listbox");
            assert(b.name().len() == 25);
        },
        Events::ClosedRecordingInputOptions => {
            reveal_strlit("closed_recording_input_options");
            assert(b.name().len() == 30);
        },
        Events::CollapsedRecordingSourceSelector => {
            reveal_strlit("collapsed_recording_source_selector");
            assert(b.name().len() == 35);
        },
        Events::WindowThumbnailsGenerated => {
            reveal_strlit("window_thumbnails_generated");
            assert(b.name().len() == 27);
        },
        Events::RecordingComplete => {},
        Events::ClosedEditor => {
            reveal_strlit("closed_editor");
            assert(b.name().len() == 13);
        },
        Events::ExportProgress => {
            reveal_strlit("export_progress");
            assert(b.name().len() == 15);
        },
        Events::ExportComplete => {
            reveal_strlit("export_complete");
            assert(b.name().len() == 15);
        },
    }
}

proof fn lemma_events_named_closed_editor(b: Events)
    requires
        Events::ClosedEditor.name() == b.name(),
    ensures
        b == Events::ClosedEditor,
{
    reveal_strlit("closed_editor");
    match b {
        Events::SystemAudioStreamError => {
            reveal_strlit("system_audio_stream_error");
            assert(b.name().len() == 25);
        },
        Events::MicrophoneStreamError => {
            reveal_strlit("microphone_stream_error");
            assert(b.name().len() == 23);
        },
        Events::StandaloneListboxDidResignKey => {
            reveal_strlit("standalone_listbox_did_resign_key");
            assert(b.name().len() == 33);
        },
        Events::RecordingInputOptionsDidResignKey => {
            reveal_strlit("recording_input_options_did_resign_key");
            assert(b.name().len() == 38);
        },
        Events::MonitorPermissions => {
            reveal_strlit("monitor_permissions");
            assert(b.name().len() == 19);
        },
        Events::StartRecordingDockOpened => {
            reveal_strlit("start_recording_dock_opened");
            assert(b.name().len() == 27);
        },
        Events::RecordingInputOptionsOpened => {
            reveal_strlit("recording_input_options_opened");
            assert(b.name().len() == 30);
        },
        Events::RecordingStarted => {
            reveal_strlit("recording_started");
            assert(b.name().len() == 17);
        },
        Events::ClosedStandaloneListbox => {
            reveal_strlit("closed_standalone_listbox");
            assert(b.name().len() == 25);
        },
        Events::ClosedRecordingInputOptions => {
            reveal_strlit("closed_recording_input_options");
            assert(b.name().len() == 30);
        },
        Events::CollapsedRecordingSourceSelector => {
            reveal_strlit("collapsed_recording_source_selector");
            assert(b.name().len() == 35);
        },
        Events::WindowThumbnailsGenerated => {
            reveal_strlit("window_thumbnails_generated");
            assert(b.name().len() == 27);
        },
        Events::RecordingComplete => {
            reveal_strlit("recording_complete");
            assert(b.name().len() == 18);
        },
        Events::ClosedEditor => {},
        Events::ExportProgress => {
            reveal_strlit("export_progress");
            assert(b.name().len() == 15);
        },
        Events::ExportComplete => {
            reveal_strlit("export_complete");
            assert(b.name().len() == 15);
        },
    }
}

proof fn lemma_events_named_export_progress(b: Events)
    requires
        Events::ExportProgress.name() == b.name(),
    ensures
        b == Events::ExportProgress,
{
    reveal_strlit("export_progress");
    match b {
        Events::SystemAudioStreamError => {
            reveal_strlit("system_audio_stream_error");
            assert(b.name().len() == 25);
        },
        Events::MicrophoneStreamError => {
            reveal_strlit("microphone_stream_error");
            assert(b.name().len() == 23);
        },
        Events::StandaloneListboxDidResignKey => {
            reveal_strlit("standalone_listbox_did_resign_key");
            assert(b.name().len() == 33);
        },
        Events::RecordingInputOptionsDidResignKey => {
            reveal_strlit("recording_input_options_did_resign_key");
            assert(b.name().len() == 38);
        },
        Events::MonitorPermissions => {
            reveal_strlit("monitor_permissions");
            assert(b.name().len() == 19);
        },
        Events::StartRecordingDockOpened => {
            reveal_strlit("start_recording_dock_opened");
            assert(b.name().len() == 27);
        },
        Events::RecordingInputOptionsOpened => {
            reveal_strlit("recording_input_options_opened");
            assert(b.name().len() == 30);
        },
        Events::RecordingStarted => {
            reveal_strlit("recording_started");
            assert(b.name().len() == 17);
        },
        Events::ClosedStandaloneListbox => {
            reveal_strlit("closed_standalone_listbox");
            assert(b.name().len() == 25);
        },
        Events::ClosedRecordingInputOptions => {
            reveal_strlit("closed_recording_input_options");
            assert(b.name().len() == 30);
        },
        Events::CollapsedRecordingSourceSelector => {
            reveal_strlit("collapsed_recording_source_selector");
            assert(b.name().len() == 35);
        },
        Events::WindowThumbnailsGenerated => {
            reveal_strlit("window_thumbnails_generated");
            assert(b.name().len() == 27);
        },
        Events::RecordingComplete => {
            reveal_strlit("recording_complete");
            assert(b.name().len() == 18);
        },
        Events::ClosedEditor => {
            reveal_strlit("closed_editor");
            assert(b.name().len() == 13);
        },
        Events::ExportProgress => {},
        Events::ExportComplete => {
            reveal_strlit("export_complete");
            assert(b.name()[7] == 'c');
        },
    }
}

proof fn lemma_events_named_export_complete(b: Events)
    requires
        Events::ExportComplete.name() == b.name(),
    ensures
        b == Events::ExportComplete,
{
    reveal_strlit("export_complete");
    match b {
        Events::SystemAudioStreamError => {
            reveal_strlit("system_audio_stream_error");
            assert(b.name().len() == 25);
        },
        Events::MicrophoneStreamError => {
            reveal_strlit("microphone_stream_error");
            assert(b.name().len() == 23);
        },
        Events::StandaloneListboxDidResignKey => {
            reveal_strlit("standalone_listbox_did_resign_key");
            assert(b.name().len() == 33);
        },
        Events::RecordingInputOptionsDidResignKey => {
            reveal_strlit("recording_input_options_did_resign_key");
            assert(b.name().len() == 38);
        },
        Events::MonitorPermissions => {
            reveal_strlit("monitor_permissions");
            assert(b.name().len() == 19);
        },
        Events::StartRecordingDockOpened => {
            reveal_strlit("start_recording_dock_opened");
            assert(b.name().len() == 27);
        },
        Events::RecordingInputOptionsOpened => {
            reveal_strlit("recording_input_options_opened");
            assert(b.name().len() == 30);
        },
        Events::RecordingStarted => {
            reveal_strlit("recording_started");
            assert(b.name().len() == 17);
        },
        Events::ClosedStandaloneListbox => {
            reveal_strlit("closed_standalone_listbox");
            assert(b.name().len() == 25);
        },
        Events::ClosedRecordingInputOptions => {
            reveal_strlit("closed_recording_input_options");
            assert(b.name().len() == 30);
        },
        Events::CollapsedRecordingSourceSelector => {
            reveal_strlit("collapsed_recording_source_selector");
            assert(b.name().len() == 35);
        },
        Events::WindowThumbnailsGenerated => {
            reveal_strlit("window_thumbnails_generated");
            assert(b.name().len() == 27);
        },
        Events::RecordingComplete => {
            reveal_strlit("recording_complete");
            assert(b.name().len() == 18);
        },
        Events::ClosedEditor => {
            reveal_strlit("closed_editor");
            assert(b.name().len() == 13);
        },
        Events::ExportProgress => {
            reveal_strlit("export_progress");
            assert(b.name()[7] == 'p');
        },
        Events::ExportComplete => {},
    }
}

/// Different variants of `Events` have different names, so a name identifies its variant.
pub proof fn lemma_events_names_distinct(a: Events, b: Events)
    requires
        a.name() == b.name(),
    ensures
        a == b,
{
    match a {
        Events::SystemAudioStreamError => lemma_events_named_system_audio_stream_error(b),
        Events::MicrophoneStreamError => lemma_events_named_microphone_stream_error(b),
        Events::StandaloneListboxDidResignKey => lemma_events_named_standalone_listbox_did_resign_key(b),
        Events::RecordingInputOptionsDidResignKey => lemma_events_named_recording_input_options_did_resign_key(b),
        Events::MonitorPermissions => lemma_events_named_monitor_permissions(b),
        Events::StartRecordingDockOpened => lemma_events_named_start_recording_dock_opened(b),
        Events::RecordingInputOptionsOpened => lemma_events_named_recording_input_options_opened(b),
        Events::RecordingStarted => lemma_events_named_recording_started(b),
        Events::ClosedStandaloneListbox => lemma_events_named_closed_standalone_listbox(b),
        Events::ClosedRecordingInputOptions => lemma_events_named_closed_recording_input_options(b),
        Events::CollapsedRecordingSourceSelector => lemma_events_named_collapsed_recording_source_selector(b),
        Events::WindowThumbnailsGenerated => lemma_events_named_window_thumbnails_generated(b),
        Events::RecordingComplete => lemma_events_named_recording_complete(b),
        Events::ClosedEditor => lemma_events_named_closed_editor(b),
        Events::ExportProgress => lemma_events_named_export_progress(b),
        Events::ExportComplete => lemma_events_named_export_complete(b),
    }
}

/// Labels of the application's windows.
#[derive(Debug, Clone, Copy, PartialEq, Eq, Hash)]
pub enum WindowLabel {
    RequestPermissions,
    StartRecordingDock,
    StandaloneListbox,
    RecordingInputOptions,
    RegionSelector,
    RecordingSourceSelector,
    RecordingDock,
    Editor,
}

impl WindowLabel {
    /// Window label as the interface knows it.
    pub open spec fn name(self) -> Seq<char> {
        match self {
            WindowLabel::RequestPermissions => "request_permissions"@,
            WindowLabel::StartRecordingDock => "start_recording_dock"@,
            WindowLabel::StandaloneListbox => "standalone_listbox"@,
            WindowLabel::RecordingInputOptions => "recording_input_options"@,
            WindowLabel::RegionSelector => "region_selector"@,
            WindowLabel::RecordingSourceSelector => "recording_source_selector"@,
            WindowLabel::RecordingDock => "recording_dock"@,
            WindowLabel::Editor => "editor"@,
        }
    }

    pub fn as_ref(&self) -> (s: &'static str)
        ensures
            s@ == self.name(),
    {
        match self {
            WindowLabel::RequestPermissions => "request_permissions",
            WindowLabel::StartRecordingDock => "start_recording_dock",
            WindowLabel::StandaloneListbox => "standalone_listbox",
            WindowLabel::RecordingInputOptions => "recording_input_options",
            WindowLabel::RegionSelector => "region_selector",
            WindowLabel::RecordingSourceSelector => "recording_source_selector",
            WindowLabel::RecordingDock => "recording_dock",
            WindowLabel::Editor => "editor",
        }
    }

    /// The name as an owned string, what `to_string` gives.
    pub fn to_string(&self) -> (s: String)
        ensures
            s@ == self.name(),
    {
        let v = str_to_chars(self.as_ref());
        chars_to_string(&v)
    }

    /// The variant with the given name, if any.
    pub fn from_name(s: &str) -> (r: Option<WindowLabel>)
        ensures
            match r {
                Some(e) => e.name() == s@,
                None => forall|e: WindowLabel| e.name() != s@,
            },
    {
        if str_eq(s, "request_permissions") {
            return Some(WindowLabel::RequestPermissions);
        }
        if str_eq(s, "start_recording_dock") {
            return Some(WindowLabel::StartRecordingDock);
        }
        if str_eq(s, "standalone_listbox") {
            return Some(WindowLabel::StandaloneListbox);
        }
        if str_eq(s, "recording_input_options") {
            return Some(WindowLabel::RecordingInputOptions);
        }
        if str_eq(s, "region_selector") {
            return Some(WindowLabel::RegionSelector);
        }
        if str_eq(s, "recording_source_selector") {
            return Some(WindowLabel::RecordingSourceSelector);
        }
        if str_eq(s, "recording_dock") {
            return Some(WindowLabel::RecordingDock);
        }
        if str_eq(s, "editor") {
            return Some(WindowLabel::Editor);
        }
        assert forall|e: WindowLabel| e.name() != s@ by {
            match e {
                WindowLabel::RequestPermissions => {},
                WindowLabel::StartRecordingDock => {},
                WindowLabel::StandaloneListbox => {},
                WindowLabel::RecordingInputOptions => {},
                WindowLabel::RegionSelector => {},
                WindowLabel::RecordingSourceSelector => {},
                WindowLabel::RecordingDock => {},
                WindowLabel::Editor => {},
            }
        }
        None
    }
}

proof fn lemma_window_label_named_request_permissions(b: WindowLabel)
    requires
        WindowLabel::RequestPermissions.name() == b.name(),
    ensures
        b == WindowLabel::RequestPermissions,
{
    reveal_strlit("request_permissions");
    match b {
        WindowLabel::RequestPermissions => {},
        WindowLabel::StartRecordingDock => {
            reveal_strlit("start_recording_dock");
            assert(b.name().len() == 20);
        },
        WindowLabel::StandaloneListbox => {
            reveal_strlit("standalone_listbox");
            assert(b.name().len() == 18);
        },
        WindowLabel::RecordingInputOptions => {
            reveal_strlit("recording_input_options");
            assert(b.name().len() == 23);
        },
        WindowLabel::RegionSelector => {
            reveal_strlit("region_selector");
            assert(b.name().len() == 15);
        },
        WindowLabel::RecordingSourceSelector => {
            reveal_strlit("recording_source_selector");
            assert(b.name().len() == 25);
        },
        WindowLabel::RecordingDock => {
            reveal_strlit("recording_dock");
            assert(b.name().len() == 14);
        },
        WindowLabel::Editor => {
            reveal_strlit("editor");
            assert(b.name().len() == 6);
        },
    }
}

proof fn lemma_window_label_named_start_recording_dock(b: WindowLabel)
    requires
        WindowLabel::StartRecordingDock.name() == b.name(),
    ensures
        b == WindowLabel::StartRecordingDock,
{
    reveal_strlit("start_recording_dock");
    match b {
        WindowLabel::RequestPermissions => {
            reveal_strlit("request_permissions");
            assert(b.name().len() == 19);
        },
        WindowLabel::StartRecordingDock => {},
        WindowLabel::StandaloneListbox => {
            reveal_strlit("standalone_listbox");
            assert(b.name().len() == 18);
        },
        WindowLabel::RecordingInputOptions => {
            reveal_strlit("recording_input_options");
            assert(b.name().len() == 23);
        },
        WindowLabel::RegionSelector => {
            reveal_strlit("region_selector");
            assert(b.name().len() == 15);
        },
        WindowLabel::RecordingSourceSelector => {
            reveal_strlit("recording_source_selector");
            assert(b.name().len() == 25);
        },
        WindowLabel::RecordingDock => {
            reveal_strlit("recording_dock");
            assert(b.name().len() == 14);
        },
        WindowLabel::Editor => {
            reveal_strlit("editor");
            assert(b.name().len() == 6);
        },
    }
}

proof fn lemma_window_label_named_standalone_listbox(b: WindowLabel)
    requires
        WindowLabel::StandaloneListbox.name() == b.name(),
    ensures
        b == WindowLabel::StandaloneListbox,
{
    reveal_strlit("standalone_listbox");
    match b {
        WindowLabel::RequestPermissions => {
            reveal_strlit("request_permissions");
            assert(b.name().len() == 19);
        },
        WindowLabel::StartRecordingDock => {
            reveal_strlit("start_recording_dock");
            assert(b.name().len() == 20);
        },
        WindowLabel::StandaloneListbox => {},
        WindowLabel::RecordingInputOptions => {
            reveal_strlit("recording_input_options");
            assert(b.name().len() == 23);
        },
        WindowLabel::RegionSelector => {
            reveal_strlit("region_selector");
            assert(b.name().len() == 15);
        },
        WindowLabel::RecordingSourceSelector => {
            reveal_strlit("recording_source_selector");
            assert(b.name().len() == 25);
        },
        WindowLabel::RecordingDock => {
            reveal_strlit("recording_dock");
            assert(b.name().len() == 14);
        },
        WindowLabel::Editor => {
            reveal_strlit("editor");
            assert(b.name().len() == 6);
        },
    }
}

proof fn lemma_window_label_named_recording_input_options(b: WindowLabel)
    requires
        WindowLabel::RecordingInputOptions.name() == b.name(),
    ensures
        b == WindowLabel::RecordingInputOptions,
{
    reveal_strlit("recording_input_options");
    match b {
        WindowLabel::RequestPermissions => {
            reveal_strlit("request_permissions");
            assert(b.name().len() == 19);
        },
        WindowLabel::StartRecordingDock => {
            reveal_strlit("start_recording_dock");
            assert(b.name().len() == 20);
        },
        WindowLabel::StandaloneListbox => {
            reveal_strlit("standalone_listbox");
            assert(b.name().len() == 18);
        },
        WindowLabel::RecordingInputOptions => {},
        WindowLabel::RegionSelector => {
            reveal_strlit("region_selector");
            assert(b.name().len() == 15);
        },
        WindowLabel::RecordingSourceSelector => {
            reveal_strlit("recording_source_selector");
            assert(b.name().len() == 25);
        },
        WindowLabel::RecordingDock => {
            reveal_strlit("recording_dock");
            assert(b.name().len() == 14);
        },
        WindowLabel::Editor => {
            reveal_strlit("editor");
            assert(b.name().len() == 6);
        },
    }
}

proof fn lemma_window_label_named_region_selector(b: WindowLabel)
    requires
        WindowLabel::RegionSelector.name() == b.name(),
    ensures
        b == WindowLabel::RegionSelector,
{
    reveal_strlit("region_selector");
    match b {
        WindowLabel::RequestPermissions => {
            reveal_strlit("request_permissions");
            assert(b.name().len() == 19);
        },
        WindowLabel::StartRecordingDock => {
            reveal_strlit("start_recording_dock");
            assert(b.name().len() == 20);
        },
        WindowLabel::StandaloneListbox => {
            reveal_strlit("standalone_listbox");
            assert(b.name().len() == 18);
        },
        WindowLabel::RecordingInputOptions => {
            reveal_strlit("recording_input_options");
            assert(b.name().len() == 23);
        },
        WindowLabel::RegionSelector => {},
        WindowLabel::RecordingSourceSelector => {
            reveal_strlit("recording_source_selector");
            assert(b.name().len() == 25);
        },
        WindowLabel::RecordingDock => {
            reveal_strlit("recording_dock");
            assert(b.name().len() == 14);
        },
        WindowLabel::Editor => {
            reveal_strlit("editor");
            assert(b.name().len() == 6);
        },
    }
}

proof fn lemma_window_label_named_recording_source_selector(b: WindowLabel)
    requires
        WindowLabel::RecordingSourceSelector.name() == b.name(),
    ensures
        b == WindowLabel::RecordingSourceSelector,
{
    reveal_strlit("recording_source_selector");
    match b {
        WindowLabel::RequestPermissions => {
            reveal_strlit("request_permissions");
            assert(b.name().len() == 19);
        },
        WindowLabel::StartRecordingDock => {
            reveal_strlit("start_recording_dock");
            assert(b.name().len() == 20);
        },
        WindowLabel::StandaloneListbox => {
            reveal_strlit("standalone_listbox");
            assert(b.name().len() == 18);
        },
        WindowLabel::RecordingInputOptions => {
            reveal_strlit("recording_input_options");
            assert(b.name().len() == 23);
        },
        WindowLabel::RegionSelector => {
            reveal_strlit("region_selector");
            assert(b.name().len() == 15);
        },
        WindowLabel::RecordingSourceSelector => {},
        WindowLabel::RecordingDock => {
            reveal_strlit("recording_dock");
            assert(b.name().len() == 14);
        },
        WindowLabel::Editor => {
            reveal_strlit("editor");
            assert(b.name().len() == 6);
        },
    }
}

proof fn lemma_window_label_named_recording_dock(b: WindowLabel)
    requires
        WindowLabel::RecordingDock.name() == b.name(),
    ensures
        b == WindowLabel::RecordingDock,
{
    reveal_strlit("recording_dock");
    match b {
        WindowLabel::RequestPermissions => {
            reveal_strlit("request_permissions");
            assert(b.name().len() == 19);
        },
        WindowLabel::StartRecordingDock => {
            reveal_strlit("start_recording_dock");
            assert(b.name().len() == 20);
        },
        WindowLabel::StandaloneListbox => {
            reveal_strlit("standalone_listbox");
            assert(b.name().len() == 18);
        },
        WindowLabel::RecordingInputOptions => {
            reveal_strlit("recording_input_options");
            assert(b.name().len() == 23);
        },
        WindowLabel::RegionSelector => {
            reveal_strlit("region_selector");
            assert(b.name().len() == 15);
        },
        WindowLabel::RecordingSourceSelector => {
            reveal_strlit("recording_source_selector");
            assert(b.name().len() == 25);
        },
        WindowLabel::RecordingDock => {},
        WindowLabel::Editor => {
            reveal_strlit("editor");
            assert(b.name().len() == 6);
        },
    }
}

proof fn lemma_window_label_named_editor(b: WindowLabel)
    requires
        WindowLabel::Editor.name() == b.name(),
    ensures
        b == WindowLabel::Editor,
{
    reveal_strlit("editor");
    match b {
        WindowLabel::RequestPermissions => {
            reveal_strlit("request_permissions");
            assert(b.name().len() == 19);
        },
        WindowLabel::StartRecordingDock => {
            reveal_strlit("start_recording_dock");
            assert(b.name().len() == 20);
        },
        WindowLabel::StandaloneListbox => {
            reveal_strlit("standalone_listbox");
            assert(b.name().len() == 18);
        },
        WindowLabel::RecordingInputOptions => {
            reveal_strlit("recording_input_options");
            assert(b.name().len() == 23);
        },
        WindowLabel::RegionSelector => {
            reveal_strlit("region_selector");
            assert(b.name().len() == 15);
        },
        WindowLabel::RecordingSourceSelector => {
            reveal_strlit("recording_source_selector");
            assert(b.name().len() == 25);
        },
        WindowLabel::RecordingDock => {
            reveal_strlit("recording_dock");
            assert(b.name().len() == 14);
        },
        WindowLabel::Editor => {},
    }
}

/// Different variants of `WindowLabel` have different names, so a name identifies its variant.
pub proof fn lemma_window_label_names_distinct(a: WindowLabel, b: WindowLabel)
    requires
        a.name() == b.name(),
    ensures
        a == b,
{
    match a {
        WindowLabel::RequestPermissions => lemma_window_label_named_request_permissions(b),
        WindowLabel::StartRecordingDock => lemma_window_label_named_start_recording_dock(b),
        WindowLabel::StandaloneListbox => lemma_window_label_named_standalone_listbox(b),
        WindowLabel::RecordingInputOptions => lemma_window_label_named_recording_input_options(b),
        WindowLabel::RegionSelector => lemma_window_label_named_region_selector(b),
        WindowLabel::RecordingSourceSelector => lemma_window_label_named_recording_source_selector(b),
        WindowLabel::RecordingDock => lemma_window_label_named_recording_dock(b),
        WindowLabel::Editor => lemma_window_label_named_editor(b),
    }
}

/// Ordering level of a floating panel, above the main menu level.
#[derive(Debug, Clone, Copy, PartialEq, Eq, Hash)]
pub enum PanelLevel {
    RegionSelector,
    StartRecordingDock,
    RecordingSourceSelector,
    RecordingInputOptions,
    StandaloneListBox,
    RecordingDock,
}

impl PanelLevel {
    /// Numeric level; starts at 3 so panels render over full screen apps.
    pub open spec fn level(self) -> i32 {
        match self {
            PanelLevel::RegionSelector => 3,
            PanelLevel::StartRecordingDock => 4,
            PanelLevel::RecordingSourceSelector => 5,
            PanelLevel::RecordingInputOptions => 6,
            PanelLevel::StandaloneListBox => 7,
            PanelLevel::RecordingDock => 8,
        }
    }

    pub fn value(self) -> (v: i32)
        ensures
            v == self.level(),
    {
        match self {
            PanelLevel::RegionSelector => 3,
            PanelLevel::StartRecordingDock => 4,
            PanelLevel::RecordingSourceSelector => 5,
            PanelLevel::RecordingInputOptions => 6,
            PanelLevel::StandaloneListBox => 7,
            PanelLevel::RecordingDock => 8,
        }
    }
}

} // verus!
