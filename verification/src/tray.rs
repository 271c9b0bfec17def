//! The system tray: its icon for each state of the application, its menu,
//! and what a click on it does.
use vstd::prelude::*;

use crate::text::{chars_to_string, str_eq, str_to_chars};

verus! {

/// The icons the system tray shows: idle, recording, paused, and busy between them.
#[derive(Debug, Clone, Copy, PartialEq, Eq, Structural)]
pub enum SystemTrayIcon {
    Default,
    Recording,
    Paused,
    Loading,
}

impl SystemTrayIcon {
    /// The icon's name, what `to_string` gives.
    pub open spec fn name(self) -> Seq<char> {
        match self {
            SystemTrayIcon::Default => "Default"@,
            SystemTrayIcon::Recording => "Recording"@,
            SystemTrayIcon::Paused => "Paused"@,
            SystemTrayIcon::Loading => "Loading"@,
        }
    }

    pub fn as_ref(&self) -> (s: &'static str)
        ensures
            s@ == self.name(),
    {
        match self {
            SystemTrayIcon::Default => "Default",
            SystemTrayIcon::Recording => "Recording",
            SystemTrayIcon::Paused => "Paused",
            SystemTrayIcon::Loading => "Loading",
        }
    }

    /// The name as an owned string, what `to_string` gives.
    pub fn to_string(&self) -> (s: String)
        ensures
            s@ == self.name(),
    {
        let v = str_to_chars(self.as_ref());
        chars_to_string(&v)
    }

    /// The variant with the given name, if any.
    pub fn from_name(s: &str) -> (r: Option<SystemTrayIcon>)
        ensures
            match r {
                Some(e) => e.name() == s@,
                None => forall|e: SystemTrayIcon| e.name() != s@,
            },
    {
        if str_eq(s, "Default") {
            return Some(SystemTrayIcon::Default);
        }
        if str_eq(s, "Recording") {
            return Some(SystemTrayIcon::Recording);
        }
        if str_eq(s, "Paused") {
            return Some(SystemTrayIcon::Paused);
        }
        if str_eq(s, "Loading") {
            return Some(SystemTrayIcon::Loading);
        }
        assert forall|e: SystemTrayIcon| e.name() != s@ by {
            match e {
                SystemTrayIcon::Default => {},
                SystemTrayIcon::Recording => {},
                SystemTrayIcon::Paused => {},
                SystemTrayIcon::Loading => {},
            }
        }
        None
    }
}

proof fn lemma_system_tray_icon_named_default(b: SystemTrayIcon)
    requires
        SystemTrayIcon::Default.name() == b.name(),
    ensures
        b == SystemTrayIcon::Default,
{
    reveal_strlit("Default");
    match b {
        SystemTrayIcon::Default => {},
        SystemTrayIcon::Recording => {
            reveal_strlit("Recording");
            assert(b.name().len() == 9);
        },
        SystemTrayIcon::Paused => {
            reveal_strlit("Paused");
            assert(b.name().len() == 6);
        },
        SystemTrayIcon::Loading => {
            reveal_strlit("Loading");
            assert(b.name()[0] == 'L');
        },
    }
}

proof fn lemma_system_tray_icon_named_recording(b: SystemTrayIcon)
    requires
        SystemTrayIcon::Recording.name() == b.name(),
    ensures
        b == SystemTrayIcon::Recording,
{
    reveal_strlit("Recording");
    match b {
        SystemTrayIcon::Default => {
            reveal_strlit("Default");
            assert(b.name().len() == 7);
        },
        SystemTrayIcon::Recording => {},
        SystemTrayIcon::Paused => {
            reveal_strlit("Paused");
            assert(b.name().len() == 6);
        },
        SystemTrayIcon::Loading => {
            reveal_strlit("Loading");
            assert(b.name().len() == 7);
        },
    }
}

proof fn lemma_system_tray_icon_named_paused(b: SystemTrayIcon)
    requires
        SystemTrayIcon::Paused.name() == b.name(),
    ensures
        b == SystemTrayIcon::Paused,
{
    reveal_strlit("Paused");
    match b {
        SystemTrayIcon::Default => {
            reveal_strlit("Default");
            assert(b.name().len() == 7);
        },
        SystemTrayIcon::Recording => {
            reveal_strlit("Recording");
            assert(b.name().len() == 9);
        },
        SystemTrayIcon::Paused => {},
        SystemTrayIcon::Loading => {
            reveal_strlit("Loading");
            assert(b.name().len() == 7);
        },
    }
}

proof fn lemma_system_tray_icon_named_loading(b: SystemTrayIcon)
    requires
        SystemTrayIcon::Loading.name() == b.name(),
    ensures
        b == SystemTrayIcon::Loading,
{
    reveal_strlit("Loading");
    match b {
        SystemTrayIcon::Default => {
            reveal_strlit("Default");
            assert(b.name()[0] == 'D');
        },
        SystemTrayIcon::Recording => {
            reveal_strlit("Recording");
            assert(b.name().len() == 9);
        },
        SystemTrayIcon::Paused => {
            reveal_strlit("Paused");
            assert(b.name().len() == 6);
        },
        SystemTrayIcon::Loading => {},
    }
}

/// Different variants of `SystemTrayIcon` have different names, so a name identifies its variant.
pub proof fn lemma_system_tray_icon_names_distinct(a: SystemTrayIcon, b: SystemTrayIcon)
    requires
        a.name() == b.name(),
    ensures
        a == b,
{
    match a {
        SystemTrayIcon::Default => lemma_system_tray_icon_named_default(b),
        SystemTrayIcon::Recording => lemma_system_tray_icon_named_recording(b),
        SystemTrayIcon::Paused => lemma_system_tray_icon_named_paused(b),
        SystemTrayIcon::Loading => lemma_system_tray_icon_named_loading(b),
    }
}


/// The icon file shown for each tray icon.
pub open spec fn icon_file_name(icon: SystemTrayIcon) -> Seq<char> {
    match icon {
        SystemTrayIcon::Default => "system-tray-default.ico"@,
        SystemTrayIcon::Recording => "system-tray-recording.ico"@,
        SystemTrayIcon::Paused => "system-tray-paused.ico"@,
        SystemTrayIcon::Loading => "system-tray-loading.ico"@,
    }
}

impl SystemTrayIcon {
    /// The name of the icon's file among the application's icons.
    pub fn icon_file(&self) -> (s: &'static str)
        ensures
            s@ == icon_file_name(*self),
    {
        match self {
            SystemTrayIcon::Default => "system-tray-default.ico",
            SystemTrayIcon::Recording => "system-tray-recording.ico",
            SystemTrayIcon::Paused => "system-tray-paused.ico",
            SystemTrayIcon::Loading => "system-tray-loading.ico",
        }
    }

    /// The tray has its menu only while it shows the idle icon; during a
    /// recording a click controls the recording instead.
    pub fn shows_menu(&self) -> (b: bool)
        ensures
            b == (*self == SystemTrayIcon::Default),
    {
        match self {
            SystemTrayIcon::Default => true,
            _ => false,
        }
    }
}

/// A click on the tray icon, as far as the tray cares: which button was
/// released, or anything else.
#[derive(Debug, Clone, Copy, PartialEq, Eq, Structural)]
pub enum TrayClick {
    LeftUp,
    RightUp,
    Other,
}

/// What a click on the tray icon sets off.
#[derive(Debug, Clone, Copy, PartialEq, Eq, Structural)]
pub enum TrayAction {
    Nothing,
    ResumeRecording,
    PauseRecording,
    ShowStartRecordingDock,
    StopRecording,
}

/// What a click sets off: nothing until the recording source selector is
/// set up; a left click pauses a running recording, resumes a paused one,
/// and otherwise opens the start dock; a right click stops a recording.
pub open spec fn tray_action(selector_ready: bool, click: TrayClick, is_recording: bool, is_paused: bool) -> TrayAction {
    if !selector_ready {
        TrayAction::Nothing
    } else {
        match click {
            TrayClick::LeftUp => if is_recording {
                if is_paused {
                    TrayAction::ResumeRecording
                } else {
                    TrayAction::PauseRecording
                }
            } else {
                TrayAction::ShowStartRecordingDock
            },
            TrayClick::RightUp => if is_recording {
                TrayAction::StopRecording
            } else {
                TrayAction::Nothing
            },
            TrayClick::Other => TrayAction::Nothing,
        }
    }
}

/// [`tray_action`] for one click.
pub fn tray_click_action(selector_ready: bool, click: TrayClick, is_recording: bool, is_paused: bool) -> (a: TrayAction)
    ensures
        a == tray_action(selector_ready, click, is_recording, is_paused),
{
    if !selector_ready {
        return TrayAction::Nothing;
    }
    match click {
        TrayClick::LeftUp => {
            if is_recording {
                if is_paused {
                    TrayAction::ResumeRecording
                } else {
                    TrayAction::PauseRecording
                }
            } else {
                TrayAction::ShowStartRecordingDock
            }
        },
        TrayClick::RightUp => {
            if is_recording {
                TrayAction::StopRecording
            } else {
                TrayAction::Nothing
            }
        },
        TrayClick::Other => TrayAction::Nothing,
    }
}

/// What an entry of the tray menu does.
#[derive(Debug, Clone, Copy, PartialEq, Eq, Structural)]
pub enum TrayMenuAction {
    OpenEditor,
    Quit,
    Unhandled,
}

/// The menu entry with id `id`: `open_editor`, `quit`, or none known.
pub fn tray_menu_action(id: &str) -> (a: TrayMenuAction)
    ensures
        a == (if id@ == "open_editor"@ {
            TrayMenuAction::OpenEditor
        } else if id@ == "quit"@ {
            TrayMenuAction::Quit
        } else {
            TrayMenuAction::Unhandled
        }),
{
    if str_eq(id, "open_editor") {
        TrayMenuAction::OpenEditor
    } else if str_eq(id, "quit") {
        TrayMenuAction::Quit
    } else {
        TrayMenuAction::Unhandled
    }
}

/// Once the tray is ready, a left click during a recording pauses it when
/// it runs and resumes it when it is paused; a right click during a
/// recording stops it, and outside a recording does nothing.
pub proof fn law_tray_left_click_toggles_pause(is_paused: bool)
    ensures
        tray_action(true, TrayClick::LeftUp, true, is_paused) == (if is_paused {
            TrayAction::ResumeRecording
        } else {
            TrayAction::PauseRecording
        }),
        tray_action(true, TrayClick::RightUp, true, is_paused) == TrayAction::StopRecording,
        forall|ready: bool, paused: bool| tray_action(ready, TrayClick::RightUp, false, paused) == TrayAction::Nothing,
{
}

} // verus!
