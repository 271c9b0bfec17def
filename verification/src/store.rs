//! The settings store: which defaults a start of the application writes,
//! and what the start does with what the store holds.
use vstd::prelude::*;

use crate::recording::ffmpeg::TargetOs;

verus! {

/// What the start of the application writes into the settings store.
#[derive(Debug, Clone, Copy, PartialEq, Eq, Structural)]
pub struct StoreDefaults {
    /// Mark this as the first run.
    pub set_first_run: bool,
    /// Record that every permission macOS can ask for natively (screen,
    /// microphone, camera, accessibility) may be asked for.
    pub set_native_permissions: bool,
}

/// The defaults to write: the first-run flag when the store has none, and
/// on macOS the requestable permissions when the store has none.
pub fn store_defaults(has_first_run: bool, has_native_permissions: bool, os: TargetOs) -> (d: StoreDefaults)
    ensures
        d.set_first_run == !has_first_run,
        d.set_native_permissions == (os == TargetOs::MacOs && !has_native_permissions),
{
    StoreDefaults {
        set_first_run: !has_first_run,
        set_native_permissions: os == TargetOs::MacOs && !has_native_permissions,
    }
}

/// What the start of the application does once its settings are read.
#[derive(Debug, Clone, Copy, PartialEq, Eq, Structural)]
pub struct StartupPlan {
    /// Set up the icon in the system tray.
    pub init_system_tray: bool,
    /// Set up the editor window ahead of time.
    pub init_editor: bool,
    /// Open the window that asks for the missing permissions.
    pub open_permissions: bool,
    /// Clear the first-run flag and show the start-recording dock.
    pub show_start_recording_dock: bool,
    /// Run without an icon in the dock.
    pub hide_dock_icon: bool,
}

/// What the start does. On macOS, without the required permissions it
/// opens the permissions window and does nothing more; with them it sets
/// up the tray and drops the dock icon, and on the first run (the stored
/// flag is the boolean `true`) it also shows the start-recording dock. On
/// Windows it always sets up the tray and the editor, and shows the dock on
/// the first run. Elsewhere it does none of these.
pub fn startup_plan(os: TargetOs, has_required_permissions: bool, first_run: Option<bool>) -> (p: StartupPlan)
    ensures
        p.init_system_tray == (os == TargetOs::Windows || (os == TargetOs::MacOs
            && has_required_permissions)),
        p.init_editor == (os == TargetOs::Windows),
        p.open_permissions == (os == TargetOs::MacOs && !has_required_permissions),
        p.show_start_recording_dock == (first_run == Some(true) && (os == TargetOs::Windows || (os
            == TargetOs::MacOs && has_required_permissions))),
        p.hide_dock_icon == (os == TargetOs::MacOs && has_required_permissions),
{
    let first = match first_run {
        Some(b) => b,
        None => false,
    };
    match os {
        TargetOs::MacOs => StartupPlan {
            init_system_tray: has_required_permissions,
            init_editor: false,
            open_permissions: !has_required_permissions,
            show_start_recording_dock: has_required_permissions && first,
            hide_dock_icon: has_required_permissions,
        },
        TargetOs::Windows => StartupPlan {
            init_system_tray: true,
            init_editor: true,
            open_permissions: false,
            show_start_recording_dock: first,
            hide_dock_icon: false,
        },
        TargetOs::Other => StartupPlan {
            init_system_tray: false,
            init_editor: false,
            open_permissions: false,
            show_start_recording_dock: false,
            hide_dock_icon: false,
        },
    }
}

} // verus!
