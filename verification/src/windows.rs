//! The application's panels: when they may be shown, what showing and
//! hiding them does to the open-window state, and which of them a click
//! elsewhere closes.
use vstd::prelude::*;

use crate::constants::WindowLabel;
use crate::models::GlobalState;

verus! {

/// The start dock may be shown only while neither a recording nor an edit
/// is under way.
pub fn may_show_start_recording_dock(is_recording: bool, is_editing: bool) -> (b: bool)
    ensures
        b == (!is_recording && !is_editing),
{
    !is_recording && !is_editing
}

/// The editor is brought to the front only while both a recording and an
/// edit are under way.
pub fn may_focus_editor(is_recording: bool, is_editing: bool) -> (b: bool)
    ensures
        b == (is_recording && is_editing),
{
    is_recording && is_editing
}

/// Showing the start dock: refused (`false`, nothing changes) during a
/// recording or an edit; otherwise the dock is open and, when the
/// recording source selector exists, the selector shows collapsed, that is,
/// not open.
pub fn show_start_recording_dock(
    state: &mut GlobalState,
    is_recording: bool,
    is_editing: bool,
    selector_exists: bool,
) -> (shown: bool)
    ensures
        shown == (!is_recording && !is_editing),
        !shown ==> final(state)@ == old(state)@,
        shown && !selector_exists ==> final(state)@ == old(state)@.insert(
            WindowLabel::StartRecordingDock,
            true,
        ),
        shown && selector_exists ==> final(state)@ == old(state)@.insert(
            WindowLabel::StartRecordingDock,
            true,
        ).insert(WindowLabel::RecordingSourceSelector, false),
{
    if !may_show_start_recording_dock(is_recording, is_editing) {
        return false;
    }
    state.window_opened(WindowLabel::StartRecordingDock);
    if selector_exists {
        state.window_closed(WindowLabel::RecordingSourceSelector);
    }
    true
}

/// Hiding the start dock: the dock is closed, and when the recording
/// source selector was open it is collapsed, which closes it too. Returns
/// whether it was open (then its panel shrinks back).
pub fn hide_start_recording_dock(state: &mut GlobalState) -> (collapse_selector: bool)
    ensures
        collapse_selector == (old(state)@.contains_key(WindowLabel::RecordingSourceSelector)
            && old(state)@[WindowLabel::RecordingSourceSelector]),
        collapse_selector ==> final(state)@ == old(state)@.insert(
            WindowLabel::StartRecordingDock,
            false,
        ).insert(WindowLabel::RecordingSourceSelector, false),
        !collapse_selector ==> final(state)@ == old(state)@.insert(
            WindowLabel::StartRecordingDock,
            false,
        ),
{
    state.window_closed(WindowLabel::StartRecordingDock);
    let collapse = state.is_window_open(&WindowLabel::RecordingSourceSelector);
    if collapse {
        state.window_closed(WindowLabel::RecordingSourceSelector);
    }
    collapse
}

/// What a release of the left mouse button closes.
#[derive(Debug, Clone, Copy, PartialEq, Eq, Structural)]
pub struct PointerReleaseActions {
    /// The standalone list box closes on any click.
    pub close_standalone_listbox: bool,
    /// The recording input options close on a click outside them and
    /// outside the list box, while the dock is open.
    pub close_recording_input_options: bool,
    /// The recording source selector collapses on a click outside it,
    /// while the dock is open.
    pub collapse_recording_source_selector: bool,
}

/// What a release of the left button at a point closes, given which panels
/// are open and whether the point lies inside the input options, the list
/// box and the source selector.
pub open spec fn pointer_release(
    open: Map<WindowLabel, bool>,
    in_input_options: bool,
    in_listbox: bool,
    in_source_selector: bool,
) -> PointerReleaseActions {
    let is_open = |w: WindowLabel| open.contains_key(w) && open[w];
    let dock = is_open(WindowLabel::StartRecordingDock);
    PointerReleaseActions {
        close_standalone_listbox: true,
        close_recording_input_options: dock && is_open(WindowLabel::RecordingInputOptions)
            && !in_input_options && !in_listbox,
        collapse_recording_source_selector: dock && is_open(WindowLabel::RecordingSourceSelector)
            && !in_source_selector,
    }
}

/// [`pointer_release`] for the current panel state.
pub fn pointer_release_actions(
    state: &GlobalState,
    in_input_options: bool,
    in_listbox: bool,
    in_source_selector: bool,
) -> (a: PointerReleaseActions)
    ensures
        a == pointer_release(state@, in_input_options, in_listbox, in_source_selector),
{
    let dock = state.is_window_open(&WindowLabel::StartRecordingDock);
    let options = state.is_window_open(&WindowLabel::RecordingInputOptions);
    let selector = state.is_window_open(&WindowLabel::RecordingSourceSelector);
    PointerReleaseActions {
        close_standalone_listbox: true,
        close_recording_input_options: dock && options && !in_input_options && !in_listbox,
        collapse_recording_source_selector: dock && selector && !in_source_selector,
    }
}

/// A click closes nothing but the list box while the dock is closed, and
/// never closes a panel that it lands in.
pub proof fn law_click_inside_keeps_panel(
    open: Map<WindowLabel, bool>,
    in_input_options: bool,
    in_listbox: bool,
    in_source_selector: bool,
)
    ensures
        ({
            let a = pointer_release(open, in_input_options, in_listbox, in_source_selector);
            &&& a.close_standalone_listbox
            &&& !(open.contains_key(WindowLabel::StartRecordingDock) && open[WindowLabel::StartRecordingDock])
                ==> !a.close_recording_input_options && !a.collapse_recording_source_selector
            &&& (in_input_options || in_listbox) ==> !a.close_recording_input_options
            &&& in_source_selector ==> !a.collapse_recording_source_selector
        }),
{
}

/// A rectangle in physical pixels, by its edges.
#[derive(Debug, Clone, Copy, PartialEq, Eq, Structural)]
pub struct Rect {
    pub left: i32,
    pub top: i32,
    pub right: i32,
    pub bottom: i32,
}

/// Half of `n`, rounded toward zero, as integer division does.
pub open spec fn half_toward_zero(n: int) -> int {
    if n >= 0 {
        n / 2
    } else {
        -((-n) / 2)
    }
}

/// Where a window goes to sit in the middle of a monitor's work area: its
/// left edge `work.left + (work width - window width) / 2`, and likewise
/// its top edge, each halving rounded toward zero.
pub open spec fn centered_origin_spec(work: Rect, window: Rect) -> (int, int) {
    (
        work.left + half_toward_zero((work.right - work.left) - (window.right - window.left)),
        work.top + half_toward_zero((work.bottom - work.top) - (window.bottom - window.top)),
    )
}

/// Every step of the centring stays within 32-bit pixels.
pub open spec fn centering_fits(work: Rect, window: Rect) -> bool {
    let fits = |n: int| i32::MIN <= n <= i32::MAX;
    &&& fits(window.right - window.left)
    &&& fits(window.bottom - window.top)
    &&& fits(work.right - work.left)
    &&& fits(work.bottom - work.top)
    &&& fits((work.right - work.left) - (window.right - window.left))
    &&& fits((work.bottom - work.top) - (window.bottom - window.top))
    &&& fits(centered_origin_spec(work, window).0)
    &&& fits(centered_origin_spec(work, window).1)
}

fn half_i64(n: i64) -> (h: i64)
    requires
        i32::MIN <= n <= i32::MAX,
    ensures
        h == half_toward_zero(n as int),
{
    if n >= 0 {
        n / 2
    } else {
        -((-n) / 2)
    }
}

/// The top-left corner that centres `window` in the work area `work`
/// (see [`centered_origin_spec`]).
pub fn centered_origin(work: Rect, window: Rect) -> (origin: (i32, i32))
    requires
        centering_fits(work, window),
    ensures
        origin.0 == centered_origin_spec(work, window).0,
        origin.1 == centered_origin_spec(work, window).1,
{
    let win_w = window.right as i64 - window.left as i64;
    let win_h = window.bottom as i64 - window.top as i64;
    let x = work.left as i64 + half_i64((work.right as i64 - work.left as i64) - win_w);
    let y = work.top as i64 + half_i64((work.bottom as i64 - work.top as i64) - win_h);
    (x as i32, y as i32)
}

} // verus!
