//! The decisions around a recording session: where its files go, how many
//! streams start together, and what stopping and resuming go on with.
use vstd::prelude::*;

use crate::models::{files_view, handles_view, RecordingState, StoppedRecording, VideoTrackDetails};
use crate::paths::{is_hyphenated_uuid, join_path, path_join, unique_name};
use crate::recording::models::RecordingFile;
use crate::text::{
    decimal, digit_char, digit_to_char, push_chars, str_to_chars, string_push, u64_to_decimal,
};

verus! {

/// A moment of the local clock, split into the fields that a session's
/// directory name shows. `nanosecond` reaches past one second only during a
/// leap second.
#[derive(Clone, Copy, Debug, PartialEq, Eq, Structural)]
pub struct LocalTime {
    pub year: i32,
    pub month: u32,
    pub day: u32,
    pub hour: u32,
    pub minute: u32,
    pub second: u32,
    pub nanosecond: u32,
}

/// The ranges of a calendar date and a time of day, a leap second included.
pub open spec fn local_time_valid(t: LocalTime) -> bool {
    &&& 1 <= t.month <= 12
    &&& 1 <= t.day <= 31
    &&& t.hour < 24
    &&& t.minute < 60
    &&& t.second < 60
    &&& t.nanosecond < 2_000_000_000
}

/// `n` zeros.
pub open spec fn zeros(n: nat) -> Seq<char> {
    Seq::new(n, |_i: int| '0')
}

/// The decimal text of `n`, with zeros in front up to `width` characters.
pub open spec fn padded(n: nat, width: nat) -> Seq<char> {
    let d = decimal(n);
    if d.len() >= width {
        d
    } else {
        zeros((width - d.len()) as nat) + d
    }
}

/// Two decimal digits of `n < 100`.
pub open spec fn two_digits(n: nat) -> Seq<char> {
    seq![digit_char(n / 10), digit_char(n % 10)]
}

/// A year in at least four digits, with a sign in front outside the years
/// 0 to 9999.
pub open spec fn year_text(y: int) -> Seq<char> {
    if 0 <= y <= 9999 {
        padded(y as nat, 4)
    } else if y > 9999 {
        seq!['+'] + padded(y as nat, 4)
    } else {
        seq!['-'] + padded((-y) as nat, 4)
    }
}

/// The name of a session's directory: `YYYY-MM-DD_HH-MM-SS`, where a leap
/// second shows as second 60.
pub open spec fn timestamp_text(t: LocalTime) -> Seq<char> {
    year_text(t.year as int) + seq!['-'] + two_digits(t.month as nat) + seq!['-'] + two_digits(
        t.day as nat,
    ) + seq!['_'] + two_digits(t.hour as nat) + seq!['-'] + two_digits(t.minute as nat) + seq!['-']
        + two_digits((t.second + t.nanosecond / 1_000_000_000) as nat)
}

/// The local date and time.
///
/// Trusted: reads `chrono::Local::now()` and hands on its `Datelike` and
/// `Timelike` fields one for one. chrono documents the month as 1 to 12,
/// the day as 1 to 31, the hour as 0 to 23, the minute and second as 0 to
/// 59, and the nanosecond as below 2,000,000,000 (the part past one second
/// being a leap second). Which moment it is depends on the clock and is not
/// claimed.
#[verifier::external_body]
fn local_now() -> (t: LocalTime)
    ensures
        local_time_valid(t),
{
    let now = chrono::Local::now();
    LocalTime {
        year: chrono::Datelike::year(&now),
        month: chrono::Datelike::month(&now),
        day: chrono::Datelike::day(&now),
        hour: chrono::Timelike::hour(&now),
        minute: chrono::Timelike::minute(&now),
        second: chrono::Timelike::second(&now),
        nanosecond: chrono::Timelike::nanosecond(&now),
    }
}

/// Appends the decimal text of `n`, zero-padded to `width` characters.
fn push_padded(s: &mut String, n: u64, width: usize)
    ensures
        final(s)@ == old(s)@ + padded(n as nat, width as nat),
{
    let digits = u64_to_decimal(n);
    let v = str_to_chars(digits.as_str());
    let ghost start = s@;
    if v.len() < width {
        let pad = width - v.len();
        let mut i: usize = 0;
        while i < pad
            invariant
                i <= pad,
                s@ == start + zeros(i as nat),
            decreases pad - i,
        {
            string_push(s, '0');
            i = i + 1;
            assert(zeros(i as nat) =~= zeros((i - 1) as nat).push('0'));
            assert(s@ =~= start + zeros(i as nat));
        }
    }
    push_chars(s, &v);
    assert(s@ =~= start + padded(n as nat, width as nat));
}

/// Appends two decimal digits of `n < 100`.
fn push_two_digits(s: &mut String, n: u32)
    requires
        n < 100,
    ensures
        final(s)@ == old(s)@ + two_digits(n as nat),
{
    let ghost start = s@;
    string_push(s, digit_to_char((n / 10) as u64));
    string_push(s, digit_to_char((n % 10) as u64));
    assert(s@ =~= start + two_digits(n as nat));
}

/// The session directory name of a moment, as [`timestamp_text`] gives it.
pub fn session_timestamp(t: &LocalTime) -> (s: String)
    requires
        local_time_valid(*t),
    ensures
        s@ == timestamp_text(*t),
{
    let mut s = String::new();
    if 0 <= t.year && t.year <= 9999 {
        push_padded(&mut s, t.year as u64, 4);
    } else if t.year > 9999 {
        string_push(&mut s, '+');
        push_padded(&mut s, t.year as u64, 4);
    } else {
        string_push(&mut s, '-');
        let magnitude: i64 = -(t.year as i64);
        push_padded(&mut s, magnitude as u64, 4);
    }
    assert(s@ =~= year_text(t.year as int));
    string_push(&mut s, '-');
    push_two_digits(&mut s, t.month);
    string_push(&mut s, '-');
    push_two_digits(&mut s, t.day);
    string_push(&mut s, '_');
    push_two_digits(&mut s, t.hour);
    string_push(&mut s, '-');
    push_two_digits(&mut s, t.minute);
    string_push(&mut s, '-');
    push_two_digits(&mut s, t.second + t.nanosecond / 1_000_000_000);
    assert(s@ =~= timestamp_text(*t));
    s
}

/// The directory of a new recording session: `Recordings/<timestamp>` under
/// the application's data directory, for whatever moment the clock gave.
pub fn recording_session_directory(app_data_dir: &str) -> (dir: String)
    ensures
        exists|t: LocalTime|
            local_time_valid(t) && dir@ == path_join(
                path_join(app_data_dir@, "Recordings"@),
                timestamp_text(t),
            ),
{
    let recordings = join_path(app_data_dir, "Recordings");
    let now = local_now();
    let timestamp = session_timestamp(&now);
    let dir = join_path(recordings.as_str(), timestamp.as_str());
    assert(local_time_valid(now) && dir@ == path_join(
        path_join(app_data_dir@, "Recordings"@),
        timestamp_text(now),
    ));
    dir
}

/// How many parties wait on the start barrier: the coordinator and the
/// screen recorder, and one for each optional recorder that starts.
pub open spec fn barrier_parties(system_audio: bool, microphone: bool, camera: bool) -> nat {
    2 + (if system_audio { 1nat } else { 0nat }) + (if microphone { 1nat } else { 0nat }) + (if camera {
        1nat
    } else {
        0nat
    })
}

/// [`barrier_parties`] for the streams a recording starts with.
pub fn ready_barrier_count(system_audio: bool, has_microphone: bool, has_camera: bool) -> (n: usize)
    ensures
        n == barrier_parties(system_audio, has_microphone, has_camera),
{
    let mut n: usize = 2;
    if system_audio {
        n = n + 1;
    }
    if has_microphone {
        n = n + 1;
    }
    if has_camera {
        n = n + 1;
    }
    n
}

/// What is left to do once a recording has stopped: wait for the stream
/// writers, join the screen segments, and, when the camera recorded, join
/// its segments too.
pub struct StopPlan<H> {
    pub recording_id: i64,
    pub stream_handles: Vec<H>,
    pub screen_handle: H,
    pub screen_files: Vec<String>,
    pub camera: Option<(H, Vec<String>)>,
}

/// Does a stopped recording hold everything that finishing it needs?
pub open spec fn stop_is_complete<H>(s: StoppedRecording<H>) -> bool {
    &&& s.recording_id is Some
    &&& s.stream_handles is Some
    &&& s.screen_handle is Some
    &&& s.screen_files is Some
}

/// The work that finishing a stopped recording does, or `None` when the
/// recording lacks its id, its stream writers, or its screen track (then
/// nothing is finished). The camera is finished only when both its writer
/// and its segment files are there.
pub fn plan_stop<H>(stopped: StoppedRecording<H>) -> (plan: Option<StopPlan<H>>)
    ensures
        plan is Some <==> stop_is_complete(stopped),
        plan matches Some(p) ==> {
            &&& Some(p.recording_id) == stopped.recording_id
            &&& handles_view(Some(p.stream_handles)) == handles_view(stopped.stream_handles)
            &&& Some(p.screen_handle) == stopped.screen_handle
            &&& files_view(Some(p.screen_files)) == files_view(stopped.screen_files)
            &&& (p.camera is Some <==> (stopped.camera_handle is Some && stopped.camera_files is Some))
            &&& (p.camera matches Some((h, fs)) ==> Some(h) == stopped.camera_handle && files_view(
                Some(fs),
            ) == files_view(stopped.camera_files))
        },
{
    let StoppedRecording {
        recording_id,
        stream_handles,
        screen_handle,
        screen_files,
        camera_handle,
        camera_files,
    } = stopped;
    match (recording_id, stream_handles, screen_handle, screen_files) {
        (Some(id), Some(handles), Some(screen), Some(files)) => {
            let camera = match (camera_handle, camera_files) {
                (Some(h), Some(fs)) => Some((h, fs)),
                _ => None,
            };
            Some(StopPlan {
                recording_id: id,
                stream_handles: handles,
                screen_handle: screen,
                screen_files: files,
                camera,
            })
        },
        _ => None,
    }
}

impl<S, H, C> RecordingState<S, H, C> {
    /// The id of the recording that a resume continues: there is one only
    /// while the session holds both its id and its streams'
    /// synchronization.
    pub fn resumable_recording_id(&self) -> (id: Option<i64>)
        ensures
            id == (if self.recording_id is Some && self.stream_sync is Some {
                self.recording_id
            } else {
                None
            }),
    {
        match (self.recording_id, &self.stream_sync) {
            (Some(id), Some(_)) => Some(id),
            _ => None,
        }
    }
}

/// Where a resumed track writes its next segment: a fresh file of the
/// given kind in the recording directory, or `None` when the track is
/// absent or was never captured (then it does not resume).
pub fn resume_track_file<C, H>(
    details: &Option<VideoTrackDetails<C, H>>,
    directory: &str,
    file_type: RecordingFile,
) -> (path: Option<String>)
    ensures
        path is Some <==> (details matches Some(d) && d.capture_details is Some),
        path matches Some(p) ==> exists|u: Seq<char>|
            is_hyphenated_uuid(u) && p@ == path_join(directory@, unique_name(file_type.name(), u)),
{
    match details {
        Some(d) => match &d.capture_details {
            Some(_) => {
                let name = file_type.unique();
                let p = join_path(directory, name.as_str());
                let ghost u = choose|u: Seq<char>|
                    is_hyphenated_uuid(u) && name@ == unique_name(file_type.name(), u);
                assert(is_hyphenated_uuid(u) && p@ == path_join(directory@, unique_name(file_type.name(), u)));
                Some(p)
            },
            None => None,
        },
        None => None,
    }
}

} // verus!
