//! The recordings table: how its rows become values, the statements that
//! delete and restore recordings, and which names a recording may take.
use vstd::prelude::*;

use crate::paths::path_join;
use crate::recording::models::{lemma_recording_type_names_distinct, RecordingFile, RecordingType};
use crate::text::{
    is_unicode_whitespace, is_whitespace_char, push_chars, str_to_chars, string_push, take_chars,
};

verus! {

// ----------------------------------------------------------------------------
// Rows
// ----------------------------------------------------------------------------

/// Where the files of one recording are, as the editor opens it.
#[derive(Debug, Clone)]
pub struct RecordingDetails {
    pub id: i64,
    pub name: String,
    pub screen: String,
    pub camera: Option<String>,
    pub system_audio: Option<String>,
    pub microphone: Option<String>,
}

/// The path of `file` in `dir` when the table's flag for it is set
/// (nonzero).
pub open spec fn flagged_path(flag: i64, dir: Seq<char>, file: RecordingFile) -> Option<Seq<char>> {
    if flag != 0 {
        Some(path_join(dir, file.name()))
    } else {
        None
    }
}

pub open spec fn opt_view(p: Option<String>) -> Option<Seq<char>> {
    match p {
        Some(s) => Some(s@),
        None => None,
    }
}

fn flagged_file(flag: i64, dir: &str, file: RecordingFile) -> (p: Option<String>)
    ensures
        opt_view(p) == flagged_path(flag, dir@, file),
{
    if flag != 0 {
        Some(file.complete_path(dir))
    } else {
        None
    }
}

/// The details of a recording from its row: its id and name, the screen
/// file in its directory, and the camera, system audio and microphone files
/// where the row's flags say they were recorded.
pub fn recording_details(
    id: i64,
    name: String,
    recording_directory: &str,
    has_camera: i64,
    has_system_audio: i64,
    has_microphone: i64,
) -> (d: RecordingDetails)
    ensures
        d.id == id,
        d.name == name,
        d.screen@ == path_join(recording_directory@, RecordingFile::Screen.name()),
        opt_view(d.camera) == flagged_path(has_camera, recording_directory@, RecordingFile::Camera),
        opt_view(d.system_audio) == flagged_path(
            has_system_audio,
            recording_directory@,
            RecordingFile::SystemAudio,
        ),
        opt_view(d.microphone) == flagged_path(
            has_microphone,
            recording_directory@,
            RecordingFile::Microphone,
        ),
{
    RecordingDetails {
        id,
        name,
        screen: RecordingFile::Screen.complete_path(recording_directory),
        camera: flagged_file(has_camera, recording_directory, RecordingFile::Camera),
        system_audio: flagged_file(has_system_audio, recording_directory, RecordingFile::SystemAudio),
        microphone: flagged_file(has_microphone, recording_directory, RecordingFile::Microphone),
    }
}

/// The type of a recording from its column: the stored name parsed back,
/// or `None` when the column is empty or holds no type's name.
pub fn recording_type_from_column(column: Option<&str>) -> (t: Option<RecordingType>)
    ensures
        match column {
            None => t is None,
            Some(s) => match t {
                Some(ty) => ty.name() == s@,
                None => forall|ty: RecordingType| ty.name() != s@,
            },
        },
{
    match column {
        Some(s) => RecordingType::from_name(s),
        None => None,
    }
}

/// A type written to its column reads back as the same type.
pub proof fn law_recording_type_column_roundtrip(t: RecordingType, read: Option<RecordingType>)
    requires
        match read {
            Some(ty) => ty.name() == t.name(),
            None => forall|ty: RecordingType| ty.name() != t.name(),
        },
    ensures
        read == Some(t),
{
    match read {
        Some(ty) => lemma_recording_type_names_distinct(ty, t),
        None => {
            assert(t.name() == t.name());
        },
    }
}

/// A flag as the table stores it: 1 for set, 0 for unset.
pub fn flag_column(b: bool) -> (v: i32)
    ensures
        v == (if b { 1i32 } else { 0i32 }),
{
    if b {
        1
    } else {
        0
    }
}

/// The size and length columns of a recording: the byte count and
/// milliseconds reinterpreted as signed 64-bit integers, as the table
/// stores them.
pub fn metadata_columns(bytes: u64, milliseconds: Option<u64>) -> (c: (i64, Option<i64>))
    ensures
        c.0 == bytes as i64,
        c.1 == match milliseconds {
            Some(ms) => Some(ms as i64),
            None => None::<i64>,
        },
{
    (
        bytes as i64,
        match milliseconds {
            Some(ms) => Some(ms as i64),
            None => None,
        },
    )
}

// ----------------------------------------------------------------------------
// Statements over several recordings
// ----------------------------------------------------------------------------

/// Why a statement over several recordings was not made.
#[derive(Debug, Clone, Copy, PartialEq, Eq)]
pub enum DbError {
    /// No recording was named, so no row can match.
    RowNotFound,
}

/// One `?` per bound id, separated by `, `.
pub open spec fn placeholders(n: nat) -> Seq<char>
    decreases n,
{
    if n == 0 {
        Seq::empty()
    } else if n == 1 {
        "?"@
    } else {
        placeholders((n - 1) as nat) + ", ?"@
    }
}

fn push_str(s: &mut String, t: &str)
    ensures
        final(s)@ == old(s)@ + t@,
{
    let chars = str_to_chars(t);
    push_chars(s, &chars);
}

/// [`placeholders`] for `n` ids.
pub fn placeholder_list(n: usize) -> (s: String)
    ensures
        s@ == placeholders(n as nat),
{
    let mut s = String::new();
    let mut i: usize = 0;
    while i < n
        invariant
            i <= n,
            s@ == placeholders(i as nat),
        decreases n - i,
    {
        if i == 0 {
            string_push(&mut s, '?');
            proof {
                reveal_strlit("?");
                assert(s@ =~= placeholders(1));
            }
        } else {
            push_str(&mut s, ", ?");
        }
        i = i + 1;
    }
    s
}

pub open spec fn soft_delete_sql(n: nat) -> Seq<char> {
    "UPDATE recordings SET deleted_at = CURRENT_TIMESTAMP WHERE id IN ("@ + placeholders(n)
        + ") RETURNING deleted_at"@
}

pub open spec fn hard_delete_sql(n: nat) -> Seq<char> {
    "DELETE FROM recordings WHERE id IN ("@ + placeholders(n) + ") RETURNING recording_directory"@
}

pub open spec fn restore_sql(n: nat) -> Seq<char> {
    "UPDATE recordings SET deleted_at = NULL WHERE id IN ("@ + placeholders(n) + ")"@
}

fn wrapped_placeholders(head: &str, n: usize, tail: &str) -> (s: String)
    ensures
        s@ == head@ + placeholders(n as nat) + tail@,
{
    let mut s = String::new();
    push_str(&mut s, head);
    let p = placeholder_list(n);
    push_str(&mut s, p.as_str());
    push_str(&mut s, tail);
    assert(s@ =~= head@ + placeholders(n as nat) + tail@);
    s
}

/// The statement that moves the given recordings to the bin, with one
/// placeholder per id; refused when no id is given.
pub fn soft_delete_recordings_query(recording_ids: &Vec<i64>) -> (q: Result<String, DbError>)
    ensures
        recording_ids.len() == 0 ==> q == Err::<String, DbError>(DbError::RowNotFound),
        recording_ids.len() > 0 ==> (q matches Ok(s) && s@ == soft_delete_sql(recording_ids.len() as nat)),
{
    if recording_ids.len() == 0 {
        return Err(DbError::RowNotFound);
    }
    Ok(wrapped_placeholders(
        "UPDATE recordings SET deleted_at = CURRENT_TIMESTAMP WHERE id IN (",
        recording_ids.len(),
        ") RETURNING deleted_at",
    ))
}

/// The statement that deletes the given recordings for good and returns
/// their directories; `None` when no id is given, and then nothing is
/// deleted.
pub fn hard_delete_recordings_query(recording_ids: &Vec<i64>) -> (q: Option<String>)
    ensures
        recording_ids.len() == 0 ==> q is None,
        recording_ids.len() > 0 ==> (q matches Some(s) && s@ == hard_delete_sql(recording_ids.len() as nat)),
{
    if recording_ids.len() == 0 {
        return None;
    }
    Some(wrapped_placeholders(
        "DELETE FROM recordings WHERE id IN (",
        recording_ids.len(),
        ") RETURNING recording_directory",
    ))
}

/// The statement that takes the given recordings out of the bin; refused
/// when no id is given.
pub fn restore_recordings_query(recording_ids: &Vec<i64>) -> (q: Result<String, DbError>)
    ensures
        recording_ids.len() == 0 ==> q == Err::<String, DbError>(DbError::RowNotFound),
        recording_ids.len() > 0 ==> (q matches Ok(s) && s@ == restore_sql(recording_ids.len() as nat)),
{
    if recording_ids.len() == 0 {
        return Err(DbError::RowNotFound);
    }
    Ok(wrapped_placeholders(
        "UPDATE recordings SET deleted_at = NULL WHERE id IN (",
        recording_ids.len(),
        ")",
    ))
}

// ----------------------------------------------------------------------------
// Names
// ----------------------------------------------------------------------------

/// `c` is the upper case ASCII letter `t`, in either case.
pub open spec fn letter_is(c: char, t: char) -> bool {
    c == t || c as int == t as int + 32
}

/// The first three characters of `s` spell `a b c`, in any case.
pub open spec fn spells(s: Seq<char>, a: char, b: char, c: char) -> bool {
    s.len() >= 3 && letter_is(s[0], a) && letter_is(s[1], b) && letter_is(s[2], c)
}

/// A name that Windows reserves for a device: `CON`, `PRN`, `AUX`, `NUL`,
/// or `COM` or `LPT` followed by a digit from 1 to 9, in any case.
pub open spec fn is_device_name(s: Seq<char>) -> bool {
    ||| s.len() == 3 && (spells(s, 'C', 'O', 'N') || spells(s, 'P', 'R', 'N') || spells(s, 'A', 'U', 'X')
        || spells(s, 'N', 'U', 'L'))
    ||| s.len() == 4 && (spells(s, 'C', 'O', 'M') || spells(s, 'L', 'P', 'T')) && '1' <= s[3] && s[3] <= '9'
}

/// A device name, alone or followed by `.` and an extension.
pub open spec fn is_reserved_name(s: Seq<char>) -> bool {
    ||| is_device_name(s)
    ||| s.len() > 3 && s[3] == '.' && is_device_name(s.take(3))
    ||| s.len() > 4 && s[4] == '.' && is_device_name(s.take(4))
}

/// Characters a file name may not hold: `<>:"/\|?*` and the control
/// characters below U+0020.
pub open spec fn is_forbidden_name_char(c: char) -> bool {
    c == '<' || c == '>' || c == ':' || c == '"' || c == '/' || c == '\\' || c == '|' || c == '?'
        || c == '*' || (c as int) < 0x20
}

/// The names a recording may take: 1 to 255 characters, neither beginning
/// nor ending with white space, none of them forbidden, and not a name
/// reserved for a device.
pub open spec fn is_recording_name(s: Seq<char>) -> bool {
    &&& 1 <= s.len() <= 255
    &&& !is_unicode_whitespace(s[0])
    &&& !is_unicode_whitespace(s.last())
    &&& forall|i: int| 0 <= i < s.len() ==> !is_forbidden_name_char(#[trigger] s[i])
    &&& !is_reserved_name(s)
}

fn letter_matches(c: char, t: char) -> (b: bool)
    requires
        'A' <= t <= 'Z',
    ensures
        b == letter_is(c, t),
{
    c == t || (c as u32) == (t as u32) + 32
}

fn spells_word(s: &Vec<char>, a: char, b: char, c: char) -> (r: bool)
    requires
        'A' <= a <= 'Z',
        'A' <= b <= 'Z',
        'A' <= c <= 'Z',
    ensures
        r == spells(s@, a, b, c),
{
    s.len() >= 3 && letter_matches(s[0], a) && letter_matches(s[1], b) && letter_matches(s[2], c)
}

fn device_name(s: &Vec<char>) -> (r: bool)
    ensures
        r == is_device_name(s@),
{
    if s.len() == 3 {
        spells_word(s, 'C', 'O', 'N') || spells_word(s, 'P', 'R', 'N') || spells_word(s, 'A', 'U', 'X')
            || spells_word(s, 'N', 'U', 'L')
    } else if s.len() == 4 {
        (spells_word(s, 'C', 'O', 'M') || spells_word(s, 'L', 'P', 'T')) && '1' <= s[3] && s[3] <= '9'
    } else {
        false
    }
}

fn reserved_name(s: &Vec<char>) -> (r: bool)
    ensures
        r == is_reserved_name(s@),
{
    if device_name(s) {
        return true;
    }
    if s.len() > 3 && s[3] == '.' {
        let head = take_chars(s, 3);
        if device_name(&head) {
            return true;
        }
    }
    if s.len() > 4 && s[4] == '.' {
        let head = take_chars(s, 4);
        if device_name(&head) {
            return true;
        }
    }
    false
}

fn forbidden_name_char(c: char) -> (b: bool)
    ensures
        b == is_forbidden_name_char(c),
{
    c == '<' || c == '>' || c == ':' || c == '"' || c == '/' || c == '\\' || c == '|' || c == '?'
        || c == '*' || (c as u32) < 0x20
}

/// May a recording be renamed to `new_name`? Only when it is a recording
/// name (see [`is_recording_name`]).
pub fn is_valid_recording_name(new_name: &str) -> (ok: bool)
    ensures
        ok == is_recording_name(new_name@),
{
    let chars = str_to_chars(new_name);
    if chars.len() < 1 || chars.len() > 255 {
        return false;
    }
    if is_whitespace_char(chars[0]) || is_whitespace_char(chars[chars.len() - 1]) {
        return false;
    }
    let mut i: usize = 0;
    while i < chars.len()
        invariant
            i <= chars.len(),
            chars@ == new_name@,
            forall|j: int| 0 <= j < i ==> !is_forbidden_name_char(#[trigger] chars@[j]),
        decreases chars.len() - i,
    {
        if forbidden_name_char(chars[i]) {
            return false;
        }
        i = i + 1;
    }
    !reserved_name(&chars)
}

/// The new name to store for a recording, or `None` when the name is
/// refused and the recording keeps its name.
pub fn recording_name_update(new_name: &str) -> (r: Option<String>)
    ensures
        r is Some <==> is_recording_name(new_name@),
        r matches Some(s) ==> s@ == new_name@,
{
    if is_valid_recording_name(new_name) {
        let mut s = String::new();
        push_str(&mut s, new_name);
        Some(s)
    } else {
        None
    }
}

/// An accepted name holds none of the characters `<` `>` `:` `"` `/` `\`
/// `|` `?` `*` and no control character below U+0020, so it can stand as a
/// file name on every system the recorder runs on.
pub proof fn law_accepted_names_hold_no_forbidden_character(s: Seq<char>)
    requires
        is_recording_name(s),
    ensures
        forall|i: int|
            0 <= i < s.len() ==> {
                let c = #[trigger] s[i];
                &&& c != '<' && c != '>' && c != ':' && c != '"' && c != '/'
                &&& c != '\\' && c != '|' && c != '?' && c != '*'
                &&& c as int >= 0x20
            },
{
    assert forall|i: int| 0 <= i < s.len() implies {
        let c = #[trigger] s[i];
        &&& c != '<' && c != '>' && c != ':' && c != '"' && c != '/'
        &&& c != '\\' && c != '|' && c != '?' && c != '*'
        &&& c as int >= 0x20
    } by {
        assert(!is_forbidden_name_char(s[i]));
    }
}

/// A name of 1 to 255 ASCII letters and digits is accepted unless it is
/// three or four characters long (where the device names lie).
pub proof fn law_plain_names_are_accepted(s: Seq<char>)
    requires
        1 <= s.len() <= 255,
        s.len() != 3 && s.len() != 4,
        forall|i: int|
            0 <= i < s.len() ==> ('a' <= #[trigger] s[i] <= 'z') || ('A' <= s[i] <= 'Z') || ('0' <= s[i]
                <= '9'),
    ensures
        is_recording_name(s),
{
    assert(!is_forbidden_name_char(s[0]) && !is_unicode_whitespace(s[0]));
    assert(!is_unicode_whitespace(s[s.len() - 1]));
    assert forall|i: int| 0 <= i < s.len() implies !is_forbidden_name_char(#[trigger] s[i]) by {}
    if s.len() > 4 {
        assert(s[3] != '.' && s[4] != '.');
    }
}

/// `s` is the upper case ASCII word `w` written in any mix of cases.
pub open spec fn is_word_in_any_case(s: Seq<char>, w: Seq<char>) -> bool {
    &&& s.len() == w.len()
    &&& forall|i: int| 0 <= i < s.len() ==> #[trigger] s[i] == w[i] || s[i] as int == w[i] as int + 32
}

/// Refused names: the empty name and names over 255 characters; names that
/// begin or end with a space, tab or line break; and the device names
/// `CON`, `PRN`, `AUX`, `NUL`, `COM1` to `COM9` and `LPT1` to `LPT9` in any
/// case, alone or followed by `.` and anything.
pub proof fn law_refused_names(s: Seq<char>)
    ensures
        s.len() == 0 || s.len() > 255 ==> !is_recording_name(s),
        s.len() > 0 && (s[0] == ' ' || s[0] == '\t' || s[0] == '\n' || s.last() == ' '
            || s.last() == '\t' || s.last() == '\n') ==> !is_recording_name(s),
        s.len() >= 3 && (s.len() == 3 || s[3] == '.') && (is_word_in_any_case(s.take(3), "CON"@)
            || is_word_in_any_case(s.take(3), "PRN"@) || is_word_in_any_case(s.take(3), "AUX"@)
            || is_word_in_any_case(s.take(3), "NUL"@)) ==> !is_recording_name(s),
        s.len() >= 4 && (s.len() == 4 || s[4] == '.') && (is_word_in_any_case(s.take(3), "COM"@)
            || is_word_in_any_case(s.take(3), "LPT"@)) && '1' <= s[3] <= '9' ==> !is_recording_name(s),
{
    reveal_strlit("CON");
    reveal_strlit("PRN");
    reveal_strlit("AUX");
    reveal_strlit("NUL");
    reveal_strlit("COM");
    reveal_strlit("LPT");
    if s.len() >= 3 {
        let h = s.take(3);
        assert(h[0] == s[0] && h[1] == s[1] && h[2] == s[2]);
        if s.len() == 3 {
            assert(h =~= s);
        }
    }
    if s.len() >= 4 {
        let h4 = s.take(4);
        assert(h4[0] == s[0] && h4[1] == s[1] && h4[2] == s[2] && h4[3] == s[3]);
        if s.len() == 4 {
            assert(h4 =~= s);
        }
    }
}

} // verus!
