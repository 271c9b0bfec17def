//! File system path names and random identifiers.
//!
//! Path arithmetic is done by `std::path`, whose separator rules differ from
//! platform to platform; its results are named here rather than restated.
use vstd::prelude::*;

use crate::text::{
    chars_to_string, find_last, no_nul, last_index_of, lemma_last_index_of, push_chars, str_to_chars,
    string_push, sub_chars,
};

verus! {

/// `Path::join` of `base` and `name`, as text.
pub uninterp spec fn path_join(base: Seq<char>, name: Seq<char>) -> Seq<char>;

/// `Path::parent` of `path`, as text.
pub uninterp spec fn path_parent(path: Seq<char>) -> Option<Seq<char>>;

/// `Path::file_name` of `path`, as text.
pub uninterp spec fn path_file_name(path: Seq<char>) -> Option<Seq<char>>;

/// `Path::file_stem` of `path`, as text.
pub uninterp spec fn path_file_stem(path: Seq<char>) -> Option<Seq<char>>;

/// `Path::extension` of `path`, as text.
pub uninterp spec fn path_extension(path: Seq<char>) -> Option<Seq<char>>;

/// Joins `name` onto `base` with `std::path::Path::join`.
///
/// Trusted: the result is whatever `Path::join` gives for the two
/// arguments, converted back to text. `Path::join` is documented as
/// `PathBuf::push`, which keeps `base` and adds a separator and `name`, or
/// takes `name` alone when it is absolute; so the result holds a NUL
/// character only when an argument does. Nothing more is claimed of it.
#[verifier::external_body]
pub(crate) fn join_path(base: &str, name: &str) -> (r: String)
    ensures
        r@ == path_join(base@, name@),
        no_nul(base@) && no_nul(name@) ==> no_nul(r@),
{
    std::path::Path::new(base).join(name).to_string_lossy().into_owned()
}

/// The parent directory of `path`, by `std::path::Path::parent`.
///
/// Trusted: the result is whatever `Path::parent` gives, as text.
#[verifier::external_body]
pub(crate) fn parent_of(path: &str) -> (r: Option<String>)
    ensures
        match r {
            Some(p) => path_parent(path@) == Some(p@),
            None => path_parent(path@) is None,
        },
{
    std::path::Path::new(path).parent().map(|p| p.to_string_lossy().into_owned())
}

/// The last component of `path`, by `std::path::Path::file_name`.
///
/// Trusted: the result is whatever `Path::file_name` gives, as text.
#[verifier::external_body]
pub(crate) fn file_name_of(path: &str) -> (r: Option<String>)
    ensures
        match r {
            Some(p) => path_file_name(path@) == Some(p@),
            None => path_file_name(path@) is None,
        },
{
    std::path::Path::new(path).file_name().map(|p| p.to_string_lossy().into_owned())
}

/// The file name without its extension, by `std::path::Path::file_stem`.
///
/// Trusted: the result is whatever `Path::file_stem` gives, as text.
#[verifier::external_body]
pub(crate) fn file_stem_of(path: &str) -> (r: Option<String>)
    ensures
        match r {
            Some(p) => path_file_stem(path@) == Some(p@),
            None => path_file_stem(path@) is None,
        },
{
    std::path::Path::new(path).file_stem().map(|p| p.to_string_lossy().into_owned())
}

/// The extension of the file name, by `std::path::Path::extension`.
///
/// Trusted: the result is whatever `Path::extension` gives, as text.
#[verifier::external_body]
pub(crate) fn extension_of(path: &str) -> (r: Option<String>)
    ensures
        match r {
            Some(p) => path_extension(path@) == Some(p@),
            None => path_extension(path@) is None,
        },
{
    std::path::Path::new(path).extension().map(|p| p.to_string_lossy().into_owned())
}

pub open spec fn is_lower_hex(c: char) -> bool {
    ('0' <= c && c <= '9') || ('a' <= c && c <= 'f')
}

/// Text of a UUID in hyphenated lower case form: 32 hex digits in groups
/// of 8, 4, 4, 4 and 12, separated by `-`.
pub open spec fn is_hyphenated_uuid(s: Seq<char>) -> bool {
    &&& s.len() == 36
    &&& forall|i: int|
        0 <= i < 36 ==> if i == 8 || i == 13 || i == 18 || i == 23 {
            s[i] == '-'
        } else {
            is_lower_hex(#[trigger] s[i])
        }
}

/// A fresh random (version 4) UUID as text.
///
/// Trusted: `uuid::Uuid::new_v4` draws the value at random; its `Display`
/// text is the hyphenated lower case form (uuid's `fmt.rs`). Which value
/// comes out is not stated.
#[verifier::external_body]
pub(crate) fn new_uuid_v4() -> (s: String)
    ensures
        is_hyphenated_uuid(s@),
{
    uuid::Uuid::new_v4().to_string()
}

/// `name` with `-{uuid}` put before its extension: the text before the
/// last `.`, a `-`, the identifier, a `.` and the text after the last `.`.
/// A name without a `.` keeps all of its text before the `-` and gets an
/// empty extension.
pub open spec fn unique_name(name: Seq<char>, uuid: Seq<char>) -> Seq<char> {
    let k = last_index_of(name, '.');
    let prefix = if k >= 0 { name.take(k) } else { name };
    let ext = if k >= 0 { name.skip(k + 1) } else { Seq::<char>::empty() };
    prefix + seq!['-'] + uuid + seq!['.'] + ext
}

/// Builds [`unique_name`] from a file name and an identifier.
pub fn unique_file_name(name: &str, uuid: &str) -> (r: String)
    ensures
        r@ == unique_name(name@, uuid@),
{
    let chars = str_to_chars(name);
    let uuid_chars = str_to_chars(uuid);
    proof {
        lemma_last_index_of(chars@, '.');
    }
    let (prefix, ext) = match find_last(&chars, '.') {
        Some(k) => (sub_chars(&chars, 0, k), sub_chars(&chars, k + 1, chars.len())),
        None => (sub_chars(&chars, 0, chars.len()), Vec::new()),
    };
    let mut r = chars_to_string(&prefix);
    string_push(&mut r, '-');
    push_chars(&mut r, &uuid_chars);
    string_push(&mut r, '.');
    push_chars(&mut r, &ext);
    assert(chars@.subrange(0, chars@.len() as int) =~= chars@);
    proof {
        let k = last_index_of(chars@, '.');
        if k >= 0 {
            assert(chars@.subrange(0, k) =~= chars@.take(k));
            assert(chars@.subrange(k + 1, chars@.len() as int) =~= chars@.skip(k + 1));
        }
    }
    r
}

/// A path for a new file `{uuid}.png` inside `dir`.
pub fn generate_unique_path(dir: &str) -> (p: String)
    ensures
        exists|u: Seq<char>| is_hyphenated_uuid(u) && p@ == path_join(dir@, u + ".png"@),
{
    let uuid = new_uuid_v4();
    let mut name = uuid.clone();
    let png = str_to_chars(".png");
    push_chars(&mut name, &png);
    let p = join_path(dir, name.as_str());
    assert(is_hyphenated_uuid(uuid@) && p@ == path_join(dir@, uuid@ + ".png"@));
    p
}

} // verus!
