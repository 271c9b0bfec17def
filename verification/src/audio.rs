//! Audio sources that can be previewed.
use vstd::prelude::*;

use crate::text::{chars_to_string, str_eq, str_to_chars};

verus! {

/// An audio source: the system output or an input device.
#[derive(Debug, Clone, Copy, PartialEq, Eq, Hash)]
pub enum AudioStream {
    System,
    Input,
}

impl AudioStream {
    /// Name of the source, in camel case.
    pub open spec fn name(self) -> Seq<char> {
        match self {
            AudioStream::System => "system"@,
            AudioStream::Input => "input"@,
        }
    }

    pub fn as_ref(&self) -> (s: &'static str)
        ensures
            s@ == self.name(),
    {
        match self {
            AudioStream::System => "system",
            AudioStream::Input => "input",
        }
    }

    /// The name as an owned string, what `to_string` gives.
    pub fn to_string(&self) -> (s: String)
        ensures
            s@ == self.name(),
    {
        let v = str_to_chars(self.as_ref());
        chars_to_string(&v)
    }

    /// The variant with the given name, if any.
    pub fn from_name(s: &str) -> (r: Option<AudioStream>)
        ensures
            match r {
                Some(e) => e.name() == s@,
                None => forall|e: AudioStream| e.name() != s@,
            },
    {
        if str_eq(s, "system") {
            return Some(AudioStream::System);
        }
        if str_eq(s, "input") {
            return Some(AudioStream::Input);
        }
        assert forall|e: AudioStream| e.name() != s@ by {
            match e {
                AudioStream::System => {},
                AudioStream::Input => {},
            }
        }
        None
    }
}

proof fn lemma_audio_stream_named_system(b: AudioStream)
    requires
        AudioStream::System.name() == b.name(),
    ensures
        b == AudioStream::System,
{
    reveal_strlit("system");
    match b {
        AudioStream::System => {},
        AudioStream::Input => {
            reveal_strlit("input");
            assert(b.name().len() == 5);
        },
    }
}

proof fn lemma_audio_stream_named_input(b: AudioStream)
    requires
        AudioStream::Input.name() == b.name(),
    ensures
        b == AudioStream::Input,
{
    reveal_strlit("input");
    match b {
        AudioStream::System => {
            reveal_strlit("system");
            assert(b.name().len() == 6);
        },
        AudioStream::Input => {},
    }
}

/// Different variants of `AudioStream` have different names, so a name identifies its variant.
pub proof fn lemma_audio_stream_names_distinct(a: AudioStream, b: AudioStream)
    requires
        a.name() == b.name(),
    ensures
        a == b,
{
    match a {
        AudioStream::System => lemma_audio_stream_named_system(b),
        AudioStream::Input => lemma_audio_stream_named_input(b),
    }
}

} // verus!
