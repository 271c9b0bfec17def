//! What a recording is made of: its kind and the files in its directory.
use vstd::prelude::*;

use crate::paths::{is_hyphenated_uuid, join_path, new_uuid_v4, path_join, unique_file_name, unique_name};
use crate::text::{chars_to_string, no_nul, str_eq, str_to_chars};

verus! {

/// What is being recorded: a region of a display, a window or a whole display.
#[derive(Debug, Clone, Copy, PartialEq, Eq, Hash)]
pub enum RecordingType {
    Region,
    Window,
    Screen,
}

impl RecordingType {
    /// Name of the kind, as stored and shown.
    pub open spec fn name(self) -> Seq<char> {
        match self {
            RecordingType::Region => "Region"@,
            RecordingType::Window => "Window"@,
            RecordingType::Screen => "Screen"@,
        }
    }

    pub fn as_ref(&self) -> (s: &'static str)
        ensures
            s@ == self.name(),
    {
        match self {
            RecordingType::Region => "Region",
            RecordingType::Window => "Window",
            RecordingType::Screen => "Screen",
        }
    }

    /// The name as an owned string, what `to_string` gives.
    pub fn to_string(&self) -> (s: String)
        ensures
            s@ == self.name(),
    {
        let v = str_to_chars(self.as_ref());
        chars_to_string(&v)
    }

    /// The variant with the given name, if any.
    pub fn from_name(s: &str) -> (r: Option<RecordingType>)
        ensures
            match r {
                Some(e) => e.name() == s@,
                None => forall|e: RecordingType| e.name() != s@,
            },
    {
        if str_eq(s, "Region") {
            return Some(RecordingType::Region);
        }
        if str_eq(s, "Window") {
            return Some(RecordingType::Window);
        }
        if str_eq(s, "Screen") {
            return Some(RecordingType::Screen);
        }
        assert forall|e: RecordingType| e.name() != s@ by {
            match e {
                RecordingType::Region => {},
                RecordingType::Window => {},
                RecordingType::Screen => {},
            }
        }
        None
    }
}

proof fn lemma_recording_type_named_region(b: RecordingType)
    requires
        RecordingType::Region.name() == b.name(),
    ensures
        b == RecordingType::Region,
{
    reveal_strlit("Region");
    match b {
        RecordingType::Region => {},
        RecordingType::Window => {
            reveal_strlit("Window");
            assert(b.name()[0] == 'W');
        },
        RecordingType::Screen => {
            reveal_strlit("Screen");
            assert(b.name()[0] == 'S');
        },
    }
}

proof fn lemma_recording_type_named_window(b: RecordingType)
    requires
        RecordingType::Window.name() == b.name(),
    ensures
        b == RecordingType::Window,
{
    reveal_strlit("Window");
    match b {
        RecordingType::Region => {
            reveal_strlit("Region");
            assert(b.name()[0] == 'R');
        },
        RecordingType::Window => {},
        RecordingType::Screen => {
            reveal_strlit("Screen");
            assert(b.name()[0] == 'S');
        },
    }
}

proof fn lemma_recording_type_named_screen(b: RecordingType)
    requires
        RecordingType::Screen.name() == b.name(),
    ensures
        b == RecordingType::Screen,
{
    reveal_strlit("Screen");
    match b {
        RecordingType::Region => {
            reveal_strlit("Region");
            assert(b.name()[0] == 'R');
        },
        RecordingType::Window => {
            reveal_strlit("Window");
            assert(b.name()[0] == 'W');
        },
        RecordingType::Screen => {},
    }
}

/// Different variants of `RecordingType` have different names, so a name identifies its variant.
pub proof fn lemma_recording_type_names_distinct(a: RecordingType, b: RecordingType)
    requires
        a.name() == b.name(),
    ensures
        a == b,
{
    match a {
        RecordingType::Region => lemma_recording_type_named_region(b),
        RecordingType::Window => lemma_recording_type_named_window(b),
        RecordingType::Screen => lemma_recording_type_named_screen(b),
    }
}

/// Files written into a recording's directory.
#[derive(Debug, Clone, Copy, PartialEq, Eq, Hash)]
pub enum RecordingFile {
    Screen,
    SystemAudio,
    Microphone,
    Camera,
    MouseEvents,
    Metadata,
}

impl RecordingFile {
    /// File name inside the recording directory.
    pub open spec fn name(self) -> Seq<char> {
        match self {
            RecordingFile::Screen => "screen.mp4"@,
            RecordingFile::SystemAudio => "system_audio.wav"@,
            RecordingFile::Microphone => "microphone.wav"@,
            RecordingFile::Camera => "camera.mp4"@,
            RecordingFile::MouseEvents => "mouse_events.msgpack"@,
            RecordingFile::Metadata => "metadata.json"@,
        }
    }

    pub fn as_ref(&self) -> (s: &'static str)
        ensures
            s@ == self.name(),
    {
        match self {
            RecordingFile::Screen => "screen.mp4",
            RecordingFile::SystemAudio => "system_audio.wav",
            RecordingFile::Microphone => "microphone.wav",
            RecordingFile::Camera => "camera.mp4",
            RecordingFile::MouseEvents => "mouse_events.msgpack",
            RecordingFile::Metadata => "metadata.json",
        }
    }

    /// The name as an owned string, what `to_string` gives.
    pub fn to_string(&self) -> (s: String)
        ensures
            s@ == self.name(),
    {
        let v = str_to_chars(self.as_ref());
        chars_to_string(&v)
    }

    /// The variant with the given name, if any.
    pub fn from_name(s: &str) -> (r: Option<RecordingFile>)
        ensures
            match r {
                Some(e) => e.name() == s@,
                None => forall|e: RecordingFile| e.name() != s@,
            },
    {
        if str_eq(s, "screen.mp4") {
            return Some(RecordingFile::Screen);
        }
        if str_eq(s, "system_audio.wav") {
            return Some(RecordingFile::SystemAudio);
        }
        if str_eq(s, "microphone.wav") {
            return Some(RecordingFile::Microphone);
        }
        if str_eq(s, "camera.mp4") {
            return Some(RecordingFile::Camera);
        }
        if str_eq(s, "mouse_events.msgpack") {
            return Some(RecordingFile::MouseEvents);
        }
        if str_eq(s, "metadata.json") {
            return Some(RecordingFile::Metadata);
        }
        assert forall|e: RecordingFile| e.name() != s@ by {
            match e {
                RecordingFile::Screen => {},
                RecordingFile::SystemAudio => {},
                RecordingFile::Microphone => {},
                RecordingFile::Camera => {},
                RecordingFile::MouseEvents => {},
                RecordingFile::Metadata => {},
            }
        }
        None
    }
}

proof fn lemma_recording_file_named_screen(b: RecordingFile)
    requires
        RecordingFile::Screen.name() == b.name(),
    ensures
        b == RecordingFile::Screen,
{
    reveal_strlit("screen.mp4");
    match b {
        RecordingFile::Screen => {},
        RecordingFile::SystemAudio => {
            reveal_strlit("system_audio.wav");
            assert(b.name().len() == 16);
        },
        RecordingFile::Microphone => {
            reveal_strlit("microphone.wav");
            assert(b.name().len() == 14);
        },
        RecordingFile::Camera => {
            reveal_strlit("camera.mp4");
            assert(b.name()[0] == 'c');
        },
        RecordingFile::MouseEvents => {
            reveal_strlit("mouse_events.msgpack");
            assert(b.name().len() == 20);
        },
        RecordingFile::Metadata => {
            reveal_strlit("metadata.json");
            assert(b.name().len() == 13);
        },
    }
}

proof fn lemma_recording_file_named_system_audio(b: RecordingFile)
    requires
        RecordingFile::SystemAudio.name() == b.name(),
    ensures
        b == RecordingFile::SystemAudio,
{
    reveal_strlit("system_audio.wav");
    match b {
        RecordingFile::Screen => {
            reveal_strlit("screen.mp4");
            assert(b.name().len() == 10);
        },
        RecordingFile::SystemAudio => {},
        RecordingFile::Microphone => {
            reveal_strlit("microphone.wav");
            assert(b.name().len() == 14);
        },
        RecordingFile::Camera => {
            reveal_strlit("camera.mp4");
            assert(b.name().len() == 10);
        },
        RecordingFile::MouseEvents => {
            reveal_strlit("mouse_events.msgpack");
            assert(b.name().len() == 20);
        },
        RecordingFile::Metadata => {
            reveal_strlit("metadata.json");
            assert(b.name().len() == 13);
        },
    }
}

proof fn lemma_recording_file_named_microphone(b: RecordingFile)
    requires
        RecordingFile::Microphone.name() == b.name(),
    ensures
        b == RecordingFile::Microphone,
{
    reveal_strlit("microphone.wav");
    match b {
        RecordingFile::Screen => {
            reveal_strlit("screen.mp4");
            assert(b.name().len() == 10);
        },
        RecordingFile::SystemAudio => {
            reveal_strlit("system_audio.wav");
            assert(b.name().len() == 16);
        },
        RecordingFile::Microphone => {},
        RecordingFile::Camera => {
            reveal_strlit("camera.mp4");
            assert(b.name().len() == 10);
        },
        RecordingFile::MouseEvents => {
            reveal_strlit("mouse_events.msgpack");
            assert(b.name().len() == 20);
        },
        RecordingFile::Metadata => {
            reveal_strlit("metadata.json");
            assert(b.name().len() == 13);
        },
    }
}

proof fn lemma_recording_file_named_camera(b: RecordingFile)
    requires
        RecordingFile::Camera.name() == b.name(),
    ensures
        b == RecordingFile::Camera,
{
    reveal_strlit("camera.mp4");
    match b {
        RecordingFile::Screen => {
            reveal_strlit("screen.mp4");
            assert(b.name()[0] == 's');
        },
        RecordingFile::SystemAudio => {
            reveal_strlit("system_audio.wav");
            assert(b.name().len() == 16);
        },
        RecordingFile::Microphone => {
            reveal_strlit("microphone.wav");
            assert(b.name().len() == 14);
        },
        RecordingFile::Camera => {},
        RecordingFile::MouseEvents => {
            reveal_strlit("mouse_events.msgpack");
            assert(b.name().len() == 20);
        },
        RecordingFile::Metadata => {
            reveal_strlit("metadata.json");
            assert(b.name().len() == 13);
        },
    }
}

proof fn lemma_recording_file_named_mouse_events(b: RecordingFile)
    requires
        RecordingFile::MouseEvents.name() == b.name(),
    ensures
        b == RecordingFile::MouseEvents,
{
    reveal_strlit("mouse_events.msgpack");
    match b {
        RecordingFile::Screen => {
            reveal_strlit("screen.mp4");
            assert(b.name().len() == 10);
        },
        RecordingFile::SystemAudio => {
            reveal_strlit("system_audio.wav");
            assert(b.name().len() == 16);
        },
        RecordingFile::Microphone => {
            reveal_strlit("microphone.wav");
            assert(b.name().len() == 14);
        },
        RecordingFile::Camera => {
            reveal_strlit("camera.mp4");
            assert(b.name().len() == 10);
        },
        RecordingFile::MouseEvents => {},
        RecordingFile::Metadata => {
            reveal_strlit("metadata.json");
            assert(b.name().len() == 13);
        },
    }
}

proof fn lemma_recording_file_named_metadata(b: RecordingFile)
    requires
        RecordingFile::Metadata.name() == b.name(),
    ensures
        b == RecordingFile::Metadata,
{
    reveal_strlit("metadata.json");
    match b {
        RecordingFile::Screen => {
            reveal_strlit("screen.mp4");
            assert(b.name().len() == 10);
        },
        RecordingFile::SystemAudio => {
            reveal_strlit("system_audio.wav");
            assert(b.name().len() == 16);
        },
        RecordingFile::Microphone => {
            reveal_strlit("microphone.wav");
            assert(b.name().len() == 14);
        },
        RecordingFile::Camera => {
            reveal_strlit("camera.mp4");
            assert(b.name().len() == 10);
        },
        RecordingFile::MouseEvents => {
            reveal_strlit("mouse_events.msgpack");
            assert(b.name().len() == 20);
        },
        RecordingFile::Metadata => {},
    }
}

/// Different variants of `RecordingFile` have different names, so a name identifies its variant.
pub proof fn lemma_recording_file_names_distinct(a: RecordingFile, b: RecordingFile)
    requires
        a.name() == b.name(),
    ensures
        a == b,
{
    match a {
        RecordingFile::Screen => lemma_recording_file_named_screen(b),
        RecordingFile::SystemAudio => lemma_recording_file_named_system_audio(b),
        RecordingFile::Microphone => lemma_recording_file_named_microphone(b),
        RecordingFile::Camera => lemma_recording_file_named_camera(b),
        RecordingFile::MouseEvents => lemma_recording_file_named_mouse_events(b),
        RecordingFile::Metadata => lemma_recording_file_named_metadata(b),
    }
}

/// No file name of a recording holds a NUL character.
pub proof fn lemma_recording_file_name_no_nul(f: RecordingFile)
    ensures
        no_nul(f.name()),
{
    match f {
        RecordingFile::Screen => reveal_strlit("screen.mp4"),
        RecordingFile::SystemAudio => reveal_strlit("system_audio.wav"),
        RecordingFile::Microphone => reveal_strlit("microphone.wav"),
        RecordingFile::Camera => reveal_strlit("camera.mp4"),
        RecordingFile::MouseEvents => reveal_strlit("mouse_events.msgpack"),
        RecordingFile::Metadata => reveal_strlit("metadata.json"),
    }
}

impl RecordingFile {
    /// A fresh file name in the form `[stem]-[uuid].[extension]`, so that
    /// several segments of one recording do not overwrite each other.
    pub fn unique(&self) -> (s: String)
        ensures
            exists|u: Seq<char>| is_hyphenated_uuid(u) && s@ == unique_name(self.name(), u),
    {
        let uuid = new_uuid_v4();
        let s = unique_file_name(self.as_ref(), uuid.as_str());
        assert(is_hyphenated_uuid(uuid@) && s@ == unique_name(self.name(), uuid@));
        s
    }

    /// Path of this file inside the recording directory `dir`.
    pub fn complete_path(&self, dir: &str) -> (p: String)
        ensures
            p@ == path_join(dir@, self.name()),
    {
        join_path(dir, self.as_ref())
    }
}

/// The files that make up one recording.
#[derive(Debug, Clone, Copy, PartialEq, Eq)]
pub struct RecordingFileSet {
    pub screen: RecordingFile,
    pub metadata: RecordingFile,
    pub mouse_events: RecordingFile,
    pub system_audio: Option<RecordingFile>,
    pub camera: Option<RecordingFile>,
    pub microphone: Option<RecordingFile>,
}

impl RecordingFileSet {
    /// The files every recording has, and none of the optional ones.
    pub open spec fn spec_default() -> RecordingFileSet {
        RecordingFileSet {
            screen: RecordingFile::Screen,
            metadata: RecordingFile::Metadata,
            mouse_events: RecordingFile::MouseEvents,
            system_audio: None,
            camera: None,
            microphone: None,
        }
    }
}

impl Default for RecordingFileSet {
    fn default() -> (s: Self)
        ensures
            s == RecordingFileSet::spec_default(),
    {
        RecordingFileSet {
            screen: RecordingFile::Screen,
            metadata: RecordingFile::Metadata,
            mouse_events: RecordingFile::MouseEvents,
            system_audio: None,
            camera: None,
            microphone: None,
        }
    }
}

/// A recording directory together with the files it holds.
#[derive(Debug, Clone)]
pub struct RecordingManifest {
    pub directory: String,
    pub files: RecordingFileSet,
}

} // verus!
