//! Exporting a recording: the FFmpeg command that combines its files into
//! one video, the names of the exported files, and the progress that FFmpeg
//! reports.
use vstd::prelude::*;

use ffmpeg_sidecar::command::FfmpegCommand;

use crate::paths::{
    extension_of, file_name_of, file_stem_of, is_hyphenated_uuid, join_path, new_uuid_v4, parent_of,
    path_extension, path_file_name, path_file_stem, path_join, path_parent,
};
use crate::recording::ffmpeg::{
    ffmpeg_args, ffmpeg_args_add, ffmpeg_arg, ffmpeg_codec_audio, ffmpeg_codec_video,
    ffmpeg_crf, ffmpeg_filter_complex, ffmpeg_input, ffmpeg_map, ffmpeg_new, ffmpeg_output, ffmpeg_pix_fmt,
    initial_args, TargetOs,
};
use crate::recording::models::{lemma_recording_file_name_no_nul, RecordingFile};
use crate::text::{
    all_digits, digits_value, is_ascii_digit, lemma_parse_digits, lemma_split_joined,
    lemma_split_without_separator, lemma_trim_unchanged, chars_to_string, decimal, find_last, last_index_of, lemma_decimal_no_nul, lemma_last_index_of,
    lemma_split_len, no_nul, parse_u64, push_chars, spec_parse_u64, spec_split, spec_trim, split_chars,
    starts_with_chars, str_eq, str_to_chars, string_push, sub_chars, take_at_most, take_chars, trim_chars,
    u64_to_decimal,
};

verus! {

// ----------------------------------------------------------------------------
// Inputs
// ----------------------------------------------------------------------------

/// Which optional files a recording directory holds.
#[derive(Debug, Clone, Copy, PartialEq, Eq)]
pub struct RecordingFilePresence {
    pub has_system_audio: bool,
    pub has_microphone: bool,
    pub has_camera: bool,
}

/// Does a directory listing hold an entry of the given name?
pub open spec fn lists_name(names: Seq<String>, name: Seq<char>) -> bool {
    exists|i: int| 0 <= i < names.len() && #[trigger] names[i]@ == name
}

fn listing_contains(names: &Vec<String>, name: &str) -> (b: bool)
    ensures
        b == lists_name(names@, name@),
{
    let mut i: usize = 0;
    while i < names.len()
        invariant
            i <= names.len(),
            forall|j: int| 0 <= j < i ==> #[trigger] names@[j]@ != name@,
        decreases names.len() - i,
    {
        if str_eq(names[i].as_str(), name) {
            return true;
        }
        i = i + 1;
    }
    false
}

/// Which of the optional files a recording directory holds, given the names
/// of the entries in it.
pub fn check_recording_files(file_names: &Vec<String>) -> (p: RecordingFilePresence)
    ensures
        p.has_system_audio == lists_name(file_names@, RecordingFile::SystemAudio.name()),
        p.has_microphone == lists_name(file_names@, RecordingFile::Microphone.name()),
        p.has_camera == lists_name(file_names@, RecordingFile::Camera.name()),
{
    RecordingFilePresence {
        has_system_audio: listing_contains(file_names, RecordingFile::SystemAudio.as_ref()),
        has_microphone: listing_contains(file_names, RecordingFile::Microphone.as_ref()),
        has_camera: listing_contains(file_names, RecordingFile::Camera.as_ref()),
    }
}

/// Is the camera drawn into the exported video (rather than exported as a
/// file of its own)?
pub open spec fn burns_camera(p: RecordingFilePresence, separate_camera_file: bool) -> bool {
    p.has_camera && !separate_camera_file
}

/// The input files in the order they are given to FFmpeg: the screen, the
/// camera when it is drawn in, the microphone, the system audio.
pub open spec fn export_inputs(
    source: Seq<char>,
    p: RecordingFilePresence,
    separate_camera_file: bool,
) -> Seq<Seq<char>> {
    seq![path_join(source, RecordingFile::Screen.name())] + (if burns_camera(
        p,
        separate_camera_file,
    ) {
        seq![path_join(source, RecordingFile::Camera.name())]
    } else {
        Seq::empty()
    }) + (if p.has_microphone {
        seq![path_join(source, RecordingFile::Microphone.name())]
    } else {
        Seq::empty()
    }) + (if p.has_system_audio {
        seq![path_join(source, RecordingFile::SystemAudio.name())]
    } else {
        Seq::empty()
    })
}

/// `-i path` for each input, in order.
pub open spec fn input_args(inputs: Seq<Seq<char>>) -> Seq<Seq<char>>
    decreases inputs.len(),
{
    if inputs.len() == 0 {
        Seq::empty()
    } else {
        input_args(inputs.drop_last()) + seq!["-i"@, inputs.last()]
    }
}

proof fn lemma_input_args_append(a: Seq<Seq<char>>, b: Seq<Seq<char>>)
    ensures
        input_args(a + b) == input_args(a) + input_args(b),
    decreases b.len(),
{
    if b.len() == 0 {
        assert(a + b =~= a);
        assert(input_args(a) + input_args(b) =~= input_args(a));
    } else {
        assert((a + b).drop_last() =~= a + b.drop_last());
        lemma_input_args_append(a, b.drop_last());
        assert(input_args(a + b) =~= input_args(a) + input_args(b));
    }
}

/// Adds one input file of the recording directory.
fn add_recording_input(cmd: &mut FfmpegCommand, source_folder_path: &str, file: RecordingFile)
    requires
        no_nul(source_folder_path@),
    ensures
        ffmpeg_args(*final(cmd)) == ffmpeg_args(*old(cmd)) + input_args(
            seq![path_join(source_folder_path@, file.name())],
        ),
{
    proof {
        lemma_recording_file_name_no_nul(file);
    }
    let path = join_path(source_folder_path, file.as_ref());
    ffmpeg_input(cmd, path.as_str());
    assert(input_args(seq![path@]) =~= seq!["-i"@, path@]) by {
        assert(seq![path@].drop_last() =~= Seq::<Seq<char>>::empty());
        assert(input_args(Seq::<Seq<char>>::empty()) == Seq::<Seq<char>>::empty());
    }
}

/// Adds the inputs of [`export_inputs`].
pub fn configure_input_streams(
    cmd: &mut FfmpegCommand,
    source_folder_path: &str,
    available_streams: &RecordingFilePresence,
    separate_camera_file: bool,
)
    requires
        no_nul(source_folder_path@),
    ensures
        ffmpeg_args(*final(cmd)) == ffmpeg_args(*old(cmd)) + input_args(
            export_inputs(source_folder_path@, *available_streams, separate_camera_file),
        ),
{
    let ghost src = source_folder_path@;
    let ghost p = *available_streams;
    let ghost start = ffmpeg_args(*cmd);
    let ghost screen = seq![path_join(src, RecordingFile::Screen.name())];
    let ghost camera = if burns_camera(p, separate_camera_file) {
        seq![path_join(src, RecordingFile::Camera.name())]
    } else {
        Seq::empty()
    };
    let ghost mic = if p.has_microphone {
        seq![path_join(src, RecordingFile::Microphone.name())]
    } else {
        Seq::empty()
    };
    let ghost sys = if p.has_system_audio {
        seq![path_join(src, RecordingFile::SystemAudio.name())]
    } else {
        Seq::empty()
    };
    assert(input_args(Seq::<Seq<char>>::empty()) =~= Seq::<Seq<char>>::empty());

    add_recording_input(cmd, source_folder_path, RecordingFile::Screen);
    if available_streams.has_camera && !separate_camera_file {
        add_recording_input(cmd, source_folder_path, RecordingFile::Camera);
    }
    assert(ffmpeg_args(*cmd) =~= start + input_args(screen) + input_args(camera));
    if available_streams.has_microphone {
        add_recording_input(cmd, source_folder_path, RecordingFile::Microphone);
    }
    assert(ffmpeg_args(*cmd) =~= start + input_args(screen) + input_args(camera) + input_args(mic));
    if available_streams.has_system_audio {
        add_recording_input(cmd, source_folder_path, RecordingFile::SystemAudio);
    }
    assert(ffmpeg_args(*cmd) =~= start + input_args(screen) + input_args(camera) + input_args(mic)
        + input_args(sys));
    proof {
        lemma_input_args_append(screen, camera);
        lemma_input_args_append(screen + camera, mic);
        lemma_input_args_append(screen + camera + mic, sys);
        assert(export_inputs(src, p, separate_camera_file) =~= screen + camera + mic + sys);
    }
}

/// Progress is written to standard output, without the statistics line.
pub open spec fn progress_args() -> Seq<Seq<char>> {
    seq!["-progress"@, "pipe:1"@, "-nostats"@]
}

pub fn configure_progress_options(cmd: &mut FfmpegCommand)
    ensures
        ffmpeg_args(*final(cmd)) == ffmpeg_args(*old(cmd)) + progress_args(),
{
    proof {
        reveal_strlit("-progress");
        reveal_strlit("pipe:1");
        assert(no_nul("-progress"@) && no_nul("pipe:1"@));
    }
    ffmpeg_args_add(cmd, &["-progress", "pipe:1"]);
    proof {
        reveal_strlit("-nostats");
        assert(no_nul("-nostats"@));
    }
    ffmpeg_arg(cmd, "-nostats");
    assert(ffmpeg_args(*cmd) =~= ffmpeg_args(*old(cmd)) + progress_args());
}

// ----------------------------------------------------------------------------
// Video and audio tracks
// ----------------------------------------------------------------------------

/// Filter that scales the camera to 320 pixels wide and draws it in the
/// bottom right corner, 10 pixels from the edges.
pub open spec fn camera_overlay_filter() -> Seq<char> {
    "[1:v]scale=320:-1[camera_scaled];[0:v][camera_scaled]overlay=W-w-10:H-h-10[outv]"@
}

/// The video stream mapped to the output: the overlay's result when the
/// camera is drawn in, the screen otherwise.
pub open spec fn video_map_args(burned: bool) -> Seq<Seq<char>> {
    if burned { seq!["-map"@, "[outv]"@] } else { seq!["-map"@, "0:v"@] }
}

pub open spec fn video_filter(burned: bool) -> Option<Seq<char>> {
    if burned { Some(camera_overlay_filter()) } else { None }
}

/// Maps the video track and returns the filter it needs, if any.
pub fn configure_video_tracks(cmd: &mut FfmpegCommand, has_camera: bool, separate_camera_file: bool) -> (filter: Option<String>)
    ensures
        ffmpeg_args(*final(cmd)) == ffmpeg_args(*old(cmd)) + video_map_args(
            has_camera && !separate_camera_file,
        ),
        match filter {
            Some(f) => video_filter(has_camera && !separate_camera_file) == Some(f@),
            None => video_filter(has_camera && !separate_camera_file) is None,
        },
{
    if !separate_camera_file && has_camera {
        proof {
            reveal_strlit("[outv]");
            assert(no_nul("[outv]"@));
        }
        ffmpeg_map(cmd, "[outv]");
        Some(
            chars_to_string(
                &str_to_chars(
                    "[1:v]scale=320:-1[camera_scaled];[0:v][camera_scaled]overlay=W-w-10:H-h-10[outv]",
                ),
            ),
        )
    } else {
        proof {
            reveal_strlit("0:v");
            assert(no_nul("0:v"@));
        }
        ffmpeg_map(cmd, "0:v");
        None
    }
}

/// Position of the microphone among the inputs (when there is one).
pub open spec fn mic_input_index(p: RecordingFilePresence, separate_camera_file: bool) -> nat {
    (if burns_camera(p, separate_camera_file) { 1nat } else { 0nat }) + 1
}

/// Position of the system audio among the inputs (when there is one).
pub open spec fn sys_input_index(p: RecordingFilePresence, separate_camera_file: bool) -> nat {
    mic_input_index(p, separate_camera_file) + if p.has_microphone { 1nat } else { 0nat }
}

/// The audio stream specifier `{index}:a`.
pub open spec fn audio_stream(index: nat) -> Seq<char> {
    decimal(index) + ":a"@
}

/// Audio mapping: each audio file as a track of its own when the tracks
/// are kept separate; otherwise the microphone and system audio mixed into
/// one track when both exist, or the single one that exists.
pub open spec fn audio_map_args(
    p: RecordingFilePresence,
    separate_audio_tracks: bool,
    separate_camera_file: bool,
) -> Seq<Seq<char>> {
    let mic = mic_input_index(p, separate_camera_file);
    let sys = sys_input_index(p, separate_camera_file);
    if separate_audio_tracks {
        (if p.has_microphone { seq!["-map"@, audio_stream(mic)] } else { Seq::empty() })
            + (if p.has_system_audio { seq!["-map"@, audio_stream(sys)] } else { Seq::empty() })
    } else if p.has_microphone && p.has_system_audio {
        seq!["-map"@, "[aout]"@]
    } else if p.has_microphone {
        seq!["-map"@, audio_stream(mic)]
    } else if p.has_system_audio {
        seq!["-map"@, audio_stream(sys)]
    } else {
        Seq::empty()
    }
}

/// The filter that mixes microphone and system audio into `[aout]`.
pub open spec fn audio_mix_filter(mic: nat, sys: nat) -> Seq<char> {
    "["@ + decimal(mic) + ":a]["@ + decimal(sys) + ":a]amix=inputs=2[aout]"@
}

pub open spec fn audio_filter(
    p: RecordingFilePresence,
    separate_audio_tracks: bool,
    separate_camera_file: bool,
) -> Option<Seq<char>> {
    if !separate_audio_tracks && p.has_microphone && p.has_system_audio {
        Some(
            audio_mix_filter(
                mic_input_index(p, separate_camera_file),
                sys_input_index(p, separate_camera_file),
            ),
        )
    } else {
        None
    }
}

/// `{index}:a` as text.
fn audio_stream_text(index: u64) -> (s: String)
    ensures
        s@ == audio_stream(index as nat),
        no_nul(s@),
{
    proof {
        lemma_decimal_no_nul(index as nat);
        reveal_strlit(":a");
    }
    let mut s = u64_to_decimal(index);
    push_chars(&mut s, &str_to_chars(":a"));
    s
}

/// Maps the audio tracks and returns the filter they need, if any.
pub fn configure_audio_tracks(
    cmd: &mut FfmpegCommand,
    available_streams: &RecordingFilePresence,
    separate_audio_tracks: bool,
    separate_camera_file: bool,
) -> (filter: Option<String>)
    ensures
        ffmpeg_args(*final(cmd)) == ffmpeg_args(*old(cmd)) + audio_map_args(
            *available_streams,
            separate_audio_tracks,
            separate_camera_file,
        ),
        match filter {
            Some(f) => audio_filter(*available_streams, separate_audio_tracks, separate_camera_file)
                == Some(f@),
            None => audio_filter(
                *available_streams,
                separate_audio_tracks,
                separate_camera_file,
            ) is None,
        },
{
    let has_camera = available_streams.has_camera;
    let has_microphone = available_streams.has_microphone;
    let has_system_audio = available_streams.has_system_audio;
    let ghost start = ffmpeg_args(*cmd);

    let camera_input_offset: u64 = if has_camera && !separate_camera_file { 1 } else { 0 };
    let mic_input_index: u64 = camera_input_offset + 1;
    let sys_input_index: u64 = if has_microphone { mic_input_index + 1 } else { mic_input_index };

    if separate_audio_tracks {
        let mut audio_index = mic_input_index;
        if has_microphone {
            let spec = audio_stream_text(audio_index);
            ffmpeg_map(cmd, spec.as_str());
            audio_index = audio_index + 1;
        }
        if has_system_audio {
            let spec = audio_stream_text(audio_index);
            ffmpeg_map(cmd, spec.as_str());
        }
        assert(ffmpeg_args(*cmd) =~= start + audio_map_args(
            *available_streams,
            separate_audio_tracks,
            separate_camera_file,
        ));
        None
    } else if has_microphone && has_system_audio {
        proof {
            reveal_strlit("[aout]");
            assert(no_nul("[aout]"@));
        }
        ffmpeg_map(cmd, "[aout]");
        let mut f = chars_to_string(&str_to_chars("["));
        push_chars(&mut f, &str_to_chars(u64_to_decimal(mic_input_index).as_str()));
        push_chars(&mut f, &str_to_chars(":a]["));
        push_chars(&mut f, &str_to_chars(u64_to_decimal(sys_input_index).as_str()));
        push_chars(&mut f, &str_to_chars(":a]amix=inputs=2[aout]"));
        Some(f)
    } else if has_microphone || has_system_audio {
        let audio_index = if has_microphone { mic_input_index } else { sys_input_index };
        let spec = audio_stream_text(audio_index);
        ffmpeg_map(cmd, spec.as_str());
        None
    } else {
        assert(ffmpeg_args(*cmd) =~= start + audio_map_args(
            *available_streams,
            separate_audio_tracks,
            separate_camera_file,
        ));
        None
    }
}

/// The filters of an export hold no NUL character.
proof fn lemma_filters_no_nul(p: RecordingFilePresence, separate_audio_tracks: bool, separate_camera_file: bool)
    ensures
        joined_filters(
            video_filter(burns_camera(p, separate_camera_file)),
            audio_filter(p, separate_audio_tracks, separate_camera_file),
        ) matches Some(f) ==> no_nul(f),
{
    reveal_strlit("[1:v]scale=320:-1[camera_scaled];[0:v][camera_scaled]overlay=W-w-10:H-h-10[outv]");
    reveal_strlit("[");
    reveal_strlit(":a][");
    reveal_strlit(":a]amix=inputs=2[aout]");
    lemma_decimal_no_nul(mic_input_index(p, separate_camera_file));
    lemma_decimal_no_nul(sys_input_index(p, separate_camera_file));
    assert(no_nul(camera_overlay_filter()));
    let v = video_filter(burns_camera(p, separate_camera_file));
    let a = audio_filter(p, separate_audio_tracks, separate_camera_file);
    if let Some(x) = a {
        assert(no_nul(x));
    }
    if let (Some(x), Some(y)) = (v, a) {
        assert(no_nul(x + seq![';'] + y));
    }
}

/// The filters in use, joined by `;`.
pub open spec fn joined_filters(video: Option<Seq<char>>, audio: Option<Seq<char>>) -> Option<Seq<char>> {
    match (video, audio) {
        (Some(v), Some(a)) => Some(v + seq![';'] + a),
        (Some(v), None) => Some(v),
        (None, Some(a)) => Some(a),
        (None, None) => None,
    }
}

pub open spec fn filter_args(filters: Option<Seq<char>>) -> Seq<Seq<char>> {
    match filters {
        Some(f) => seq!["-filter_complex"@, f],
        None => Seq::empty(),
    }
}

/// Video encoding of the export: on macOS H.264 in hardware at 12 Mbit/s
/// with the high profile; elsewhere `libx264` at quality 20.
pub open spec fn output_codec_args(os: TargetOs) -> Seq<Seq<char>> {
    match os {
        TargetOs::MacOs => seq!["-c:v"@, "h264_videotoolbox"@, "-b:v"@, "12000k"@, "-profile:v"@, "high"@],
        _ => seq!["-c:v"@, "libx264"@, "-crf:v"@, decimal(20)],
    }
}

/// Output settings: stop at the shortest stream, encode the video as
/// [`output_codec_args`] says in `yuv420p`, AAC audio at 192 kbit/s.
pub open spec fn output_args(destination: Seq<char>, os: TargetOs) -> Seq<Seq<char>> {
    seq!["-shortest"@] + output_codec_args(os) + seq![
        "-pix_fmt"@,
        "yuv420p"@,
        "-c:a"@,
        "aac"@,
        "-b:a"@,
        "192k"@,
        destination,
    ]
}

pub fn configure_output_options(cmd: &mut FfmpegCommand, destination_file_path: &str, os: TargetOs)
    requires
        no_nul(destination_file_path@),
    ensures
        ffmpeg_args(*final(cmd)) == ffmpeg_args(*old(cmd)) + output_args(destination_file_path@, os),
{
    proof {
        reveal_strlit("-shortest");
        assert(no_nul("-shortest"@));
    }
    ffmpeg_arg(cmd, "-shortest");
    match os {
        TargetOs::MacOs => {
            proof {
                reveal_strlit("h264_videotoolbox");
                assert(no_nul("h264_videotoolbox"@));
            }
            ffmpeg_codec_video(cmd, "h264_videotoolbox");
            proof {
                reveal_strlit("-b:v");
                reveal_strlit("12000k");
                reveal_strlit("-profile:v");
                reveal_strlit("high");
                assert(no_nul("-b:v"@) && no_nul("12000k"@) && no_nul("-profile:v"@) && no_nul("high"@));
            }
            ffmpeg_args_add(cmd, &["-b:v", "12000k", "-profile:v", "high"]);
        },
        _ => {
            proof {
                reveal_strlit("libx264");
                assert(no_nul("libx264"@));
            }
            ffmpeg_codec_video(cmd, "libx264");
            ffmpeg_crf(cmd, 20);
        },
    }
    proof {
        reveal_strlit("yuv420p");
        assert(no_nul("yuv420p"@));
    }
    ffmpeg_pix_fmt(cmd, "yuv420p");
    proof {
        reveal_strlit("aac");
        assert(no_nul("aac"@));
    }
    ffmpeg_codec_audio(cmd, "aac");
    proof {
        reveal_strlit("-b:a");
        reveal_strlit("192k");
        assert(no_nul("-b:a"@) && no_nul("192k"@));
    }
    ffmpeg_args_add(cmd, &["-b:a", "192k"]);
    ffmpeg_output(cmd, destination_file_path);
    assert(ffmpeg_args(*cmd) =~= ffmpeg_args(*old(cmd)) + output_args(destination_file_path@, os));
}

/// The whole export command line: inputs, progress reporting, the video
/// and audio mapping, their filters, and the output settings.
pub open spec fn export_args(
    source: Seq<char>,
    output: Seq<char>,
    p: RecordingFilePresence,
    separate_audio_tracks: bool,
    separate_camera_file: bool,
    os: TargetOs,
) -> Seq<Seq<char>> {
    let burned = burns_camera(p, separate_camera_file);
    initial_args() + input_args(export_inputs(source, p, separate_camera_file)) + progress_args()
        + video_map_args(burned) + audio_map_args(p, separate_audio_tracks, separate_camera_file)
        + filter_args(
        joined_filters(
            video_filter(burned),
            audio_filter(p, separate_audio_tracks, separate_camera_file),
        ),
    ) + output_args(output, os)
}

/// The command that exports the recording in `source_folder_path` to
/// `output_path` on `os` (see [`export_args`]).
pub fn export_command(
    source_folder_path: &str,
    output_path: &str,
    available_streams: &RecordingFilePresence,
    separate_audio_tracks: bool,
    separate_camera_file: bool,
    os: TargetOs,
) -> (cmd: FfmpegCommand)
    requires
        no_nul(source_folder_path@),
        no_nul(output_path@),
    ensures
        ffmpeg_args(cmd) == export_args(
            source_folder_path@,
            output_path@,
            *available_streams,
            separate_audio_tracks,
            separate_camera_file,
            os,
        ),
{
    let mut cmd = ffmpeg_new();
    configure_input_streams(&mut cmd, source_folder_path, available_streams, separate_camera_file);
    configure_progress_options(&mut cmd);
    let video_part = configure_video_tracks(
        &mut cmd,
        available_streams.has_camera,
        separate_camera_file,
    );
    let audio_part = configure_audio_tracks(
        &mut cmd,
        available_streams,
        separate_audio_tracks,
        separate_camera_file,
    );
    let ghost before_filters = ffmpeg_args(cmd);
    let ghost burned = burns_camera(*available_streams, separate_camera_file);
    let ghost joined = joined_filters(
        video_filter(burned),
        audio_filter(*available_streams, separate_audio_tracks, separate_camera_file),
    );
    assert(before_filters =~= initial_args() + input_args(
        export_inputs(source_folder_path@, *available_streams, separate_camera_file),
    ) + progress_args() + video_map_args(burned) + audio_map_args(
        *available_streams,
        separate_audio_tracks,
        separate_camera_file,
    ));
    let filters: Option<String> = match (video_part, audio_part) {
        (Some(v), Some(a)) => {
            let mut f = v;
            string_push(&mut f, ';');
            push_chars(&mut f, &str_to_chars(a.as_str()));
            assert(Some(f@) == joined);
            Some(f)
        },
        (Some(v), None) => {
            assert(Some(v@) == joined);
            Some(v)
        },
        (None, Some(a)) => {
            assert(Some(a@) == joined);
            Some(a)
        },
        (None, None) => {
            assert(joined is None);
            None
        },
    };
    proof {
        lemma_filters_no_nul(*available_streams, separate_audio_tracks, separate_camera_file);
    }
    match filters {
        Some(f) => ffmpeg_filter_complex(&mut cmd, f.as_str()),
        None => {},
    }
    assert(ffmpeg_args(cmd) =~= before_filters + filter_args(joined));
    configure_output_options(&mut cmd, output_path, os);
    assert(ffmpeg_args(cmd) =~= export_args(
        source_folder_path@,
        output_path@,
        *available_streams,
        separate_audio_tracks,
        separate_camera_file,
        os,
    ));
    cmd
}

/// Every stream that the export maps or mixes by position is the file it
/// is meant to be: input 0 is the screen, input 1 the camera when it is
/// drawn in, and the microphone and system audio stand at the positions
/// that the audio mapping and mix filter name.
pub proof fn law_export_streams_match_inputs(
    source: Seq<char>,
    p: RecordingFilePresence,
    separate_camera_file: bool,
)
    ensures
        ({
            let inputs = export_inputs(source, p, separate_camera_file);
            let mic = mic_input_index(p, separate_camera_file) as int;
            let sys = sys_input_index(p, separate_camera_file) as int;
            &&& inputs.len() == 1 + (if burns_camera(p, separate_camera_file) { 1int } else { 0 })
                + (if p.has_microphone { 1int } else { 0 }) + (if p.has_system_audio { 1int } else { 0 })
            &&& inputs[0] == path_join(source, RecordingFile::Screen.name())
            &&& burns_camera(p, separate_camera_file) ==> inputs[1] == path_join(
                source,
                RecordingFile::Camera.name(),
            )
            &&& p.has_microphone ==> mic < inputs.len() && inputs[mic] == path_join(
                source,
                RecordingFile::Microphone.name(),
            )
            &&& p.has_system_audio ==> sys < inputs.len() && inputs[sys] == path_join(
                source,
                RecordingFile::SystemAudio.name(),
            )
        }),
{
}

/// `arg` is the audio stream `{i}:a` of an input `i` that is `file`.
pub open spec fn names_audio_of(inputs: Seq<Seq<char>>, arg: Seq<char>, file: Seq<char>) -> bool {
    exists|i: int| 0 <= i < inputs.len() && #[trigger] inputs[i] == file && arg == audio_stream(i as nat)
}

/// The audio that an export maps comes from the recording's audio files and
/// from nothing else. With separate tracks there is one `-map` per audio
/// file: the microphone's first, then the system audio's, each naming the
/// input that is that file. Mixed into one track, the two are mapped as
/// `[aout]` and the mix filter reads the microphone and the system audio
/// inputs; a single audio file is mapped by its own input; without audio
/// nothing is mapped.
pub proof fn law_audio_maps_name_the_audio_inputs(
    source: Seq<char>,
    p: RecordingFilePresence,
    separate_audio_tracks: bool,
    separate_camera_file: bool,
)
    ensures
        ({
            let inputs = export_inputs(source, p, separate_camera_file);
            let maps = audio_map_args(p, separate_audio_tracks, separate_camera_file);
            let mic = path_join(source, RecordingFile::Microphone.name());
            let sys = path_join(source, RecordingFile::SystemAudio.name());
            let n = (if p.has_microphone { 1int } else { 0 }) + (if p.has_system_audio { 1int } else { 0 });
            &&& separate_audio_tracks ==> {
                &&& maps.len() == 2 * n
                &&& p.has_microphone ==> maps[0] == "-map"@ && names_audio_of(inputs, maps[1], mic)
                &&& p.has_system_audio ==> maps[2 * n - 2] == "-map"@ && names_audio_of(
                    inputs,
                    maps[2 * n - 1],
                    sys,
                )
                &&& audio_filter(p, separate_audio_tracks, separate_camera_file) is None
            }
            &&& !separate_audio_tracks && p.has_microphone && p.has_system_audio ==> {
                &&& maps == seq!["-map"@, "[aout]"@]
                &&& exists|i: int, k: int|
                    0 <= i < inputs.len() && 0 <= k < inputs.len() && #[trigger] inputs[i] == mic
                        && #[trigger] inputs[k] == sys && audio_filter(
                        p,
                        separate_audio_tracks,
                        separate_camera_file,
                    ) == Some(audio_mix_filter(i as nat, k as nat))
            }
            &&& !separate_audio_tracks && p.has_microphone != p.has_system_audio ==> {
                &&& maps.len() == 2 && maps[0] == "-map"@
                &&& names_audio_of(inputs, maps[1], if p.has_microphone { mic } else { sys })
                &&& audio_filter(p, separate_audio_tracks, separate_camera_file) is None
            }
            &&& n == 0 ==> maps.len() == 0
        }),
{
    let inputs = export_inputs(source, p, separate_camera_file);
    let maps = audio_map_args(p, separate_audio_tracks, separate_camera_file);
    let mic = path_join(source, RecordingFile::Microphone.name());
    let sys = path_join(source, RecordingFile::SystemAudio.name());
    let mi = mic_input_index(p, separate_camera_file) as int;
    let si = sys_input_index(p, separate_camera_file) as int;
    law_export_streams_match_inputs(source, p, separate_camera_file);
    if p.has_microphone {
        assert(inputs[mi] == mic);
    }
    if p.has_system_audio {
        assert(inputs[si] == sys);
    }
    if separate_audio_tracks {
        if p.has_microphone {
            assert(names_audio_of(inputs, maps[1], mic));
        }
        if p.has_system_audio {
            let n = (if p.has_microphone { 1int } else { 0 }) + 1;
            assert(maps[2 * n - 1] == audio_stream(si as nat));
            assert(names_audio_of(inputs, maps[2 * n - 1], sys));
        }
    } else if p.has_microphone && p.has_system_audio {
        assert(audio_filter(p, separate_audio_tracks, separate_camera_file) == Some(
            audio_mix_filter(mi as nat, si as nat),
        ));
    } else if p.has_microphone {
        assert(names_audio_of(inputs, maps[1], mic));
    } else if p.has_system_audio {
        assert(names_audio_of(inputs, maps[1], sys));
    }
}

// ----------------------------------------------------------------------------
// Output names
// ----------------------------------------------------------------------------

/// A candidate for a free path near `base`: `{stem}_{uuid}.{extension}`
/// in the same directory for a file with an extension, `{name}_{uuid}`
/// otherwise. The directory is `.` when `base` has none.
pub open spec fn unique_path_candidate_spec(base: Seq<char>, base_is_file: bool, uuid: Seq<char>) -> Seq<char> {
    let parent = match path_parent(base) {
        Some(p) => p,
        None => "."@,
    };
    let name = match path_file_name(base) {
        Some(n) => n,
        None => Seq::<char>::empty(),
    };
    let k = last_index_of(name, '.');
    let candidate = if base_is_file && k >= 0 {
        name.take(k) + seq!['_'] + uuid + seq!['.'] + name.skip(k + 1)
    } else {
        name + seq!['_'] + uuid
    };
    path_join(parent, candidate)
}

/// A fresh candidate path for [`unique_path_candidate_spec`], with a new
/// random identifier each time.
pub fn unique_path_candidate(base: &str, base_is_file: bool) -> (p: String)
    ensures
        exists|u: Seq<char>| is_hyphenated_uuid(u) && p@ == unique_path_candidate_spec(base@, base_is_file, u),
{
    let parent_opt = parent_of(base);
    let parent = match parent_opt {
        Some(p) => p,
        None => chars_to_string(&str_to_chars(".")),
    };
    assert(parent@ == match path_parent(base@) {
        Some(p) => p,
        None => "."@,
    });
    let name_opt = file_name_of(base);
    let name = match name_opt {
        Some(n) => str_to_chars(n.as_str()),
        None => Vec::new(),
    };
    assert(name@ == match path_file_name(base@) {
        Some(n) => n,
        None => Seq::<char>::empty(),
    });
    let uuid = new_uuid_v4();
    let uuid_chars = str_to_chars(uuid.as_str());
    proof {
        lemma_last_index_of(name@, '.');
    }
    let dot = find_last(&name, '.');
    let mut candidate;
    if base_is_file && dot.is_some() {
        let k = dot.unwrap();
        assert(k < name.len());
        candidate = chars_to_string(&sub_chars(&name, 0, k));
        string_push(&mut candidate, '_');
        push_chars(&mut candidate, &uuid_chars);
        string_push(&mut candidate, '.');
        push_chars(&mut candidate, &sub_chars(&name, k + 1, name.len()));
        assert(name@.subrange(0, k as int) =~= name@.take(k as int));
        assert(name@.subrange(k + 1, name@.len() as int) =~= name@.skip(k + 1));
        assert(candidate@ =~= name@.take(k as int) + seq!['_'] + uuid@ + seq!['.'] + name@.skip(k + 1));
    } else {
        candidate = chars_to_string(&name);
        string_push(&mut candidate, '_');
        push_chars(&mut candidate, &uuid_chars);
        assert(candidate@ =~= name@ + seq!['_'] + uuid@);
    }
    let p = join_path(parent.as_str(), candidate.as_str());
    assert(is_hyphenated_uuid(uuid@) && p@ == unique_path_candidate_spec(base@, base_is_file, uuid@));
    p
}

/// Where an export with a separate camera file goes, inside the fresh
/// directory `unique_dir`: the recording under the destination's file
/// name, the camera as `{stem}_camera.{extension}` (an empty extension when
/// the destination has none). `None` when the destination has no file name.
pub open spec fn separate_output_paths_spec(destination: Seq<char>, unique_dir: Seq<char>) -> Option<
    (Seq<char>, Seq<char>),
> {
    match (path_file_name(destination), path_file_stem(destination)) {
        (Some(name), Some(stem)) => {
            let ext = match path_extension(destination) {
                Some(e) => e,
                None => Seq::<char>::empty(),
            };
            Some(
                (
                    path_join(unique_dir, name),
                    path_join(unique_dir, stem + "_camera."@ + ext),
                ),
            )
        },
        _ => None,
    }
}

pub fn separate_output_paths(destination: &str, unique_dir: &str) -> (r: Option<(String, String)>)
    ensures
        match r {
            Some((recording, camera)) => separate_output_paths_spec(destination@, unique_dir@)
                == Some((recording@, camera@)),
            None => separate_output_paths_spec(destination@, unique_dir@) is None,
        },
{
    let name = file_name_of(destination);
    let stem = file_stem_of(destination);
    match (name, stem) {
        (Some(name), Some(stem)) => {
            let ext = match extension_of(destination) {
                Some(e) => e,
                None => String::new(),
            };
            let mut camera_name = stem;
            push_chars(&mut camera_name, &str_to_chars("_camera."));
            push_chars(&mut camera_name, &str_to_chars(ext.as_str()));
            let recording = join_path(unique_dir, name.as_str());
            let camera = join_path(unique_dir, camera_name.as_str());
            Some((recording, camera))
        },
        _ => None,
    }
}

/// What the user asked of an export: the recording's directory, the file
/// to write, and whether to open its folder afterwards, keep the audio
/// tracks apart, and write the camera to a file of its own.
#[derive(Debug, Clone)]
pub struct ExportOptions {
    pub source_folder_path: String,
    pub destination_file_path: String,
    pub open_folder_after_export: bool,
    pub separate_audio_tracks: bool,
    pub separate_camera_file: bool,
}

/// What is removed after an export that did not finish.
#[derive(Debug, Clone, PartialEq, Eq)]
pub enum ExportCleanup {
    /// The directory made for the export with a separate camera file.
    RemoveDirectory(String),
    /// The output file.
    RemoveFile(String),
    /// Nothing was written.
    Nothing,
}

/// What an unfinished export leaves to remove, with the files it made: the
/// directory made for the export when it wrote the camera to a file of its
/// own (the camera file's directory), whether or not the camera file was
/// written yet; otherwise the output file when it exists; otherwise
/// nothing.
pub open spec fn cleanup_after_cancel(
    output_path: Seq<char>,
    camera_path: Option<Seq<char>>,
    output_exists: bool,
) -> (bool, Option<Seq<char>>) {
    match camera_path {
        Some(c) if path_parent(c) is Some => (true, path_parent(c)),
        _ => if output_exists {
            (false, Some(output_path))
        } else {
            (false, None)
        },
    }
}

pub open spec fn cleanup_view(c: ExportCleanup) -> (bool, Option<Seq<char>>) {
    match c {
        ExportCleanup::RemoveDirectory(d) => (true, Some(d@)),
        ExportCleanup::RemoveFile(f) => (false, Some(f@)),
        ExportCleanup::Nothing => (false, None),
    }
}

/// [`cleanup_after_cancel`] for one unfinished export, given whether its
/// output file exists.
pub fn export_cleanup(
    output_path: &str,
    camera_path: Option<&str>,
    output_exists: bool,
) -> (c: ExportCleanup)
    ensures
        cleanup_view(c) == cleanup_after_cancel(
            output_path@,
            match camera_path {
                Some(p) => Some(p@),
                None => None,
            },
            output_exists,
        ),
{
    match camera_path {
        Some(c) => {
            match parent_of(c) {
                Some(folder) => {
                    return ExportCleanup::RemoveDirectory(folder);
                },
                None => {},
            }
        },
        None => {},
    }
    if output_exists {
        ExportCleanup::RemoveFile(chars_to_string(&str_to_chars(output_path)))
    } else {
        ExportCleanup::Nothing
    }
}

/// The folder a file browser opens to show `path`: the path itself when it
/// is a directory, otherwise its parent, or the path when it has none.
pub fn browse_target(path: &str, is_dir: bool) -> (t: String)
    ensures
        t@ == (if is_dir {
            path@
        } else {
            match path_parent(path@) {
                Some(p) => p,
                None => path@,
            }
        }),
{
    if is_dir {
        return chars_to_string(&str_to_chars(path));
    }
    match parent_of(path) {
        Some(p) => p,
        None => chars_to_string(&str_to_chars(path)),
    }
}

// ----------------------------------------------------------------------------
// Progress
// ----------------------------------------------------------------------------

/// Hours, minutes, seconds and milliseconds of an FFmpeg timestamp
/// `HH:MM:SS.mmm` (surrounding white space ignored). Exactly three `:`
/// separated parts are needed; the seconds part is read up to its first
/// `.`; of the text after that `.` the first three characters are read as
/// milliseconds, and unreadable milliseconds count as 0.
pub open spec fn timestamp_parts(ts: Seq<char>) -> Option<(u64, u64, u64, u64)> {
    let parts = spec_split(spec_trim(ts), ':');
    if parts.len() != 3 {
        None
    } else {
        let seconds_parts = spec_split(parts[2], '.');
        match (
            spec_parse_u64(parts[0]),
            spec_parse_u64(parts[1]),
            spec_parse_u64(seconds_parts[0]),
        ) {
            (Some(h), Some(m), Some(s)) => {
                let ms = if seconds_parts.len() > 1 {
                    match spec_parse_u64(take_at_most(seconds_parts[1], 3)) {
                        Some(v) => v,
                        None => 0,
                    }
                } else {
                    0
                };
                Some((h, m, s, ms))
            },
            _ => None,
        }
    }
}

/// Milliseconds that a timestamp stands for.
pub open spec fn timestamp_milliseconds(ts: Seq<char>) -> Option<int> {
    match timestamp_parts(ts) {
        Some((h, m, s, ms)) => Some((h * 3600 + m * 60 + s) * 1000 + ms),
        None => None,
    }
}

/// Parses the parts of an FFmpeg timestamp (see [`timestamp_parts`]).
fn parse_timestamp_parts(ts: &str) -> (r: Option<(u64, u64, u64, u64)>)
    ensures
        r == timestamp_parts(ts@),
{
    let chars = str_to_chars(ts);
    let trimmed = trim_chars(&chars);
    let parts = split_chars(&trimmed, ':');
    if parts.len() != 3 {
        return None;
    }
    let hours = match parse_u64(&parts[0]) {
        Some(h) => h,
        None => return None,
    };
    let minutes = match parse_u64(&parts[1]) {
        Some(m) => m,
        None => return None,
    };
    let seconds_parts = split_chars(&parts[2], '.');
    proof {
        lemma_split_len(parts[2]@, '.');
    }
    let seconds = match parse_u64(&seconds_parts[0]) {
        Some(s) => s,
        None => return None,
    };
    let milliseconds = if seconds_parts.len() > 1 {
        match parse_u64(&take_chars(&seconds_parts[1], 3)) {
            Some(v) => v,
            None => 0,
        }
    } else {
        0
    };
    Some((hours, minutes, seconds, milliseconds))
}

/// Converts an FFmpeg timestamp `HH:MM:SS.mmm` to milliseconds; `Err` when
/// it cannot be read (see [`timestamp_parts`]). The total must fit in 64
/// bits.
pub fn parse_timestamp_to_milliseconds(ts: &str) -> (r: Result<u64, ()>)
    requires
        timestamp_milliseconds(ts@) matches Some(v) ==> v <= u64::MAX,
    ensures
        match r {
            Ok(v) => timestamp_milliseconds(ts@) == Some(v as int),
            Err(_) => timestamp_milliseconds(ts@) is None,
        },
{
    match parse_timestamp_parts(ts) {
        Some((hours, minutes, seconds, milliseconds)) => {
            proof {
                assert(hours * 3600 + minutes * 60 + seconds <= (hours * 3600 + minutes * 60 + seconds) * 1000) by (nonlinear_arith);
                assert(hours * 3600 <= hours * 3600 + minutes * 60 + seconds);
            }
            Ok((hours * 3600 + minutes * 60 + seconds) * 1000 + milliseconds)
        },
        None => Err(()),
    }
}

/// The milliseconds reported on an FFmpeg progress line `out_time=...`;
/// `None` for any other line, for a timestamp that cannot be read, and for
/// one whose total does not fit in 64 bits.
pub open spec fn progress_milliseconds_spec(line: Seq<char>) -> Option<u64> {
    let prefix = "out_time="@;
    if prefix.len() <= line.len() && line.take(prefix.len() as int) == prefix {
        match timestamp_milliseconds(line.skip(prefix.len() as int)) {
            Some(v) => if v <= u64::MAX { Some(v as u64) } else { None },
            None => None,
        }
    } else {
        None
    }
}

/// Digits hold neither `:` nor `.`.
proof fn lemma_digits_not_separators(d: Seq<char>)
    requires
        all_digits(d),
    ensures
        forall|i: int| 0 <= i < d.len() ==> d[i] != ':' && d[i] != '.',
{
    assert forall|i: int| 0 <= i < d.len() implies d[i] != ':' && d[i] != '.' by {
        assert(is_ascii_digit(d[i]));
    }
}

/// How `H:M:S.F` splits into its parts.
proof fn lemma_timestamp_pieces(h: Seq<char>, m: Seq<char>, s: Seq<char>, f: Seq<char>)
    requires
        h.len() > 0,
        all_digits(h),
        all_digits(m),
        all_digits(s),
        all_digits(f),
    ensures
        ({
            let r = s + seq!['.'] + f;
            let t = h + seq![':'] + (m + seq![':'] + r);
            &&& spec_split(spec_trim(t), ':') == seq![h, m, r]
            &&& spec_split(r, '.') == seq![s, f]
        }),
{
    let r = s + seq!['.'] + f;
    let t = h + seq![':'] + (m + seq![':'] + r);
    assert(t[0] == h[0]);
    assert(is_ascii_digit(h[0]));
    if f.len() > 0 {
        assert(t.last() == f.last());
        assert(is_ascii_digit(f[f.len() - 1]));
    } else {
        assert(t.last() == '.');
    }
    lemma_trim_unchanged(t);
    lemma_digits_not_separators(h);
    lemma_digits_not_separators(m);
    lemma_digits_not_separators(s);
    lemma_digits_not_separators(f);
    assert forall|i: int| 0 <= i < r.len() implies r[i] != ':' by {
        if i < s.len() {
            assert(r[i] == s[i]);
        } else if i > s.len() {
            assert(r[i] == f[i - s.len() - 1]);
        }
    }
    lemma_split_without_separator(h, ':');
    lemma_split_without_separator(m, ':');
    lemma_split_without_separator(r, ':');
    lemma_split_joined(m, r, ':');
    lemma_split_joined(h, m + seq![':'] + r, ':');
    assert(spec_split(t, ':') =~= seq![h, m, r]);
    lemma_split_without_separator(s, '.');
    lemma_split_without_separator(f, '.');
    lemma_split_joined(s, f, '.');
    assert(spec_split(r, '.') =~= seq![s, f]);
}

/// The milliseconds of a fraction: its first three digits, 0 without any.
proof fn lemma_fraction_milliseconds(f: Seq<char>)
    requires
        all_digits(f),
    ensures
        (match spec_parse_u64(take_at_most(f, 3)) {
            Some(v) => v as int,
            None => 0,
        }) == digits_value(take_at_most(f, 3)),
{
    let fm = take_at_most(f, 3);
    assert(all_digits(fm));
    if fm.len() > 0 {
        lemma_parse_digits(fm);
        lemma_three_digits_small(fm);
    }
}

/// `k` digits are worth less than `10^k`.
proof fn lemma_three_digits_small(d: Seq<char>)
    requires
        d.len() <= 3,
        all_digits(d),
    ensures
        digits_value(d) < if d.len() == 0 { 1int } else if d.len() == 1 { 10int } else if d.len() == 2 { 100int } else { 1000int },
    decreases d.len(),
{
    if d.len() > 0 {
        let p = d.drop_last();
        assert(all_digits(p));
        lemma_three_digits_small(p);
        assert(is_ascii_digit(d.last()));
    }
}

/// FFmpeg's progress line `out_time=H:M:S.F` reports
/// `(H * 3600 + M * 60 + S) * 1000 + F` milliseconds, where `H`, `M` and `S`
/// are the values of their digits and `F` is the value of the first three
/// digits of the fraction (0 without any); a total beyond 64 bits reports
/// nothing.
pub proof fn law_progress_reads_out_time(h: Seq<char>, m: Seq<char>, s: Seq<char>, f: Seq<char>)
    requires
        h.len() > 0,
        m.len() > 0,
        s.len() > 0,
        all_digits(h),
        all_digits(m),
        all_digits(s),
        all_digits(f),
    ensures
        ({
            let total = (digits_value(h) * 3600 + digits_value(m) * 60 + digits_value(s)) * 1000
                + digits_value(take_at_most(f, 3));
            progress_milliseconds_spec("out_time="@ + h + ":"@ + m + ":"@ + s + "."@ + f) == if total
                <= u64::MAX {
                Some(total as u64)
            } else {
                None
            }
        }),
{
    reveal_strlit("out_time=");
    reveal_strlit(":");
    reveal_strlit(".");
    let prefix = "out_time="@;
    let r = s + seq!['.'] + f;
    let t = h + seq![':'] + (m + seq![':'] + r);
    let line = prefix + h + ":"@ + m + ":"@ + s + "."@ + f;
    assert(line =~= prefix + t);
    assert(line.take(prefix.len() as int) =~= prefix);
    assert(line.skip(prefix.len() as int) =~= t);
    lemma_timestamp_pieces(h, m, s, f);
    lemma_parse_digits(h);
    lemma_parse_digits(m);
    lemma_parse_digits(s);
    lemma_fraction_milliseconds(f);
    let fm = take_at_most(f, 3);
    let total = (digits_value(h) * 3600 + digits_value(m) * 60 + digits_value(s)) * 1000
        + digits_value(fm);
    if digits_value(h) > u64::MAX || digits_value(m) > u64::MAX || digits_value(s) > u64::MAX {
        assert(total > u64::MAX) by (nonlinear_arith)
            requires
                digits_value(h) > u64::MAX || digits_value(m) > u64::MAX || digits_value(s) > u64::MAX,
                total == (digits_value(h) * 3600 + digits_value(m) * 60 + digits_value(s)) * 1000
                    + digits_value(fm),
        ;
    }
}

/// Only `out_time=` lines report progress: any line that does not begin
/// with it (such as `out_time_ms=` or `progress=`) reports nothing.
pub proof fn law_only_out_time_lines_report(line: Seq<char>)
    requires
        !(line.len() >= 9 && line[0] == 'o' && line[1] == 'u' && line[2] == 't' && line[3] == '_'
            && line[4] == 't' && line[5] == 'i' && line[6] == 'm' && line[7] == 'e' && line[8] == '='),
    ensures
        progress_milliseconds_spec(line) is None,
{
    reveal_strlit("out_time=");
    let prefix = "out_time="@;
    if prefix.len() <= line.len() && line.take(prefix.len() as int) == prefix {
        assert(line[0] == line.take(9)[0] && line[1] == line.take(9)[1] && line[2] == line.take(9)[2]);
        assert(line[3] == line.take(9)[3] && line[4] == line.take(9)[4] && line[5] == line.take(9)[5]);
        assert(line[6] == line.take(9)[6] && line[7] == line.take(9)[7] && line[8] == line.take(9)[8]);
    }
}

/// Reads an FFmpeg progress line (see [`progress_milliseconds_spec`]).
pub fn progress_milliseconds(line: &str) -> (r: Option<u64>)
    ensures
        r == progress_milliseconds_spec(line@),
{
    let chars = str_to_chars(line);
    let prefix = str_to_chars("out_time=");
    if !starts_with_chars(&chars, &prefix) {
        return None;
    }
    let rest = sub_chars(&chars, prefix.len(), chars.len());
    assert(rest@ == line@.skip(prefix@.len() as int));
    let rest_text = chars_to_string(&rest);
    match parse_timestamp_parts(rest_text.as_str()) {
        Some((h, m, s, ms)) => {
            match h.checked_mul(3600) {
                None => None,
                Some(a) => match m.checked_mul(60) {
                    None => None,
                    Some(b) => match a.checked_add(b) {
                        None => None,
                        Some(c) => match c.checked_add(s) {
                            None => None,
                            Some(d) => match d.checked_mul(1000) {
                                None => None,
                                Some(e) => e.checked_add(ms),
                            },
                        },
                    },
                },
            }
        },
        None => None,
    }
}

} // verus!
