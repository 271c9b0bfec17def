//! FFmpeg command lines: the encoder processes that recordings and exports
//! are written through.
use vstd::prelude::*;

use ffmpeg_sidecar::command::FfmpegCommand;

use crate::paths::{is_hyphenated_uuid, join_path, new_uuid_v4, path_join};
use crate::text::{
    chars_to_string, contains_chars, contains_seq, decimal, lemma_decimal_no_nul, no_nul, push_chars,
    str_to_chars, string_push, u64_to_decimal,
};

verus! {

#[verifier::external_type_specification]
#[verifier::external_body]
pub struct ExFfmpegCommand(FfmpegCommand);

/// The argument list that an `FfmpegCommand` will hand to `ffmpeg`.
///
/// Only text without a NUL character is ever added to it (the wrappers
/// below require so): a NUL cannot reach a program, the command would fail
/// to start, and what the standard library records for such an argument is
/// not documented.
pub uninterp spec fn ffmpeg_args(cmd: FfmpegCommand) -> Seq<Seq<char>>;

/// The arguments that every new command starts with.
pub open spec fn initial_args() -> Seq<Seq<char>> {
    seq!["-loglevel"@, "level+info"@]
}

/// A new command for the bundled (or installed) `ffmpeg` binary.
///
/// Trusted: `FfmpegCommand::new` sets the log level, so its argument list is
/// `-loglevel level+info` (ffmpeg-sidecar's `command.rs`). Which binary it
/// runs depends on the disk and is not stated.
#[verifier::external_body]
pub(crate) fn ffmpeg_new() -> (cmd: FfmpegCommand)
    ensures
        ffmpeg_args(cmd) == initial_args(),
{
    FfmpegCommand::new()
}

/// Adds one argument.
///
/// Trusted: `FfmpegCommand::arg` appends the argument to the list.
#[verifier::external_body]
pub(crate) fn ffmpeg_arg(cmd: &mut FfmpegCommand, arg: &str)
    requires
        no_nul(arg@),
    ensures
        ffmpeg_args(*final(cmd)) == ffmpeg_args(*old(cmd)).push(arg@),
{
    cmd.arg(arg);
}

/// Adds several arguments in order.
///
/// Trusted: `FfmpegCommand::args` appends each argument in turn.
#[verifier::external_body]
pub(crate) fn ffmpeg_args_add(cmd: &mut FfmpegCommand, args: &[&str])
    requires
        forall|i: int| 0 <= i < args@.len() ==> no_nul(#[trigger] args@[i]@),
    ensures
        ffmpeg_args(*final(cmd)) == ffmpeg_args(*old(cmd)) + args@.map_values(|a: &str| a@),
{
    cmd.args(args);
}

/// Forces a format.
///
/// Trusted: `FfmpegCommand::format` appends `-f` and the format.
#[verifier::external_body]
pub(crate) fn ffmpeg_format(cmd: &mut FfmpegCommand, format: &str)
    requires
        no_nul(format@),
    ensures
        ffmpeg_args(*final(cmd)) == ffmpeg_args(*old(cmd)) + seq!["-f"@, format@],
{
    cmd.format(format);
}

/// Adds an input.
///
/// Trusted: `FfmpegCommand::input` appends `-i` and the path.
#[verifier::external_body]
pub(crate) fn ffmpeg_input(cmd: &mut FfmpegCommand, path: &str)
    requires
        no_nul(path@),
    ensures
        ffmpeg_args(*final(cmd)) == ffmpeg_args(*old(cmd)) + seq!["-i"@, path@],
{
    cmd.input(path);
}

/// Sets the output.
///
/// Trusted: `FfmpegCommand::output` appends the path alone.
#[verifier::external_body]
pub(crate) fn ffmpeg_output(cmd: &mut FfmpegCommand, path: &str)
    requires
        no_nul(path@),
    ensures
        ffmpeg_args(*final(cmd)) == ffmpeg_args(*old(cmd)).push(path@),
{
    cmd.output(path);
}

/// Selects a stream for the output.
///
/// Trusted: `FfmpegCommand::map` appends `-map` and the specifier.
#[verifier::external_body]
pub(crate) fn ffmpeg_map(cmd: &mut FfmpegCommand, spec: &str)
    requires
        no_nul(spec@),
    ensures
        ffmpeg_args(*final(cmd)) == ffmpeg_args(*old(cmd)) + seq!["-map"@, spec@],
{
    cmd.map(spec);
}

/// Sets the video codec.
///
/// Trusted: `FfmpegCommand::codec_video` appends `-c:v` and the codec.
#[verifier::external_body]
pub(crate) fn ffmpeg_codec_video(cmd: &mut FfmpegCommand, codec: &str)
    requires
        no_nul(codec@),
    ensures
        ffmpeg_args(*final(cmd)) == ffmpeg_args(*old(cmd)) + seq!["-c:v"@, codec@],
{
    cmd.codec_video(codec);
}

/// Sets the audio codec.
///
/// Trusted: `FfmpegCommand::codec_audio` appends `-c:a` and the codec.
#[verifier::external_body]
pub(crate) fn ffmpeg_codec_audio(cmd: &mut FfmpegCommand, codec: &str)
    requires
        no_nul(codec@),
    ensures
        ffmpeg_args(*final(cmd)) == ffmpeg_args(*old(cmd)) + seq!["-c:a"@, codec@],
{
    cmd.codec_audio(codec);
}

/// Sets the pixel format.
///
/// Trusted: `FfmpegCommand::pix_fmt` appends `-pix_fmt` and the format.
#[verifier::external_body]
pub(crate) fn ffmpeg_pix_fmt(cmd: &mut FfmpegCommand, format: &str)
    requires
        no_nul(format@),
    ensures
        ffmpeg_args(*final(cmd)) == ffmpeg_args(*old(cmd)) + seq!["-pix_fmt"@, format@],
{
    cmd.pix_fmt(format);
}

/// Sets a complex filter graph.
///
/// Trusted: `FfmpegCommand::filter_complex` appends `-filter_complex` and the graph.
#[verifier::external_body]
pub(crate) fn ffmpeg_filter_complex(cmd: &mut FfmpegCommand, graph: &str)
    requires
        no_nul(graph@),
    ensures
        ffmpeg_args(*final(cmd)) == ffmpeg_args(*old(cmd)) + seq!["-filter_complex"@, graph@],
{
    cmd.filter_complex(graph);
}

/// Sets the frame size.
///
/// Trusted: `FfmpegCommand::size` appends `-s` and `{width}x{height}` in decimal.
#[verifier::external_body]
pub(crate) fn ffmpeg_size(cmd: &mut FfmpegCommand, width: u32, height: u32)
    ensures
        ffmpeg_args(*final(cmd)) == ffmpeg_args(*old(cmd)) + seq![
            "-s"@,
            decimal(width as nat) + seq!['x'] + decimal(height as nat),
        ],
{
    cmd.size(width, height);
}

/// Sets the constant rate factor.
///
/// Trusted: `FfmpegCommand::crf` appends `-crf:v` and the value in decimal.
#[verifier::external_body]
pub(crate) fn ffmpeg_crf(cmd: &mut FfmpegCommand, crf: u32)
    ensures
        ffmpeg_args(*final(cmd)) == ffmpeg_args(*old(cmd)) + seq!["-crf:v"@, decimal(crf as nat)],
{
    cmd.crf(crf);
}

/// Reads the input at its native rate.
///
/// Trusted: `FfmpegCommand::realtime` appends `-re`.
#[verifier::external_body]
pub(crate) fn ffmpeg_realtime(cmd: &mut FfmpegCommand)
    ensures
        ffmpeg_args(*final(cmd)) == ffmpeg_args(*old(cmd)).push("-re"@),
{
    cmd.realtime();
}

/// Sets the output frame rate to a whole number of frames per second.
///
/// `FfmpegCommand::rate` appends `-r` and the rate's text; for a whole
/// number that text is its decimal form, which is what is appended here.
pub(crate) fn ffmpeg_rate(cmd: &mut FfmpegCommand, fps: u32)
    ensures
        ffmpeg_args(*final(cmd)) == ffmpeg_args(*old(cmd)) + seq!["-r"@, decimal(fps as nat)],
{
    let ghost before = ffmpeg_args(*cmd);
    proof {
        reveal_strlit("-r");
        assert(no_nul("-r"@));
    }
    ffmpeg_arg(cmd, "-r");
    let text = u64_to_decimal(fps as u64);
    proof {
        lemma_decimal_no_nul(fps as nat);
    }
    ffmpeg_arg(cmd, text.as_str());
    assert(ffmpeg_args(*cmd) =~= before + seq!["-r"@, decimal(fps as nat)]);
}

// ----------------------------------------------------------------------------
// Raw video writers
// ----------------------------------------------------------------------------

/// A crop rectangle, each number given as the text it is printed with.
#[derive(Debug, Clone)]
pub struct CropArea {
    pub width: String,
    pub height: String,
    pub x: String,
    pub y: String,
}

impl CropArea {
    /// The `crop=width:height:x:y` filter for this rectangle.
    pub open spec fn filter(self) -> Seq<char> {
        "crop="@ + self.width@ + seq![':'] + self.height@ + seq![':'] + self.x@ + seq![':']
            + self.y@
    }

    /// None of the numbers' texts holds a NUL character.
    pub open spec fn nul_free(self) -> bool {
        no_nul(self.width@) && no_nul(self.height@) && no_nul(self.x@) && no_nul(self.y@)
    }

    pub fn to_filter(&self) -> (f: String)
        ensures
            f@ == self.filter(),
            self.nul_free() ==> no_nul(f@),
    {
        proof {
            reveal_strlit("crop=");
        }
        let mut f = chars_to_string(&str_to_chars("crop="));
        push_chars(&mut f, &str_to_chars(self.width.as_str()));
        string_push(&mut f, ':');
        push_chars(&mut f, &str_to_chars(self.height.as_str()));
        string_push(&mut f, ':');
        push_chars(&mut f, &str_to_chars(self.x.as_str()));
        string_push(&mut f, ':');
        push_chars(&mut f, &str_to_chars(self.y.as_str()));
        f
    }
}

/// What a raw video writer is fed with.
#[derive(Debug, Clone)]
pub struct FfmpegInputDetails {
    pub width: u32,
    pub height: u32,
    pub pixel_format: String,
    pub crop: Option<CropArea>,
    pub output_frame_rate: Option<u32>,
}

/// The system the encoders are chosen for.
#[derive(Debug, Clone, Copy, PartialEq, Eq, Structural)]
pub enum TargetOs {
    MacOs,
    Windows,
    Other,
}

/// Video encoding of a raw video writer: on macOS the hardware HEVC encoder
/// at 12 Mbit/s, tagged `hvc1` so that players take it; on Windows the
/// chosen (hardware) encoder at quality 20 and 12 Mbit/s; elsewhere
/// FFmpeg's default.
pub open spec fn rawvideo_codec_args(os: TargetOs, encoder: Seq<char>) -> Seq<Seq<char>> {
    match os {
        TargetOs::MacOs => seq!["-c:v"@, "hevc_videotoolbox"@, "-b:v"@, "12000k"@, "-tag:v"@, "hvc1"@],
        TargetOs::Windows => seq!["-c:v"@, encoder, "-crf:v"@, decimal(20), "-b:v"@, "12000k"@],
        TargetOs::Other => Seq::empty(),
    }
}

/// Arguments of a raw video writer: frames arrive on standard input with
/// wall clock timestamps, are optionally cropped, are encoded as
/// [`rawvideo_codec_args`] says in `yuv420p`, at the output frame rate when
/// one is given, into `file_path`.
pub open spec fn rawvideo_args(
    file_path: Seq<char>,
    input: FfmpegInputDetails,
    os: TargetOs,
    encoder: Seq<char>,
) -> Seq<Seq<char>> {
    initial_args() + seq![
        "-use_wallclock_as_timestamps"@,
        "1"@,
        "-f"@,
        "rawvideo"@,
        "-pix_fmt"@,
        input.pixel_format@,
        "-s"@,
        decimal(input.width as nat) + seq!['x'] + decimal(input.height as nat),
        "-re"@,
        "-i"@,
        "-"@,
    ] + match input.crop {
        Some(c) => seq!["-vf"@, c.filter()],
        None => Seq::empty(),
    } + rawvideo_codec_args(os, encoder) + seq!["-pix_fmt"@, "yuv420p"@] + match input.output_frame_rate {
        Some(r) => seq!["-r"@, decimal(r as nat)],
        None => Seq::empty(),
    } + seq![file_path]
}

/// The command of a raw video writer for `os` (see [`rawvideo_args`]);
/// `encoder` is the video encoder used on Windows.
pub fn rawvideo_command(file_path: &str, input: &FfmpegInputDetails, os: TargetOs, encoder: &str) -> (cmd:
    FfmpegCommand)
    requires
        no_nul(file_path@),
        no_nul(input.pixel_format@),
        input.crop matches Some(c) ==> c.nul_free(),
        os == TargetOs::Windows ==> no_nul(encoder@),
    ensures
        ffmpeg_args(cmd) == rawvideo_args(file_path@, *input, os, encoder@),
{
    let mut cmd = ffmpeg_new();
    proof {
        reveal_strlit("-use_wallclock_as_timestamps");
        reveal_strlit("1");
        assert(no_nul("-use_wallclock_as_timestamps"@) && no_nul("1"@));
    }
    ffmpeg_args_add(&mut cmd, &["-use_wallclock_as_timestamps", "1"]);
    proof {
        reveal_strlit("rawvideo");
        assert(no_nul("rawvideo"@));
    }
    ffmpeg_format(&mut cmd, "rawvideo");
    ffmpeg_pix_fmt(&mut cmd, input.pixel_format.as_str());
    ffmpeg_size(&mut cmd, input.width, input.height);
    ffmpeg_realtime(&mut cmd);
    proof {
        reveal_strlit("-");
        assert(no_nul("-"@));
    }
    ffmpeg_input(&mut cmd, "-");
    let ghost after_input = ffmpeg_args(cmd);
    match &input.crop {
        Some(crop) => {
            let filter = crop.to_filter();
            proof {
                reveal_strlit("-vf");
                assert(no_nul("-vf"@));
            }
            ffmpeg_args_add(&mut cmd, &["-vf", filter.as_str()]);
        },
        None => {},
    }
    let ghost after_crop = ffmpeg_args(cmd);
    match os {
        TargetOs::MacOs => {
            proof {
                reveal_strlit("hevc_videotoolbox");
                assert(no_nul("hevc_videotoolbox"@));
            }
            ffmpeg_codec_video(&mut cmd, "hevc_videotoolbox");
            proof {
                reveal_strlit("-b:v");
                reveal_strlit("12000k");
                assert(no_nul("-b:v"@) && no_nul("12000k"@));
            }
            ffmpeg_args_add(&mut cmd, &["-b:v", "12000k"]);
            proof {
                reveal_strlit("-tag:v");
                reveal_strlit("hvc1");
                assert(no_nul("-tag:v"@) && no_nul("hvc1"@));
            }
            ffmpeg_args_add(&mut cmd, &["-tag:v", "hvc1"]);
        },
        TargetOs::Windows => {
            ffmpeg_codec_video(&mut cmd, encoder);
            ffmpeg_crf(&mut cmd, 20);
            proof {
                reveal_strlit("-b:v");
                reveal_strlit("12000k");
                assert(no_nul("-b:v"@) && no_nul("12000k"@));
            }
            ffmpeg_args_add(&mut cmd, &["-b:v", "12000k"]);
        },
        TargetOs::Other => {},
    }
    assert(ffmpeg_args(cmd) =~= after_crop + rawvideo_codec_args(os, encoder@));
    proof {
        reveal_strlit("yuv420p");
        assert(no_nul("yuv420p"@));
    }
    ffmpeg_pix_fmt(&mut cmd, "yuv420p");
    let ghost after_codec = ffmpeg_args(cmd);
    match input.output_frame_rate {
        Some(rate) => ffmpeg_rate(&mut cmd, rate),
        None => {},
    }
    let ghost after_rate = ffmpeg_args(cmd);
    ffmpeg_output(&mut cmd, file_path);
    proof {
        let s = rawvideo_args(file_path@, *input, os, encoder@);
        assert(ffmpeg_args(cmd) =~= s);
    }
    cmd
}

/// Arguments of a frame writer that encodes raw frames with `libx264`:
/// a fixed input frame rate when one is given, wall clock timestamps
/// otherwise, and an optional crop.
pub open spec fn frame_writer_args(
    file_path: Seq<char>,
    width: u32,
    height: u32,
    pixel_format: Seq<char>,
    frame_rate: Option<Seq<char>>,
    crop: Option<CropArea>,
) -> Seq<Seq<char>> {
    initial_args() + match frame_rate {
        Some(r) => seq!["-framerate"@, r],
        None => seq!["-use_wallclock_as_timestamps"@, "1"@],
    } + seq![
        "-f"@,
        "rawvideo"@,
        "-pix_fmt"@,
        pixel_format,
        "-s"@,
        decimal(width as nat) + seq!['x'] + decimal(height as nat),
        "-i"@,
        "-"@,
    ] + match crop {
        Some(c) => seq!["-vf"@, c.filter()],
        None => Seq::empty(),
    } + seq!["-c:v"@, "libx264"@, "-crf:v"@, decimal(20), file_path]
}

/// The command of a `libx264` frame writer (see [`frame_writer_args`]).
pub fn frame_writer_command(
    file_path: &str,
    width: u32,
    height: u32,
    pixel_format: &str,
    frame_rate: Option<&str>,
    crop: Option<&CropArea>,
) -> (cmd: FfmpegCommand)
    requires
        no_nul(file_path@),
        no_nul(pixel_format@),
        frame_rate matches Some(r) ==> no_nul(r@),
        crop matches Some(c) ==> c.nul_free(),
    ensures
        ffmpeg_args(cmd) == frame_writer_args(
            file_path@,
            width,
            height,
            pixel_format@,
            match frame_rate {
                Some(r) => Some(r@),
                None => None,
            },
            match crop {
                Some(c) => Some(*c),
                None => None,
            },
        ),
{
    let mut cmd = ffmpeg_new();
    proof {
        reveal_strlit("-framerate");
        reveal_strlit("-use_wallclock_as_timestamps");
        reveal_strlit("1");
        assert(no_nul("-framerate"@) && no_nul("-use_wallclock_as_timestamps"@) && no_nul("1"@));
    }
    match frame_rate {
        Some(rate) => ffmpeg_args_add(&mut cmd, &["-framerate", rate]),
        None => ffmpeg_args_add(&mut cmd, &["-use_wallclock_as_timestamps", "1"]),
    }
    proof {
        reveal_strlit("rawvideo");
        assert(no_nul("rawvideo"@));
    }
    ffmpeg_format(&mut cmd, "rawvideo");
    ffmpeg_pix_fmt(&mut cmd, pixel_format);
    ffmpeg_size(&mut cmd, width, height);
    proof {
        reveal_strlit("-");
        assert(no_nul("-"@));
    }
    ffmpeg_input(&mut cmd, "-");
    match crop {
        Some(c) => {
            let filter = c.to_filter();
            proof {
                reveal_strlit("-vf");
                assert(no_nul("-vf"@));
            }
            ffmpeg_args_add(&mut cmd, &["-vf", filter.as_str()]);
        },
        None => {},
    }
    proof {
        reveal_strlit("libx264");
        assert(no_nul("libx264"@));
    }
    ffmpeg_codec_video(&mut cmd, "libx264");
    ffmpeg_crf(&mut cmd, 20);
    ffmpeg_output(&mut cmd, file_path);
    proof {
        reveal_with_fuel(decimal, 3);
    }
    assert(ffmpeg_args(cmd) =~= frame_writer_args(
        file_path@,
        width,
        height,
        pixel_format@,
        match frame_rate {
            Some(r) => Some(r@),
            None => None,
        },
        match crop {
            Some(c) => Some(*c),
            None => None,
        },
    ));
    cmd
}

// ----------------------------------------------------------------------------
// Audio writer
// ----------------------------------------------------------------------------

/// Arguments of an audio writer: signed 16 bit little endian samples on
/// standard input, stored as PCM in `file_path`.
pub open spec fn audio_args(file_path: Seq<char>, sample_rate: u32, channels: u16) -> Seq<Seq<char>> {
    initial_args() + seq![
        "-f"@,
        "s16le"@,
        "-ar"@,
        decimal(sample_rate as nat),
        "-ac"@,
        decimal(channels as nat),
        "-i"@,
        "-"@,
        "-c:a"@,
        "pcm_s16le"@,
        file_path,
    ]
}

/// The command of an audio writer (see [`audio_args`]).
pub fn audio_command(file_path: &str, sample_rate: u32, channels: u16) -> (cmd: FfmpegCommand)
    requires
        no_nul(file_path@),
    ensures
        ffmpeg_args(cmd) == audio_args(file_path@, sample_rate, channels),
{
    let mut cmd = ffmpeg_new();
    proof {
        reveal_strlit("s16le");
        assert(no_nul("s16le"@));
    }
    ffmpeg_format(&mut cmd, "s16le");
    let rate = u64_to_decimal(sample_rate as u64);
    proof {
        lemma_decimal_no_nul(sample_rate as nat);
        lemma_decimal_no_nul(channels as nat);
        reveal_strlit("-ar");
        assert(no_nul("-ar"@));
    }
    ffmpeg_args_add(&mut cmd, &["-ar", rate.as_str()]);
    let ch = u64_to_decimal(channels as u64);
    proof {
        reveal_strlit("-ac");
        assert(no_nul("-ac"@));
    }
    ffmpeg_args_add(&mut cmd, &["-ac", ch.as_str()]);
    proof {
        reveal_strlit("-");
        assert(no_nul("-"@));
    }
    ffmpeg_input(&mut cmd, "-");
    proof {
        reveal_strlit("pcm_s16le");
        assert(no_nul("pcm_s16le"@));
    }
    ffmpeg_codec_audio(&mut cmd, "pcm_s16le");
    ffmpeg_output(&mut cmd, file_path);
    assert(ffmpeg_args(cmd) =~= audio_args(file_path@, sample_rate, channels));
    cmd
}

// ----------------------------------------------------------------------------
// Joining segments
// ----------------------------------------------------------------------------

/// One line of a concat list: `file '{path}'`.
pub open spec fn segment_line(path: Seq<char>) -> Seq<char> {
    "file '"@ + path + "'\n"@
}

/// The concat list naming each segment on a line of its own, in order.
pub open spec fn segment_list(paths: Seq<String>) -> Seq<char>
    decreases paths.len(),
{
    if paths.len() == 0 {
        Seq::empty()
    } else {
        segment_list(paths.drop_last()) + segment_line(paths.last()@)
    }
}

/// Text of the concat list for `paths`.
pub fn segment_list_contents(paths: &Vec<String>) -> (text: String)
    ensures
        text@ == segment_list(paths@),
{
    let mut text = String::new();
    let open = str_to_chars("file '");
    let close = str_to_chars("'\n");
    let mut i: usize = 0;
    assert(paths@.take(0) =~= Seq::<String>::empty());
    while i < paths.len()
        invariant
            i <= paths.len(),
            open@ == "file '"@,
            close@ == "'\n"@,
            text@ == segment_list(paths@.take(i as int)),
        decreases paths.len() - i,
    {
        push_chars(&mut text, &open);
        push_chars(&mut text, &str_to_chars(paths[i].as_str()));
        push_chars(&mut text, &close);
        i = i + 1;
        assert(paths@.take(i as int).drop_last() =~= paths@.take(i - 1));
        assert(text@ =~= segment_list(paths@.take(i as int)));
    }
    assert(paths@.take(paths.len() as int) =~= paths@);
    text
}

/// Where the concat list of a recording goes: `video-segments_{uuid}.txt`
/// inside the recording directory.
pub fn segment_list_path(recording_dir: &str) -> (p: String)
    ensures
        exists|u: Seq<char>|
            is_hyphenated_uuid(u) && p@ == path_join(recording_dir@, "video-segments_"@ + u + ".txt"@),
{
    let uuid = new_uuid_v4();
    let mut name = chars_to_string(&str_to_chars("video-segments_"));
    push_chars(&mut name, &str_to_chars(uuid.as_str()));
    push_chars(&mut name, &str_to_chars(".txt"));
    let p = join_path(recording_dir, name.as_str());
    assert(is_hyphenated_uuid(uuid@) && p@ == path_join(recording_dir@, "video-segments_"@ + uuid@ + ".txt"@));
    p
}

/// Arguments that join the segments named in `list_path` into
/// `output_path` without re-encoding.
pub open spec fn concat_args(list_path: Seq<char>, output_path: Seq<char>) -> Seq<Seq<char>> {
    initial_args() + seq!["-f"@, "concat"@, "-safe"@, "0"@, "-i"@, list_path, "-c"@, "copy"@, output_path]
}

/// The command that joins recorded segments (see [`concat_args`]).
pub fn concat_command(list_path: &str, output_path: &str) -> (cmd: FfmpegCommand)
    requires
        no_nul(list_path@),
        no_nul(output_path@),
    ensures
        ffmpeg_args(cmd) == concat_args(list_path@, output_path@),
{
    let mut cmd = ffmpeg_new();
    proof {
        reveal_strlit("concat");
        assert(no_nul("concat"@));
    }
    ffmpeg_format(&mut cmd, "concat");
    proof {
        reveal_strlit("-safe");
        reveal_strlit("0");
        assert(no_nul("-safe"@) && no_nul("0"@));
    }
    ffmpeg_args_add(&mut cmd, &["-safe", "0"]);
    ffmpeg_input(&mut cmd, list_path);
    proof {
        reveal_strlit("-c");
        reveal_strlit("copy");
        assert(no_nul("-c"@) && no_nul("copy"@));
    }
    ffmpeg_args_add(&mut cmd, &["-c", "copy"]);
    ffmpeg_output(&mut cmd, output_path);
    assert(ffmpeg_args(cmd) =~= concat_args(list_path@, output_path@));
    cmd
}

// ----------------------------------------------------------------------------
// Hardware encoders
// ----------------------------------------------------------------------------

/// Hardware encoders in order of preference: NVIDIA, then Intel QSV, then AMD AMF.
pub open spec fn preferred_encoders() -> Seq<Seq<char>> {
    seq!["h264_nvenc"@, "hevc_nvenc"@, "h264_qsv"@, "hevc_qsv"@, "h264_amf"@, "hevc_amf"@]
}

/// The first preferred encoder that `listing` mentions, from index `i` on.
pub open spec fn first_listed_encoder(listing: Seq<char>, i: nat) -> Option<Seq<char>>
    decreases 6 - i,
{
    if i >= 6 {
        None
    } else if contains_seq(listing, preferred_encoders()[i as int]) {
        Some(preferred_encoders()[i as int])
    } else {
        first_listed_encoder(listing, i + 1)
    }
}

/// The encoder to use given the output of `ffmpeg -encoders` (`None` when
/// it could not be run): the first preferred hardware encoder it lists,
/// else the software encoder `libx264`.
pub open spec fn chosen_encoder(listing: Option<Seq<char>>) -> Seq<char> {
    match listing {
        Some(l) => match first_listed_encoder(l, 0) {
            Some(e) => e,
            None => "libx264"@,
        },
        None => "libx264"@,
    }
}

/// Picks the video encoder from the encoder listing (see [`chosen_encoder`]).
pub fn choose_hardware_encoder(listing: Option<&str>) -> (e: String)
    ensures
        e@ == chosen_encoder(
            match listing {
                Some(l) => Some(l@),
                None => None,
            },
        ),
{
    if let Some(l) = listing {
        let text = str_to_chars(l);
        let candidates: [&str; 6] = ["h264_nvenc", "hevc_nvenc", "h264_qsv", "hevc_qsv", "h264_amf", "hevc_amf"];
        let mut i: usize = 0;
        while i < 6
            invariant
                i <= 6,
                listing == Some(l),
                text@ == l@,
                candidates@.map_values(|c: &str| c@) == preferred_encoders(),
                first_listed_encoder(l@, 0) == first_listed_encoder(l@, i as nat),
            decreases 6 - i,
        {
            let candidate = str_to_chars(candidates[i]);
            assert(candidate@ == preferred_encoders()[i as int]);
            if contains_chars(&text, &candidate) {
                assert(first_listed_encoder(l@, i as nat) == Some(preferred_encoders()[i as int]));
                assert(chosen_encoder(Some(l@)) == candidate@);
                let e = chars_to_string(&candidate);
                return e;
            }
            i = i + 1;
        }
    }
    chars_to_string(&str_to_chars("libx264"))
}

} // verus!
