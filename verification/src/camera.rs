//! Cameras: how their frames are described to FFmpeg, converted for the
//! live preview, and let through while recording.
use vstd::prelude::*;

use crate::recording::ffmpeg::FfmpegInputDetails;
use crate::text::str_eq;

verus! {

/// A camera as the user picks it: the index the system lists it under,
/// and its name.
#[derive(Debug, Clone)]
pub struct CameraDetails {
    pub index: String,
    pub name: String,
}

/// Position of the first device called `name` among the devices the
/// system lists, by their names; `None` when no device has that name.
pub fn find_device(names: &Vec<String>, name: &str) -> (i: Option<usize>)
    ensures
        match i {
            Some(k) => k < names.len() && names@[k as int]@ == name@ && forall|j: int|
                0 <= j < k ==> #[trigger] names@[j]@ != name@,
            None => forall|j: int| 0 <= j < names.len() ==> #[trigger] names@[j]@ != name@,
        },
{
    let mut k: usize = 0;
    while k < names.len()
        invariant
            k <= names.len(),
            forall|j: int| 0 <= j < k ==> #[trigger] names@[j]@ != name@,
        decreases names.len() - k,
    {
        if str_eq(names[k].as_str(), name) {
            return Some(k);
        }
        k = k + 1;
    }
    None
}

/// The pixel layouts a camera delivers frames in.
#[derive(Debug, Clone, Copy, PartialEq, Eq, Structural)]
pub enum CameraFrameFormat {
    Mjpeg,
    Yuyv,
    Nv12,
    Gray,
    RawRgb,
    RawBgr,
}

/// FFmpeg's name of each layout.
pub open spec fn ffmpeg_pixel_format_name(f: CameraFrameFormat) -> Seq<char> {
    match f {
        CameraFrameFormat::Mjpeg => "mjpeg"@,
        CameraFrameFormat::Yuyv => "yuyv422"@,
        CameraFrameFormat::Nv12 => "nv12"@,
        CameraFrameFormat::Gray => "gray"@,
        CameraFrameFormat::RawRgb => "rgb24"@,
        CameraFrameFormat::RawBgr => "bgr24"@,
    }
}

/// FFmpeg's name of a camera frame layout.
pub fn camera_frame_format_to_ffmpeg(frame_format: CameraFrameFormat) -> (s: &'static str)
    ensures
        s@ == ffmpeg_pixel_format_name(frame_format),
{
    match frame_format {
        CameraFrameFormat::Mjpeg => "mjpeg",
        CameraFrameFormat::Yuyv => "yuyv422",
        CameraFrameFormat::Nv12 => "nv12",
        CameraFrameFormat::Gray => "gray",
        CameraFrameFormat::RawRgb => "rgb24",
        CameraFrameFormat::RawBgr => "bgr24",
    }
}

/// The layout in which recorded frames reach FFmpeg: MJPEG frames are
/// decoded to RGB first, everything else is taken as YUYV.
pub open spec fn recorded_layout(source: CameraFrameFormat) -> CameraFrameFormat {
    if source == CameraFrameFormat::Mjpeg {
        CameraFrameFormat::RawRgb
    } else {
        CameraFrameFormat::Yuyv
    }
}

/// How the camera's recording writer is told about its input: the
/// camera's resolution, the layout of [`recorded_layout`], no crop and no
/// change of frame rate.
pub fn camera_input_details(width: u32, height: u32, source: CameraFrameFormat) -> (d:
    FfmpegInputDetails)
    ensures
        d.width == width,
        d.height == height,
        d.pixel_format@ == ffmpeg_pixel_format_name(recorded_layout(source)),
        d.crop is None,
        d.output_frame_rate is None,
{
    let layout = if source == CameraFrameFormat::Mjpeg {
        CameraFrameFormat::RawRgb
    } else {
        CameraFrameFormat::Yuyv
    };
    let name = camera_frame_format_to_ffmpeg(layout);
    FfmpegInputDetails {
        width,
        height,
        pixel_format: name.to_string(),
        crop: None,
        output_frame_rate: None,
    }
}

// ----------------------------------------------------------------------------
// Frames for the live preview
// ----------------------------------------------------------------------------

/// The range of YUV values a camera delivers.
#[derive(Debug, Clone, Copy, PartialEq, Eq, Structural)]
pub enum ColorRange {
    Limited,
    Full,
}

/// The matrix by which YUV values map to RGB.
#[derive(Debug, Clone, Copy, PartialEq, Eq, Structural)]
pub enum ColorMatrix {
    Bt601,
    Bt709,
}

/// Holds of `rgba` when `yuv::yuyv422_to_rgba` can give it for the packed
/// YUYV row `row` of `width` pixels with the given range and matrix. Which
/// bytes it gives depends on the processor (the library picks its code
/// path by the processor's features, and the paths round differently), so
/// this relates a row to its possible conversions rather than naming one.
pub uninterp spec fn yuyv_converts_to(
    row: Seq<u8>,
    width: u32,
    range: ColorRange,
    matrix: ColorMatrix,
    rgba: Seq<u8>,
) -> bool;

/// Converts one row of packed YUYV into the RGBA row `rgba` with
/// `yuv::yuyv422_to_rgba`; `true` when the library accepted the row.
///
/// Trusted: the library checks the sizes before it writes
/// (`check_yuv_packed422`, `check_rgba_destination`), so a refused row is
/// left as it was. It refuses an odd width, for which it asks a row longer
/// than `2 * width` bytes, and accepts an even one whose sizes fit its
/// pointer arithmetic (always so when `4 * width` fits in an `i32`). An
/// accepted row holds one of the row's conversions (see
/// [`yuyv_converts_to`]); which one is not claimed.
#[verifier::external_body]
fn convert_yuyv_row(
    row: &[u8],
    width: u32,
    yuy_stride: u32,
    rgba: &mut Vec<u8>,
    rgba_stride: u32,
    range: ColorRange,
    matrix: ColorMatrix,
) -> (ok: bool)
    requires
        0 < width,
        yuy_stride == 2 * width,
        rgba_stride == 4 * width,
        row@.len() == yuy_stride,
        old(rgba)@.len() == rgba_stride,
    ensures
        final(rgba)@.len() == old(rgba)@.len(),
        !ok ==> final(rgba)@ == old(rgba)@,
        ok ==> width % 2 == 0 && yuyv_converts_to(row@, width, range, matrix, final(rgba)@),
        width % 2 == 0 && 4 * width <= i32::MAX ==> ok,
{
    let range = match range {
        ColorRange::Limited => yuv::YuvRange::Limited,
        ColorRange::Full => yuv::YuvRange::Full,
    };
    let matrix = match matrix {
        ColorMatrix::Bt601 => yuv::YuvStandardMatrix::Bt601,
        ColorMatrix::Bt709 => yuv::YuvStandardMatrix::Bt709,
    };
    let image = yuv::YuvPackedImage { yuy: row, yuy_stride, width, height: 1 };
    yuv::yuyv422_to_rgba(&image, rgba.as_mut_slice(), rgba_stride, range, matrix).is_ok()
}

/// Row `r` of an image whose rows are `len` bytes long.
pub open spec fn image_row(image: Seq<u8>, len: nat, r: int) -> Seq<u8> {
    image.subrange(r * len, r * len + len)
}

/// Every byte of `s` is 0.
pub open spec fn all_zero(s: Seq<u8>) -> bool {
    forall|i: int| 0 <= i < s.len() ==> #[trigger] s[i] == 0
}

/// Row `r` of the RGBA image `rgba` as the preview converts it from the
/// YUYV image `buffer` (full range, BT.601): a conversion of input row `r`
/// when the library accepted it, otherwise zeros; zeros for an odd width,
/// and a conversion for an even width whose sizes the library takes.
pub open spec fn preview_row(buffer: Seq<u8>, width: u32, rgba: Seq<u8>, r: int) -> bool {
    let input = image_row(buffer, 2 * width as nat, r);
    let output = image_row(rgba, 4 * width as nat, r);
    &&& yuyv_converts_to(input, width, ColorRange::Full, ColorMatrix::Bt601, output) || all_zero(output)
    &&& width % 2 == 1 ==> all_zero(output)
    &&& width % 2 == 0 && 4 * width <= i32::MAX ==> yuyv_converts_to(
        input,
        width,
        ColorRange::Full,
        ColorMatrix::Bt601,
        output,
    )
}

/// `n` zero bytes.
fn zeroed(n: usize) -> (v: Vec<u8>)
    ensures
        v@ == Seq::new(n as nat, |i: int| 0u8),
{
    let mut v: Vec<u8> = Vec::new();
    let mut i: usize = 0;
    while i < n
        invariant
            i <= n,
            v@ == Seq::new(i as nat, |j: int| 0u8),
        decreases n - i,
    {
        v.push(0);
        i = i + 1;
        assert(v@ =~= Seq::new(i as nat, |j: int| 0u8));
    }
    v
}

/// Converts a packed YUYV frame to RGBA row by row, in full range with the
/// BT.601 matrix: `4 * width` bytes for each of the `height` rows, row `r`
/// of the result coming from row `r` of the frame (see [`preview_row`]).
/// An odd width, which the library refuses, gives an image of zeros.
pub fn yuyv_to_rgba(buffer: &[u8], width: u32, height: u32) -> (rgba: Vec<u8>)
    requires
        0 < width,
        4 * width <= u32::MAX,
        width * height * 4 <= u32::MAX,
        buffer@.len() >= width * height * 2,
    ensures
        rgba@.len() == width * height * 4,
        forall|r: int| 0 <= r < height ==> #[trigger] preview_row(buffer@, width, rgba@, r),
        width % 2 == 1 ==> all_zero(rgba@),
{
    let stride: usize = width as usize * 2;
    let row_len: usize = width as usize * 4;
    let mut rgba: Vec<u8> = Vec::new();
    let mut row: u32 = 0;
    let mut offset: usize = 0;
    while row < height
        invariant
            0 < width,
            4 * width <= u32::MAX,
            width * height * 4 <= u32::MAX,
            buffer@.len() >= width * height * 2,
            row <= height,
            stride == 2 * width,
            row_len == 4 * width,
            offset == row * (2 * width),
            rgba@.len() == row * (4 * width),
            forall|r: int| 0 <= r < row ==> #[trigger] preview_row(buffer@, width, rgba@, r),
            width % 2 == 1 ==> all_zero(rgba@),
        decreases height - row,
    {
        proof {
            assert((row + 1) * (2 * width) <= height * (2 * width)) by (nonlinear_arith)
                requires
                    row < height,
                    0 < width;
            assert(height * (2 * width) == width * height * 2) by (nonlinear_arith);
            assert((row + 1) * (2 * width) == row * (2 * width) + 2 * width) by (nonlinear_arith);
            assert((row + 1) * (4 * width) == row * (4 * width) + 4 * width) by (nonlinear_arith);
        }
        let line = vstd::slice::slice_subrange(buffer, offset, offset + stride);
        let mut converted = zeroed(row_len);
        let ghost before = rgba@;
        let ghost zeros = converted@;
        let ok = convert_yuyv_row(
            line,
            width,
            width * 2,
            &mut converted,
            width * 4,
            ColorRange::Full,
            ColorMatrix::Bt601,
        );
        let ghost conv = converted@;
        rgba.append(&mut converted);
        proof {
            let rl = 4 * width as nat;
            assert(rgba@ =~= before + conv);
            assert(!ok ==> all_zero(conv));
            assert forall|r: int| 0 <= r <= row implies #[trigger] preview_row(buffer@, width, rgba@, r) by {
                if r < row {
                    assert(r * rl + rl <= (row as int) * rl) by (nonlinear_arith)
                        requires
                            r < row,
                            0 <= r;
                    assert(r * rl >= 0) by (nonlinear_arith)
                        requires
                            0 <= r;
                    assert(image_row(rgba@, rl, r) =~= image_row(before, rl, r));
                    assert(preview_row(buffer@, width, before, r));
                } else {
                    assert(image_row(rgba@, rl, r) =~= conv);
                    assert(image_row(buffer@, 2 * width as nat, r) =~= line@);
                }
            }
            if width % 2 == 1 {
                assert forall|i: int| 0 <= i < rgba@.len() implies #[trigger] rgba@[i] == 0 by {
                    if i >= before.len() {
                        assert(rgba@[i] == conv[i - before.len()]);
                    } else {
                        assert(rgba@[i] == before[i]);
                    }
                }
            }
        }
        offset = offset + stride;
        row = row + 1;
    }
    proof {
        assert(height * (4 * width) == width * height * 4) by (nonlinear_arith);
    }
    rgba
}

/// The bytes of a frame for the live preview: YUYV frames converted to
/// RGBA (see [`yuyv_to_rgba`]), any other layout passed on as it came.
pub fn frame_to_rgba(format: CameraFrameFormat, buffer: &[u8], width: u32, height: u32) -> (rgba: Vec<u8>)
    requires
        format == CameraFrameFormat::Yuyv ==> {
            &&& 0 < width
            &&& 4 * width <= u32::MAX
            &&& width * height * 4 <= u32::MAX
            &&& buffer@.len() >= width * height * 2
        },
    ensures
        format != CameraFrameFormat::Yuyv ==> rgba@ == buffer@,
        format == CameraFrameFormat::Yuyv ==> rgba@.len() == width * height * 4,
        format == CameraFrameFormat::Yuyv ==> forall|r: int|
            0 <= r < height ==> #[trigger] preview_row(buffer@, width, rgba@, r),
        format == CameraFrameFormat::Yuyv && width % 2 == 1 ==> all_zero(rgba@),
{
    if format == CameraFrameFormat::Yuyv {
        yuyv_to_rgba(buffer, width, height)
    } else {
        let mut out: Vec<u8> = Vec::new();
        let mut i: usize = 0;
        while i < buffer.len()
            invariant
                i <= buffer@.len(),
                out@ == buffer@.take(i as int),
            decreases buffer@.len() - i,
        {
            out.push(buffer[i]);
            i = i + 1;
            assert(out@ =~= buffer@.take(i as int));
        }
        assert(buffer@.take(buffer@.len() as int) =~= buffer@);
        out
    }
}

/// The four bytes of `x`, least significant first.
pub open spec fn le_bytes(x: u32) -> Seq<u8> {
    seq![
        (x % 256) as u8,
        ((x / 256) % 256) as u8,
        ((x / 65536) % 256) as u8,
        (x / 16777216) as u8,
    ]
}

fn push_le_bytes(out: &mut Vec<u8>, x: u32)
    ensures
        final(out)@ == old(out)@ + le_bytes(x),
{
    out.push((x % 256) as u8);
    out.push(((x / 256) % 256) as u8);
    out.push(((x / 65536) % 256) as u8);
    out.push((x / 16777216) as u8);
    assert(final(out)@ =~= old(out)@ + le_bytes(x));
}

/// What the preview channel is sent for one frame: its width and height,
/// four little-endian bytes each, then its RGBA bytes; this spares the
/// frame any other encoding.
pub fn frame_packet(width: u32, height: u32, rgba: Vec<u8>) -> (packet: Vec<u8>)
    ensures
        packet@ == le_bytes(width) + le_bytes(height) + rgba@,
{
    let mut packet: Vec<u8> = Vec::new();
    push_le_bytes(&mut packet, width);
    push_le_bytes(&mut packet, height);
    let ghost bytes = rgba@;
    let mut rgba = rgba;
    packet.append(&mut rgba);
    assert(packet@ =~= le_bytes(width) + le_bytes(height) + bytes);
    packet
}

// ----------------------------------------------------------------------------
// Frames while recording
// ----------------------------------------------------------------------------

/// How many frames a camera delivers at start that are dropped: they are
/// often black or flash in colour.
pub const STARTUP_FRAMES_SKIPPED: usize = 4;

/// What the recording camera's frame callback remembers between frames:
/// how many startup frames it dropped, and whether it has told the other
/// streams that it is ready.
#[derive(Debug, Clone, Copy, PartialEq, Eq, Structural)]
pub struct StartupFrameSkipper {
    pub skipped: usize,
    pub ready: bool,
}

/// What becomes of one frame at start-up.
#[derive(Debug, Clone, Copy, PartialEq, Eq, Structural)]
pub enum FrameStep {
    /// A startup frame: dropped.
    Discard,
    /// A frame that may be recorded; the first of them first tells the
    /// other streams that the camera is ready, and waits for them.
    Proceed { signal_ready: bool },
}

/// The skipper after one frame, and what becomes of that frame.
pub open spec fn skipper_next(g: StartupFrameSkipper) -> (StartupFrameSkipper, FrameStep) {
    if g.skipped < STARTUP_FRAMES_SKIPPED {
        (StartupFrameSkipper { skipped: (g.skipped + 1) as usize, ready: g.ready }, FrameStep::Discard)
    } else {
        (StartupFrameSkipper { skipped: g.skipped, ready: true }, FrameStep::Proceed { signal_ready: !g.ready })
    }
}

/// The skipper after `n` frames, and what became of each.
pub open spec fn skipper_run(g: StartupFrameSkipper, n: nat) -> (StartupFrameSkipper, Seq<FrameStep>)
    decreases n,
{
    if n == 0 {
        (g, Seq::empty())
    } else {
        let (before, steps) = skipper_run(g, (n - 1) as nat);
        let (after, step) = skipper_next(before);
        (after, steps.push(step))
    }
}

impl StartupFrameSkipper {
    /// A skipper that has seen no frame.
    pub fn new() -> (g: StartupFrameSkipper)
        ensures
            g == (StartupFrameSkipper { skipped: 0, ready: false }),
    {
        StartupFrameSkipper { skipped: 0, ready: false }
    }

    /// Lets one frame past the skipper (see [`skipper_next`]).
    pub fn on_frame(&mut self) -> (step: FrameStep)
        ensures
            (*final(self), step) == skipper_next(*old(self)),
    {
        if self.skipped < STARTUP_FRAMES_SKIPPED {
            self.skipped = self.skipped + 1;
            FrameStep::Discard
        } else {
            let signal_ready = !self.ready;
            self.ready = true;
            FrameStep::Proceed { signal_ready }
        }
    }
}

/// Of the frames a new skipper sees, the first four are dropped, the fifth
/// signals readiness, and every later one is let through without
/// signalling again.
pub proof fn law_camera_startup_frames(n: nat)
    ensures
        ({
            let steps = skipper_run(StartupFrameSkipper { skipped: 0, ready: false }, n).1;
            &&& steps.len() == n
            &&& forall|i: int| 0 <= i < n && i < 4 ==> #[trigger] steps[i] == FrameStep::Discard
            &&& n > 4 ==> steps[4] == (FrameStep::Proceed { signal_ready: true })
            &&& forall|i: int| 4 < i < n ==> #[trigger] steps[i] == (FrameStep::Proceed { signal_ready: false })
        }),
        ({
            let g = skipper_run(StartupFrameSkipper { skipped: 0, ready: false }, n).0;
            &&& n <= 4 ==> g == (StartupFrameSkipper { skipped: n as usize, ready: false })
            &&& n > 4 ==> g == (StartupFrameSkipper { skipped: 4, ready: true })
        }),
    decreases n,
{
    if n > 0 {
        law_camera_startup_frames((n - 1) as nat);
    }
}

/// What the recording writer does with a frame let through at start-up.
#[derive(Debug, Clone, Copy, PartialEq, Eq, Structural)]
pub enum FrameWrite {
    /// Nothing: the recording is paused or its writer is gone.
    Skip,
    /// The frame's bytes as they came.
    Raw,
    /// The frame decoded from MJPEG to RGB.
    DecodedMjpeg,
}

/// What is written for a frame: nothing while the streams must not write or
/// when there is no writer; MJPEG frames decoded to RGB; others as they are.
pub fn frame_write_action(should_write: bool, has_writer: bool, format: CameraFrameFormat) -> (w:
    FrameWrite)
    ensures
        w == (if !should_write || !has_writer {
            FrameWrite::Skip
        } else if format == CameraFrameFormat::Mjpeg {
            FrameWrite::DecodedMjpeg
        } else {
            FrameWrite::Raw
        }),
{
    if !should_write || !has_writer {
        FrameWrite::Skip
    } else if format == CameraFrameFormat::Mjpeg {
        FrameWrite::DecodedMjpeg
    } else {
        FrameWrite::Raw
    }
}

} // verus!
