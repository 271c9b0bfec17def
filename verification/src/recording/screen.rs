//! Screen frames: packing captured planes into the layout the encoder
//! reads, and repeating the last frame when the capture has none.
use vstd::prelude::*;

verus! {

/// `count` rows of `width` bytes, the row `r` starting at `r * stride`.
pub open spec fn packed_rows(data: Seq<u8>, stride: nat, width: nat, count: nat) -> Seq<u8>
    decreases count,
{
    if count == 0 {
        Seq::empty()
    } else {
        let start = ((count - 1) * stride) as int;
        packed_rows(data, stride, width, (count - 1) as nat) + data.subrange(start, start + width)
    }
}

/// Every row lies inside `data`.
pub open spec fn rows_fit(data_len: nat, stride: nat, width: nat, count: nat) -> bool {
    count == 0 || (count - 1) * stride + width <= data_len
}

/// An NV12 frame without row padding: `height` rows of luminance, then
/// `height / 2` rows of interleaved chrominance, each `width` bytes.
pub open spec fn packed_nv12(
    width: nat,
    height: nat,
    luminance: Seq<u8>,
    luminance_stride: nat,
    chrominance: Seq<u8>,
    chrominance_stride: nat,
) -> Seq<u8> {
    packed_rows(luminance, luminance_stride, width, height) + packed_rows(
        chrominance,
        chrominance_stride,
        width,
        height / 2,
    )
}

pub proof fn lemma_packed_rows_len(data: Seq<u8>, stride: nat, width: nat, count: nat)
    requires
        rows_fit(data.len(), stride, width, count),
    ensures
        packed_rows(data, stride, width, count).len() == count * width,
    decreases count,
{
    if count > 0 {
        if count > 1 {
            assert((count - 2) * stride + width <= (count - 1) * stride + width) by (nonlinear_arith)
                requires
                    count >= 2,
            ;
        }
        lemma_packed_rows_len(data, stride, width, (count - 1) as nat);
        let start = ((count - 1) * stride) as int;
        assert(start + width <= data.len());
        assert(data.subrange(start, start + width).len() == width);
        assert(packed_rows(data, stride, width, count) == packed_rows(data, stride, width, (count - 1) as nat)
            + data.subrange(start, start + width));
        assert(count * width == (count - 1) * width + width) by (nonlinear_arith)
            requires
                count > 0,
        ;
    } else {
        assert(count * width == 0) by (nonlinear_arith)
            requires
                count == 0,
        ;
    }
}

/// Appends `count` rows of `width` bytes from `data` to `out`.
fn append_rows(out: &mut Vec<u8>, data: &[u8], stride: usize, width: usize, count: usize)
    requires
        rows_fit(data@.len(), stride as nat, width as nat, count as nat),
    ensures
        final(out)@ == old(out)@ + packed_rows(data@, stride as nat, width as nat, count as nat),
{
    let ghost start = out@;
    let n = data.len();
    let mut row: usize = 0;
    while row < count
        invariant
            row <= count,
            n == data@.len(),
            rows_fit(data@.len(), stride as nat, width as nat, count as nat),
            out@ == start + packed_rows(data@, stride as nat, width as nat, row as nat),
        decreases count - row,
    {
        proof {
            assert(row * stride + width <= (count - 1) * stride + width) by (nonlinear_arith)
                requires
                    row < count,
            ;
        }
        let row_start = row * stride;
        let mut i: usize = 0;
        let ghost before = out@;
        while i < width
            invariant
                i <= width,
                n == data@.len(),
                row_start + width <= data@.len(),
                out@ == before + data@.subrange(row_start as int, row_start + i),
            decreases width - i,
        {
            out.push(data[row_start + i]);
            i = i + 1;
            assert(out@ =~= before + data@.subrange(row_start as int, row_start + i));
        }
        row = row + 1;
        assert(out@ =~= start + packed_rows(data@, stride as nat, width as nat, row as nat));
    }
}

/// Packs the planes of an NV12 frame (see [`packed_nv12`]); every row must
/// lie inside its plane.
pub fn pack_nv12_frame(
    width: usize,
    height: usize,
    luminance: &[u8],
    luminance_stride: usize,
    chrominance: &[u8],
    chrominance_stride: usize,
) -> (buffer: Vec<u8>)
    requires
        rows_fit(luminance@.len(), luminance_stride as nat, width as nat, height as nat),
        rows_fit(chrominance@.len(), chrominance_stride as nat, width as nat, (height / 2) as nat),
    ensures
        buffer@ == packed_nv12(
            width as nat,
            height as nat,
            luminance@,
            luminance_stride as nat,
            chrominance@,
            chrominance_stride as nat,
        ),
        buffer@.len() == width * height + width * (height / 2),
{
    let mut buffer: Vec<u8> = Vec::new();
    append_rows(&mut buffer, luminance, luminance_stride, width, height);
    append_rows(&mut buffer, chrominance, chrominance_stride, width, height / 2);
    proof {
        lemma_packed_rows_len(luminance@, luminance_stride as nat, width as nat, height as nat);
        lemma_packed_rows_len(chrominance@, chrominance_stride as nat, width as nat, (height / 2) as nat);
        assert(buffer@ =~= packed_nv12(
            width as nat,
            height as nat,
            luminance@,
            luminance_stride as nat,
            chrominance@,
            chrominance_stride as nat,
        ));
        assert(width * height == height * width) by (nonlinear_arith);
        assert(width * (height / 2) == (height / 2) * width) by (nonlinear_arith);
    }
    buffer
}

/// The buffer to write for a capture attempt: a new frame is written and
/// becomes the cached one; without a new frame the cached frame is written
/// again (or nothing, before the first frame).
pub fn next_frame_buffer(frame: Option<Vec<u8>>, cached: &mut Option<Vec<u8>>) -> (buffer: Option<Vec<u8>>)
    ensures
        match frame {
            Some(f) => {
                &&& buffer matches Some(b) && b@ == f@
                &&& *final(cached) matches Some(c) && c@ == f@
            },
            None => {
                &&& *final(cached) == *old(cached)
                &&& match *old(cached) {
                    Some(c) => buffer matches Some(b) && b@ == c@,
                    None => buffer is None,
                }
            },
        },
{
    match frame {
        Some(f) => {
            *cached = Some(f.clone());
            Some(f)
        },
        None => match cached {
            Some(c) => Some(c.clone()),
            None => None,
        },
    }
}

} // verus!
