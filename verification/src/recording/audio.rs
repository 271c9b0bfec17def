//! Audio recording: the tail buffer that keeps a start offset from
//! lengthening the recording.
use vstd::prelude::*;

use std::collections::VecDeque;

verus! {

broadcast use vstd::std_specs::vecdeque::group_vec_dequeue_axioms;

/// How many bytes a push writes out of a buffer that held `len` bytes and
/// has room for `capacity`, when `incoming` bytes arrive: all but the last
/// `capacity` of them.
pub open spec fn evicted_count(len: nat, incoming: nat, capacity: nat) -> nat {
    if len + incoming > capacity {
        (len + incoming - capacity) as nat
    } else {
        0
    }
}

/// One push into a tail buffer that holds `held` and has room for
/// `capacity`: what it writes out (all but the last `capacity` bytes of
/// `held` followed by `bytes`, in order) and what it then holds.
pub open spec fn tail_step(capacity: nat, held: Seq<u8>, bytes: Seq<u8>) -> (Seq<u8>, Seq<u8>) {
    let all = held + bytes;
    let k = evicted_count(held.len(), bytes.len(), capacity) as int;
    (all.take(k), all.skip(k))
}

/// What a tail buffer made with room for `capacity` has written, and what
/// it holds, after the given pushes.
pub open spec fn tail_run(capacity: nat, chunks: Seq<Seq<u8>>) -> (Seq<u8>, Seq<u8>)
    decreases chunks.len(),
{
    if chunks.len() == 0 {
        (Seq::empty(), Seq::empty())
    } else {
        let (written, held) = tail_run(capacity, chunks.drop_last());
        let (out, rest) = tail_step(capacity, held, chunks.last());
        (written + out, rest)
    }
}

/// Holds back the last `capacity` bytes of a stream.
///
/// When silence is written in front of a recording to line it up with the
/// other streams, the same number of bytes is held back at its end, so the
/// recording keeps its length. Without an offset nothing is held back.
pub struct TailBuffer {
    buffer: VecDeque<u8>,
    capacity: usize,
}

impl TailBuffer {
    /// The bytes held back, oldest first.
    pub closed spec fn contents(&self) -> Seq<u8> {
        self.buffer@
    }

    pub closed spec fn capacity(&self) -> nat {
        self.capacity as nat
    }

    pub fn new(capacity: usize) -> (t: Self)
        ensures
            t.contents() == Seq::<u8>::empty(),
            t.capacity() == capacity,
    {
        TailBuffer { buffer: VecDeque::with_capacity(capacity), capacity }
    }

    /// Adds `bytes` at the end and writes to `writer`, in order, every byte
    /// held or added except the last `capacity` of them (see [`tail_step`]).
    pub fn push_and_write(&mut self, bytes: &[u8], writer: &mut Vec<u8>)
        ensures
            ({
                let (out, rest) = tail_step(old(self).capacity(), old(self).contents(), bytes@);
                &&& final(writer)@ == old(writer)@ + out
                &&& final(self).contents() == rest
                &&& final(self).capacity() == old(self).capacity()
            }),
    {
        let ghost all = self.buffer@ + bytes@;
        let ghost written = writer@;
        let mut i: usize = 0;
        while i < bytes.len()
            invariant
                i <= bytes.len(),
                all == old(self).buffer@ + bytes@,
                self.capacity == old(self).capacity,
                self.buffer@ == old(self).buffer@ + bytes@.take(i as int),
            decreases bytes.len() - i,
        {
            self.buffer.push_back(bytes[i]);
            i = i + 1;
            assert(self.buffer@ =~= old(self).buffer@ + bytes@.take(i as int));
        }
        assert(bytes@.take(bytes.len() as int) =~= bytes@);
        assert(self.buffer@ =~= all);
        let ghost k = evicted_count(old(self).buffer@.len(), bytes@.len(), self.capacity as nat) as int;
        let mut popped: usize = 0;
        assert(all.skip(0) =~= all);
        assert(all.take(0) =~= Seq::<u8>::empty());
        assert(all.len() == self.buffer.len());
        while self.buffer.len() > self.capacity
            invariant
                all.len() <= usize::MAX,
                self.capacity == old(self).capacity,
                k == evicted_count(old(self).buffer@.len(), bytes@.len(), self.capacity as nat) as int,
                all.len() == old(self).buffer@.len() + bytes@.len(),
                popped <= k,
                self.buffer@ == all.skip(popped as int),
                writer@ == written + all.take(popped as int),
            decreases self.buffer@.len(),
        {
            let byte = self.buffer.pop_front().unwrap();
            assert(byte == all[popped as int]);
            writer.push(byte);
            popped = popped + 1;
            assert(self.buffer@ =~= all.skip(popped as int));
            assert(writer@ =~= written + all.take(popped as int));
        }
        assert(popped == k);
    }
}

/// Nothing is lost or reordered: what a push writes, followed by what the
/// buffer then holds, is what it held followed by what was pushed; and the
/// buffer then holds exactly the last `capacity` bytes, or all of them when
/// there are fewer.
pub proof fn law_tail_buffer_conserves_bytes(held: Seq<u8>, bytes: Seq<u8>, capacity: nat)
    ensures
        ({
            let all = held + bytes;
            let k = evicted_count(held.len(), bytes.len(), capacity) as int;
            &&& all.take(k) + all.skip(k) == held + bytes
            &&& all.skip(k).len() == (if all.len() < capacity { all.len() } else { capacity })
        }),
{
    let all = held + bytes;
    let k = evicted_count(held.len(), bytes.len(), capacity) as int;
    assert(all.take(k) + all.skip(k) =~= held + bytes);
}

/// Over any sequence of pushes into a new tail buffer, everything pushed is
/// written in order except the last `capacity` bytes (all of it when fewer
/// were pushed), which the buffer holds: it never holds more than
/// `capacity` bytes, and with no room it holds nothing back.
pub proof fn law_tail_buffer_withholds_only_the_tail(capacity: nat, chunks: Seq<Seq<u8>>)
    ensures
        ({
            let (written, held) = tail_run(capacity, chunks);
            let pushed = chunks.flatten_alt();
            let kept = if pushed.len() < capacity { pushed.len() } else { capacity };
            &&& written == pushed.take(pushed.len() - kept)
            &&& held == pushed.skip(pushed.len() - kept)
            &&& held.len() <= capacity
        }),
    decreases chunks.len(),
{
    if chunks.len() == 0 {
        assert(chunks.flatten_alt() =~= Seq::<u8>::empty());
        assert(Seq::<u8>::empty().take(0) =~= Seq::<u8>::empty());
        assert(Seq::<u8>::empty().skip(0) =~= Seq::<u8>::empty());
    } else {
        let prev = chunks.drop_last();
        let last = chunks.last();
        law_tail_buffer_withholds_only_the_tail(capacity, prev);
        let (w0, h0) = tail_run(capacity, prev);
        let t0 = prev.flatten_alt();
        let t = chunks.flatten_alt();
        assert(t == t0 + last);
        let s0 = t0.len() - h0.len();
        let all = h0 + last;
        let k = evicted_count(h0.len(), last.len(), capacity) as int;
        assert(all =~= t.skip(s0));
        assert(w0 + all.take(k) =~= t.take(s0 + k));
        assert(all.skip(k) =~= t.skip(s0 + k));
    }
}

// ----------------------------------------------------------------------------
// Writing a recording's samples
// ----------------------------------------------------------------------------

/// One write of samples: the silence first, unless it was written before,
/// then what the tail buffer writes out; and what it holds afterwards.
pub open spec fn sample_step(silence: Seq<u8>, started: bool, held: Seq<u8>, bytes: Seq<u8>) -> (
    Seq<u8>,
    Seq<u8>,
) {
    let all = held + bytes;
    let k = evicted_count(held.len(), bytes.len(), silence.len()) as int;
    ((if started { Seq::empty() } else { silence }) + all.take(k), all.skip(k))
}

/// What a recording has written, and what its tail buffer holds, after the
/// given writes of samples.
pub open spec fn sample_run(silence: Seq<u8>, chunks: Seq<Seq<u8>>) -> (Seq<u8>, Seq<u8>)
    decreases chunks.len(),
{
    if chunks.len() == 0 {
        (Seq::empty(), Seq::empty())
    } else {
        let (written, held) = sample_run(silence, chunks.drop_last());
        let (out, rest) = sample_step(silence, chunks.len() > 1, held, chunks.last());
        (written + out, rest)
    }
}

/// Writes the samples of one audio recording: the silence that lines it up
/// with the other streams comes once, before the first samples, and as
/// many bytes are then held back at the end by a [`TailBuffer`].
pub struct AudioSampleWriter {
    silence: Vec<u8>,
    silence_written: bool,
    tail: TailBuffer,
}

impl AudioSampleWriter {
    pub closed spec fn silence(&self) -> Seq<u8> {
        self.silence@
    }

    pub closed spec fn started(&self) -> bool {
        self.silence_written
    }

    /// The bytes held back, oldest first.
    pub closed spec fn held(&self) -> Seq<u8> {
        self.tail.contents()
    }

    pub closed spec fn wf(&self) -> bool {
        self.tail.capacity() == self.silence@.len()
    }

    /// A writer that puts `silence` in front and holds back as many bytes.
    pub fn new(silence: Vec<u8>) -> (w: Self)
        ensures
            w.wf(),
            w.silence() == silence@,
            !w.started(),
            w.held() == Seq::<u8>::empty(),
    {
        let tail = TailBuffer::new(silence.len());
        AudioSampleWriter { silence, silence_written: false, tail }
    }

    /// Handles one batch of samples, already as 16-bit little-endian bytes:
    /// ignored while the streams must not write, otherwise written as
    /// [`sample_step`] says.
    pub fn write_samples(&mut self, should_write: bool, bytes: &[u8], writer: &mut Vec<u8>)
        requires
            old(self).wf(),
        ensures
            final(self).wf(),
            final(self).silence() == old(self).silence(),
            !should_write ==> final(writer)@ == old(writer)@ && final(self).held() == old(self).held()
                && final(self).started() == old(self).started(),
            should_write ==> ({
                let (out, rest) = sample_step(old(self).silence(), old(self).started(), old(self).held(), bytes@);
                &&& final(writer)@ == old(writer)@ + out
                &&& final(self).held() == rest
                &&& final(self).started()
            }),
    {
        if !should_write {
            return;
        }
        if !self.silence_written {
            let mut i: usize = 0;
            let ghost start = writer@;
            while i < self.silence.len()
                invariant
                    i <= self.silence@.len(),
                    writer@ == start + self.silence@.take(i as int),
                decreases self.silence@.len() - i,
            {
                writer.push(self.silence[i]);
                i = i + 1;
                assert(writer@ =~= start + self.silence@.take(i as int));
            }
            assert(self.silence@.take(self.silence@.len() as int) =~= self.silence@);
            self.silence_written = true;
        }
        let ghost mid = writer@;
        self.tail.push_and_write(bytes, writer);
        proof {
            let (out, rest) = sample_step(old(self).silence(), old(self).started(), old(self).held(), bytes@);
            assert(writer@ =~= old(writer)@ + out);
        }
    }
}

/// The recording keeps its length: what was written followed by what is
/// held back is the silence followed by every sample written; the buffer
/// holds back exactly as many bytes as the silence once that many were
/// written (all of them before), so from then on the recording is exactly
/// as long as the samples captured.
pub proof fn law_audio_recording_keeps_length(silence: Seq<u8>, chunks: Seq<Seq<u8>>)
    requires
        chunks.len() > 0,
    ensures
        ({
            let (written, held) = sample_run(silence, chunks);
            &&& written + held == silence + chunks.flatten_alt()
            &&& held.len() == (if chunks.flatten_alt().len() < silence.len() {
                chunks.flatten_alt().len()
            } else {
                silence.len()
            })
            &&& chunks.flatten_alt().len() >= silence.len() ==> written.len() == chunks.flatten_alt().len()
        }),
    decreases chunks.len(),
{
    let (written, held) = sample_run(silence, chunks);
    let last = chunks.last();
    let prev = chunks.drop_last();
    let (w0, h0) = sample_run(silence, prev);
    let all = h0 + last;
    let k = evicted_count(h0.len(), last.len(), silence.len()) as int;
    let (out, rest) = sample_step(silence, chunks.len() > 1, h0, last);
    assert(written == w0 + out && held == rest);
    assert(chunks.flatten_alt() == prev.flatten_alt() + last);
    assert(all =~= all.take(k) + all.skip(k));
    if chunks.len() == 1 {
        assert(prev.len() == 0);
        assert(w0 == Seq::<u8>::empty() && h0 == Seq::<u8>::empty());
        assert(prev.flatten_alt() == Seq::<u8>::empty());
        assert(all =~= last);
        assert(chunks.flatten_alt() =~= last);
        assert(written =~= silence + all.take(k));
        assert(written + held =~= silence + chunks.flatten_alt());
    } else {
        law_audio_recording_keeps_length(silence, prev);
        assert(written =~= w0 + all.take(k));
        assert(written + held =~= silence + chunks.flatten_alt()) by {
            assert(w0 + h0 == silence + prev.flatten_alt());
            assert(written + held =~= w0 + h0 + last);
        }
    }
}

} // verus!
