//! Cutting a stream of captured samples into fixed-size analysis frames.

use vstd::prelude::*;

verus! {

/// The views of a list of frames, one sequence per frame.
pub open spec fn frame_views<T>(frames: Seq<Vec<T>>) -> Seq<Seq<T>> {
    frames.map_values(|f: Vec<T>| f@)
}

/// Whether `frames` followed by `rest` is `samples` cut into whole frames
/// of `n` samples each, with fewer than `n` samples left over.
pub open spec fn cuts_into_frames<T>(samples: Seq<T>, frames: Seq<Seq<T>>, rest: Seq<T>, n: nat) -> bool {
    &&& forall|i: int| 0 <= i < frames.len() ==> #[trigger] frames[i].len() == n
    &&& rest.len() < n
    &&& frames.flatten() + rest == samples
}

/// Frames of equal length `n` lie side by side in their concatenation:
/// frame `i` is the run that starts at `i * n`.
proof fn lemma_flatten_uniform<T>(frames: Seq<Seq<T>>, n: nat)
    requires
        forall|i: int| 0 <= i < frames.len() ==> #[trigger] frames[i].len() == n,
    ensures
        frames.flatten().len() == frames.len() * n,
        forall|i: int|
            0 <= i < frames.len() ==> #[trigger] frames.flatten().subrange(i * n, i * n + n)
                == frames[i],
    decreases frames.len(),
{
    if frames.len() > 0 {
        let init = frames.drop_last();
        let last = frames.last();
        lemma_flatten_uniform(init, n);
        assert(frames =~= init.push(last));
        init.lemma_flatten_push(last);
        let flat = frames.flatten();
        assert(flat == init.flatten() + last);
        assert(frames.len() * n == init.len() * n + n) by (nonlinear_arith)
            requires
                frames.len() == init.len() + 1,
        ;
        assert forall|i: int| 0 <= i < frames.len() implies #[trigger] flat.subrange(i * n, i * n + n)
            == frames[i] by {
            if i < init.len() {
                assert(i * n + n <= init.len() * n) by (nonlinear_arith)
                    requires
                        0 <= i < init.len(),
                ;
                assert(0 <= i * n) by (nonlinear_arith)
                    requires
                        0 <= i,
                ;
                assert(flat.subrange(i * n, i * n + n) =~= init.flatten().subrange(i * n, i * n + n));
            } else {
                assert(i == init.len());
                assert(flat.subrange(i * n, i * n + n) =~= last);
            }
        }
    }
}

/// A cut into whole frames is determined by the samples: two cuts of the
/// same samples into frames of the same positive length are the same cut.
pub proof fn lemma_cut_is_unique<T>(
    samples: Seq<T>,
    frames1: Seq<Seq<T>>,
    rest1: Seq<T>,
    frames2: Seq<Seq<T>>,
    rest2: Seq<T>,
    n: nat,
)
    requires
        n > 0,
        cuts_into_frames(samples, frames1, rest1, n),
        cuts_into_frames(samples, frames2, rest2, n),
    ensures
        frames1 == frames2,
        rest1 == rest2,
{
    lemma_flatten_uniform(frames1, n);
    lemma_flatten_uniform(frames2, n);
    vstd::arithmetic::div_mod::lemma_fundamental_div_mod_converse(
        samples.len() as int,
        n as int,
        frames1.len() as int,
        rest1.len() as int,
    );
    vstd::arithmetic::div_mod::lemma_fundamental_div_mod_converse(
        samples.len() as int,
        n as int,
        frames2.len() as int,
        rest2.len() as int,
    );
    assert(frames1.len() == frames2.len());
    assert forall|i: int| 0 <= i < frames1.len() implies #[trigger] frames1[i] == frames2[i] by {
        assert(frames1.flatten().subrange(i * n, i * n + n) == frames1[i]);
        assert(frames2.flatten().subrange(i * n, i * n + n) == frames2[i]);
        assert(frames1.flatten() =~= samples.subrange(0, (frames1.len() * n) as int));
        assert(frames2.flatten() =~= samples.subrange(0, (frames2.len() * n) as int));
    }
    assert(frames1 =~= frames2);
    assert(rest1 =~= samples.subrange((frames1.len() * n) as int, samples.len() as int));
    assert(rest2 =~= samples.subrange((frames2.len() * n) as int, samples.len() as int));
}

/// Feeding samples in two batches cuts them as feeding them all at once
/// would: the frames of the first batch, then those completed by the
/// second one, and what was left over after the second.
pub proof fn lemma_cuts_compose<T>(
    first: Seq<T>,
    frames1: Seq<Seq<T>>,
    rest1: Seq<T>,
    second: Seq<T>,
    frames2: Seq<Seq<T>>,
    rest2: Seq<T>,
    n: nat,
)
    requires
        cuts_into_frames(first, frames1, rest1, n),
        cuts_into_frames(rest1 + second, frames2, rest2, n),
    ensures
        cuts_into_frames(first + second, frames1 + frames2, rest2, n),
{
    vstd::seq_lib::lemma_flatten_concat(frames1, frames2);
    assert(frames2.flatten() + rest2 == rest1 + second);
    assert(frames1.flatten() + rest1 == first);
    assert((frames1 + frames2).flatten() + rest2 =~= frames1.flatten() + (frames2.flatten() + rest2));
    assert(frames1.flatten() + (rest1 + second) =~= (frames1.flatten() + rest1) + second);
    assert forall|i: int| 0 <= i < (frames1 + frames2).len() implies #[trigger] (frames1
        + frames2)[i].len() == n by {
        if i < frames1.len() {
            assert((frames1 + frames2)[i] == frames1[i]);
        } else {
            assert((frames1 + frames2)[i] == frames2[i - frames1.len()]);
        }
    }
}

/// Accumulates samples until a whole frame of `frame_len` samples is there,
/// then hands that frame out and starts the next one empty.
pub struct FrameBuffer<T> {
    frame_len: usize,
    pending: Vec<T>,
}

impl<T> FrameBuffer<T> {
    /// The number of samples in one frame.
    pub closed spec fn frame_len(&self) -> nat {
        self.frame_len as nat
    }

    /// The samples gathered since the last frame was handed out.
    pub closed spec fn pending(&self) -> Seq<T> {
        self.pending@
    }

    /// A frame is never left full: it leaves as soon as it is complete.
    pub closed spec fn wf(&self) -> bool {
        &&& self.frame_len > 0
        &&& self.pending@.len() < self.frame_len
    }

    /// An empty buffer for frames of `frame_len` samples.
    pub fn new(frame_len: usize) -> (buf: Self)
        requires
            frame_len > 0,
        ensures
            buf.wf(),
            buf.frame_len() == frame_len,
            buf.pending() == Seq::<T>::empty(),
    {
        FrameBuffer { frame_len, pending: Vec::new() }
    }

    /// The number of samples in one frame.
    pub fn frame_length(&self) -> (n: usize)
        ensures
            n == self.frame_len(),
    {
        self.frame_len
    }

    /// The number of samples waiting for their frame to fill.
    pub fn pending_len(&self) -> (n: usize)
        ensures
            n == self.pending().len(),
    {
        self.pending.len()
    }

    /// Adds one sample. When it completes a frame, the frame is returned
    /// and the buffer starts over empty; otherwise the sample waits.
    pub fn push(&mut self, sample: T) -> (frame: Option<Vec<T>>)
        requires
            old(self).wf(),
        ensures
            final(self).wf(),
            final(self).frame_len() == old(self).frame_len(),
            old(self).pending().len() + 1 == old(self).frame_len() ==> {
                &&& frame is Some
                &&& frame->0@ == old(self).pending().push(sample)
                &&& final(self).pending() == Seq::<T>::empty()
            },
            old(self).pending().len() + 1 < old(self).frame_len() ==> {
                &&& frame is None
                &&& final(self).pending() == old(self).pending().push(sample)
            },
    {
        self.pending.push(sample);
        if self.pending.len() == self.frame_len {
            let mut frame: Vec<T> = Vec::new();
            std::mem::swap(&mut frame, &mut self.pending);
            Some(frame)
        } else {
            None
        }
    }
}

impl<T: Copy> FrameBuffer<T> {
    /// Adds every sample of `samples` in order and returns the frames that
    /// were completed on the way, oldest first.
    pub fn push_all(&mut self, samples: &[T]) -> (frames: Vec<Vec<T>>)
        requires
            old(self).wf(),
        ensures
            final(self).wf(),
            final(self).frame_len() == old(self).frame_len(),
            cuts_into_frames(
                old(self).pending() + samples@,
                frame_views(frames@),
                final(self).pending(),
                old(self).frame_len(),
            ),
    {
        let mut frames: Vec<Vec<T>> = Vec::new();
        let ghost start = self.pending();
        for k in 0..samples.len()
            invariant
                self.wf(),
                self.frame_len() == old(self).frame_len(),
                start == old(self).pending(),
                forall|i: int| 0 <= i < frames@.len() ==> #[trigger] frames@[i]@.len() == self.frame_len(),
                frame_views(frames@).flatten() + self.pending() == start + samples@.take(k as int),
        {
            let ghost before = self.pending();
            let ghost fv = frame_views(frames@);
            match self.push(samples[k]) {
                Some(frame) => {
                    let ghost f = frame@;
                    frames.push(frame);
                    proof {
                        assert(frame_views(frames@) =~= fv.push(f));
                        fv.lemma_flatten_push(f);
                        assert(f =~= before.push(samples@[k as int]));
                        assert(fv.flatten() + f + self.pending() =~= (fv.flatten() + before).push(samples@[k as int]));
                    }
                },
                None => {
                    assert(fv.flatten() + self.pending() =~= (fv.flatten() + before).push(samples@[k as int]));
                },
            }
            assert(samples@.take(k + 1) =~= samples@.take(k as int).push(samples@[k as int]));
        }
        assert(samples@.take(samples.len() as int) =~= samples@);
        assert forall|i: int| 0 <= i < frame_views(frames@).len() implies #[trigger] frame_views(
            frames@,
        )[i].len() == self.frame_len() by {
            assert(frames@[i]@.len() == self.frame_len());
        }
        frames
    }
}

/// Splits interleaved multi-channel audio into one group per instant:
/// group `i` holds the `channels` samples `input[i * channels ..
/// (i + 1) * channels]`. Samples after the last whole group are left out.
pub fn interleaved_groups<T: Copy>(input: &[T], channels: usize) -> (groups: Vec<Vec<T>>)
    requires
        channels > 0,
    ensures
        groups@.len() == input@.len() / (channels as nat),
        forall|i: int|
            0 <= i < groups@.len() ==> #[trigger] groups@[i]@ == input@.subrange(
                i * channels,
                i * channels + channels,
            ),
{
    let total = input.len();
    let n = total / channels;
    proof {
        vstd::arithmetic::div_mod::lemma_fundamental_div_mod(input.len() as int, channels as int);
        vstd::arithmetic::div_mod::lemma_mod_pos_bound(input.len() as int, channels as int);
    }
    let mut groups: Vec<Vec<T>> = Vec::new();
    let mut start: usize = 0;
    let mut g: usize = 0;
    while g < n
        invariant
            n == input@.len() / (channels as nat),
            total == input@.len(),
            channels * n <= input@.len(),
            channels > 0,
            g <= n,
            start == g * channels,
            groups@.len() == g,
            forall|i: int|
                0 <= i < groups@.len() ==> #[trigger] groups@[i]@ == input@.subrange(
                    i * channels,
                    i * channels + channels,
                ),
        decreases n - g,
    {
        proof {
            vstd::arithmetic::mul::lemma_mul_inequality(g as int + 1, n as int, channels as int);
            vstd::arithmetic::mul::lemma_mul_is_distributive_add_other_way(channels as int, g as int, 1);
            vstd::arithmetic::mul::lemma_mul_is_commutative(channels as int, n as int);
            assert(start + channels == (g + 1) * channels);
            assert((g + 1) * channels <= n * channels);
            assert(start + channels <= input@.len());
        }
        let mut group: Vec<T> = Vec::new();
        let mut j: usize = 0;
        while j < channels
            invariant
                start + channels <= input@.len(),
                total == input@.len(),
                j <= channels,
                group@ == input@.subrange(start as int, start + j),
            decreases channels - j,
        {
            group.push(input[start + j]);
            j = j + 1;
            assert(group@ =~= input@.subrange(start as int, start + j));
        }
        groups.push(group);
        start = start + channels;
        g = g + 1;
    }
    groups
}

/// Copies `input` into a buffer of exactly `len` samples: the first
/// samples of `input` where there are any, `fill` after them. Samples past
/// `len` are left out.
pub fn fit_to_length<T: Copy>(input: &[T], len: usize, fill: T) -> (out: Vec<T>)
    ensures
        out@.len() == len,
        forall|i: int|
            0 <= i < len ==> #[trigger] out@[i] == if i < input@.len() {
                input@[i]
            } else {
                fill
            },
{
    let mut out: Vec<T> = Vec::new();
    let mut i: usize = 0;
    while i < len
        invariant
            i <= len,
            out@.len() == i,
            forall|k: int|
                0 <= k < i ==> #[trigger] out@[k] == if k < input@.len() {
                    input@[k]
                } else {
                    fill
                },
        decreases len - i,
    {
        if i < input.len() {
            out.push(input[i]);
        } else {
            out.push(fill);
        }
        i = i + 1;
    }
    out
}

} // verus!
