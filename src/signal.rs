use vstd::prelude::*;

verus! {

/// Whole frames in `len` interleaved samples of `channels` channels; a trailing
/// partial frame is dropped.
pub open spec fn frame_count(len: nat, channels: nat) -> nat {
    len / channels
}

/// Frame `i` of an interleaved sequence: the `channels` samples from `i * channels`.
pub open spec fn frame_at<T>(samples: Seq<T>, channels: nat, i: nat) -> Seq<T> {
    samples.subrange((i * channels) as int, (i * channels + channels) as int)
}

proof fn lemma_frame_in_bounds(len: nat, channels: nat, i: nat)
    requires
        channels >= 1,
        i < len / channels,
    ensures
        i * channels + channels <= len,
{
    assert(i * channels + channels <= len) by (nonlinear_arith)
        requires
            channels >= 1,
            i < len / channels,
    ;
}

/// Groups interleaved samples into frames of `channels` samples each. Each
/// frame holds exactly one sample per channel; samples past the last whole
/// frame are dropped.
pub fn frames_of<T: Copy>(samples: &Vec<T>, channels: usize) -> (r: Vec<Vec<T>>)
    requires
        channels >= 1,
    ensures
        r.len() == frame_count(samples.len() as nat, channels as nat),
        forall|i: int|
            0 <= i < r.len() ==> #[trigger] r[i]@ == frame_at(samples@, channels as nat, i as nat),
        forall|i: int| 0 <= i < r.len() ==> #[trigger] r[i].len() == channels,
{
    let count = samples.len() / channels;
    let mut frames: Vec<Vec<T>> = Vec::new();
    let mut i: usize = 0;
    while i < count
        invariant
            channels >= 1,
            count == samples.len() / channels,
            i <= count,
            frames.len() == i,
            forall|j: int|
                0 <= j < i ==> #[trigger] frames[j]@ == frame_at(samples@, channels as nat, j as nat),
        decreases count - i,
    {
        proof {
            lemma_frame_in_bounds(samples.len() as nat, channels as nat, i as nat);
        }
        let start = i * channels;
        let mut frame: Vec<T> = Vec::new();
        let mut c: usize = 0;
        while c < channels
            invariant
                start == i * channels,
                start + channels <= samples.len(),
                c <= channels,
                frame@ == samples@.subrange(start as int, (start + c) as int),
            decreases channels - c,
        {
            frame.push(samples[start + c]);
            c = c + 1;
            proof {
                assert(frame@ =~= samples@.subrange(start as int, (start + c) as int));
            }
        }
        frames.push(frame);
        i = i + 1;
    }
    proof {
        assert forall|i: int| 0 <= i < frames.len() implies #[trigger] frames[i].len() == channels by {
            lemma_frame_in_bounds(samples.len() as nat, channels as nat, i as nat);
            assert(frames[i]@ == frame_at(samples@, channels as nat, i as nat));
        }
    }
    frames
}

/// Lays frames out again as interleaved samples, frame after frame.
pub fn interleave<T: Copy>(frames: &Vec<Vec<T>>) -> (r: Vec<T>)
    ensures
        r@ == frames@.map_values(|f: Vec<T>| f@).flatten(),
{
    let mut out: Vec<T> = Vec::new();
    let mut i: usize = 0;
    while i < frames.len()
        invariant
            i <= frames.len(),
            out@ == frames@.subrange(0, i as int).map_values(|f: Vec<T>| f@).flatten(),
        decreases frames.len() - i,
    {
        let mut c: usize = 0;
        let ghost before = out@;
        while c < frames[i].len()
            invariant
                i < frames.len(),
                c <= frames[i as int].len(),
                out@ == before + frames[i as int]@.subrange(0, c as int),
            decreases frames[i as int].len() - c,
        {
            out.push(frames[i][c]);
            c = c + 1;
            proof {
                assert(out@ =~= before + frames[i as int]@.subrange(0, c as int));
            }
        }
        proof {
            let pre = frames@.subrange(0, i as int).map_values(|f: Vec<T>| f@);
            let next = frames@.subrange(0, i as int + 1).map_values(|f: Vec<T>| f@);
            assert(next =~= pre.push(frames[i as int]@));
            pre.lemma_flatten_push(frames[i as int]@);
            assert(frames[i as int]@.subrange(0, c as int) =~= frames[i as int]@);
        }
        i = i + 1;
    }
    proof {
        assert(frames@.subrange(0, i as int) =~= frames@);
    }
    out
}

} // verus!
