use vstd::prelude::*;
use crate::format::RateRatio;

verus! {

/// Position of output frame `n` in the input, rounded down: `n * den / num`.
pub open spec fn input_position(ratio: RateRatio, n: nat) -> nat {
    (n * ratio.denom()) / ratio.numer()
}

/// Fractional part of the position of output frame `n`, in units of `1 / num`.
pub open spec fn phase(ratio: RateRatio, n: nat) -> nat {
    (n * ratio.denom()) % ratio.numer()
}

/// Input frames that must have been consumed before output frame `n` is
/// interpolated: every frame up to and including its rounded-down position.
pub open spec fn frames_needed(ratio: RateRatio, n: nat) -> nat {
    input_position(ratio, n) + 1
}

/// Output frames produced from `input_frames` input frames: those whose position
/// falls inside the input, `ceil(input_frames * num / den)`.
pub open spec fn output_len(ratio: RateRatio, input_frames: nat) -> nat {
    (input_frames * ratio.numer() + ratio.denom() - 1) as nat / ratio.denom()
}

/// What the driver of a resampling pass does next.
#[derive(Debug, Clone, Copy, PartialEq, Eq, Structural)]
pub enum ResampleAction {
    /// Pull one more input frame into the interpolator's history.
    Pull,
    /// Interpolate every channel at the same fraction `offset / scale` past the
    /// output frame's rounded-down input position, and emit the resulting frame.
    Emit { offset: u64, scale: u64 },
    /// The input is exhausted and the next position lies beyond it.
    Finish,
}

/// Pull schedule of a resampling pass. The interpolation itself runs outside;
/// this decides when input is pulled, where each output frame lies, and when
/// the pass ends.
#[derive(Debug, Clone, Copy)]
pub struct Resampler {
    ratio: RateRatio,
    consumed: u128,
    emitted: u64,
    exhausted: bool,
}

impl Resampler {
    pub closed spec fn ratio_spec(&self) -> RateRatio {
        self.ratio
    }

    /// Input frames consumed so far.
    pub closed spec fn consumed_spec(&self) -> nat {
        self.consumed as nat
    }

    /// Output frames emitted so far.
    pub closed spec fn emitted_spec(&self) -> nat {
        self.emitted as nat
    }

    /// Whether a pull has found the input exhausted.
    pub closed spec fn exhausted_spec(&self) -> bool {
        self.exhausted
    }

    /// Never more input consumed than the next output frame needs.
    pub open spec fn wf(&self) -> bool {
        &&& self.ratio_spec().wf()
        &&& self.consumed_spec() <= frames_needed(self.ratio_spec(), self.emitted_spec())
        &&& self.emitted_spec() <= u64::MAX
    }

    /// The next step, as a function of the state.
    pub open spec fn action(&self) -> ResampleAction {
        let r = self.ratio_spec();
        let n = self.emitted_spec();
        if self.consumed_spec() >= frames_needed(r, n) {
            ResampleAction::Emit { offset: phase(r, n) as u64, scale: r.numer() as u64 }
        } else if !self.exhausted_spec() {
            ResampleAction::Pull
        } else {
            ResampleAction::Finish
        }
    }

    /// A pass that has consumed and emitted nothing.
    pub fn new(ratio: RateRatio) -> (r: Resampler)
        requires
            ratio.wf(),
        ensures
            r.wf(),
            r.ratio_spec() == ratio,
            r.consumed_spec() == 0,
            r.emitted_spec() == 0,
            !r.exhausted_spec(),
    {
        Resampler { ratio, consumed: 0, emitted: 0, exhausted: false }
    }

    pub fn consumed(&self) -> (r: u128)
        ensures
            r == self.consumed_spec(),
    {
        self.consumed
    }

    pub fn emitted(&self) -> (r: u64)
        ensures
            r == self.emitted_spec(),
    {
        self.emitted
    }

    /// Decides the next step.
    pub fn next_action(&self) -> (r: ResampleAction)
        requires
            self.wf(),
        ensures
            r == self.action(),
    {
        let num = self.ratio.numerator() as u128;
        let den = self.ratio.denominator() as u128;
        let n = self.emitted as u128;
        proof {
            assert(n * den <= 0xffff_ffff_ffff_ffffu128 * 0xffff_ffff_ffff_ffffu128)
                by (nonlinear_arith)
                requires
                    n <= 0xffff_ffff_ffff_ffffu128,
                    den <= 0xffff_ffff_ffff_ffffu128,
            ;
        }
        let scaled = n * den;
        let position = scaled / num;
        proof {
            assert(position <= scaled) by (nonlinear_arith)
                requires
                    num >= 1,
                    position == scaled / num,
            ;
        }
        if position < self.consumed {
            let offset = scaled % num;
            ResampleAction::Emit { offset: offset as u64, scale: num as u64 }
        } else if !self.exhausted {
            ResampleAction::Pull
        } else {
            ResampleAction::Finish
        }
    }

    /// Records that the input frame asked for by `Pull` was handed to the
    /// interpolator.
    pub fn frame_pulled(&mut self)
        requires
            old(self).wf(),
            old(self).action() is Pull,
        ensures
            final(self).wf(),
            final(self).consumed_spec() == old(self).consumed_spec() + 1,
            final(self).emitted_spec() == old(self).emitted_spec(),
            is_step(*old(self), *final(self)),
            final(self).ratio_spec() == old(self).ratio_spec(),
            final(self).exhausted_spec() == old(self).exhausted_spec(),
    {
        proof {
            let n = self.emitted as nat;
            let d = self.ratio.denom();
            let k = self.ratio.numer();
            self.ratio.lemma_parts_fit();
            assert(n * d <= 0xffff_ffff_ffff_ffffu128 * 0xffff_ffff_ffff_ffffu128)
                by (nonlinear_arith)
                requires
                    n <= 0xffff_ffff_ffff_ffffu128,
                    d <= 0xffff_ffff_ffff_ffffu128,
            ;
            assert((n * d) / k <= n * d) by (nonlinear_arith)
                requires
                    k >= 1,
            ;
        }
        self.consumed = self.consumed + 1;
    }

    /// Records that a pull found no more input.
    pub fn source_exhausted(&mut self)
        requires
            old(self).wf(),
        ensures
            final(self).wf(),
            final(self).exhausted_spec(),
            is_step(*old(self), *final(self)),
            final(self).consumed_spec() == old(self).consumed_spec(),
            final(self).emitted_spec() == old(self).emitted_spec(),
            final(self).ratio_spec() == old(self).ratio_spec(),
    {
        self.exhausted = true;
    }

    /// Records that the frame asked for by `Emit` was produced.
    pub fn frame_emitted(&mut self)
        requires
            old(self).wf(),
            old(self).action() is Emit,
            old(self).emitted_spec() < u64::MAX,
        ensures
            final(self).wf(),
            final(self).emitted_spec() == old(self).emitted_spec() + 1,
            is_step(*old(self), *final(self)),
            final(self).consumed_spec() == old(self).consumed_spec(),
            final(self).ratio_spec() == old(self).ratio_spec(),
            final(self).exhausted_spec() == old(self).exhausted_spec(),
    {
        proof {
            lemma_needed_monotone(self.ratio, self.emitted as nat, self.emitted as nat + 1);
        }
        self.emitted = self.emitted + 1;
    }
}

/// One move of a pass: a pull of the next input frame, the input reporting
/// its end, or an emitted output frame.
pub open spec fn is_step(s: Resampler, t: Resampler) -> bool {
    &&& t.ratio_spec() == s.ratio_spec()
    &&& {
        ||| (s.action() is Pull && t.consumed_spec() == s.consumed_spec() + 1
            && t.emitted_spec() == s.emitted_spec() && t.exhausted_spec()
            == s.exhausted_spec())
        ||| (t.exhausted_spec() && t.consumed_spec() == s.consumed_spec() && t.emitted_spec()
            == s.emitted_spec())
        ||| (s.action() is Emit && t.emitted_spec() == s.emitted_spec() + 1
            && t.consumed_spec() == s.consumed_spec() && t.exhausted_spec()
            == s.exhausted_spec())
    }
}

/// Whether the move from `s` to `t` pulled an input frame; the frame pulled
/// has index `s.consumed_spec()`.
pub open spec fn pulls(s: Resampler, t: Resampler) -> bool {
    t.consumed_spec() == s.consumed_spec() + 1
}

/// Consumption over a run of moves only goes forward.
pub proof fn lemma_run_consumption_monotone(run: Seq<Resampler>, i: int, j: int)
    requires
        forall|k: int| 0 <= k < run.len() - 1 ==> #[trigger] is_step(run[k], run[k + 1]),
        0 <= i <= j < run.len(),
    ensures
        run[i].consumed_spec() <= run[j].consumed_spec(),
    decreases j - i,
{
    if i < j {
        let k = j - 1;
        lemma_run_consumption_monotone(run, i, k);
        assert(is_step(run[k], run[k + 1]));
    }
}

/// A pass reads its input once, in order: the frames pulled along a run of
/// moves have strictly increasing indices, so no frame is requested twice and
/// none below one already consumed.
pub proof fn lemma_pull_indices_increase(run: Seq<Resampler>, i: int, j: int)
    requires
        forall|k: int| 0 <= k < run.len() - 1 ==> #[trigger] is_step(run[k], run[k + 1]),
        0 <= i < j < run.len() - 1,
        pulls(run[i], run[i + 1]),
        pulls(run[j], run[j + 1]),
    ensures
        run[i].consumed_spec() < run[j].consumed_spec(),
{
    lemma_run_consumption_monotone(run, i + 1, j);
}

/// Output frames that a pass over `input_frames` input frames produces.
pub fn output_frame_count(ratio: RateRatio, input_frames: u64) -> (r: u128)
    requires
        ratio.wf(),
    ensures
        r == output_len(ratio, input_frames as nat),
{
    let num = ratio.numerator() as u128;
    let den = ratio.denominator() as u128;
    let m = input_frames as u128;
    proof {
        assert(m * num <= 0xffff_ffff_ffff_ffffu128 * 0xffff_ffff_ffff_ffffu128)
            by (nonlinear_arith)
            requires
                m <= 0xffff_ffff_ffff_ffffu128,
                num <= 0xffff_ffff_ffff_ffffu128,
        ;
    }
    (m * num + (den - 1)) / den
}

/// Consumption never goes back: a later output frame needs at least as many
/// input frames as an earlier one.
pub proof fn lemma_needed_monotone(ratio: RateRatio, n1: nat, n2: nat)
    requires
        ratio.wf(),
        n1 <= n2,
    ensures
        input_position(ratio, n1) <= input_position(ratio, n2),
        frames_needed(ratio, n1) <= frames_needed(ratio, n2),
{
    let d = ratio.denom();
    let k = ratio.numer();
    assert(n1 * d <= n2 * d) by (nonlinear_arith)
        requires
            n1 <= n2,
    ;
    assert((n1 * d) / k <= (n2 * d) / k) by (nonlinear_arith)
        requires
            n1 * d <= n2 * d,
            k > 0,
    ;
}

/// Output frame `n` belongs to a pass over `input_frames` frames exactly when
/// every input frame it needs exists.
pub proof fn lemma_output_len_exact(ratio: RateRatio, input_frames: nat, n: nat)
    requires
        ratio.wf(),
    ensures
        n < output_len(ratio, input_frames) <==> frames_needed(ratio, n) <= input_frames,
{
    let d = ratio.denom() as int;
    let k = ratio.numer() as int;
    let m = input_frames as int * k;
    assert(n < (m + d - 1) / d <==> n as int * d < m) by (nonlinear_arith)
        requires
            d > 0,
            m >= 0,
            n >= 0,
    ;
    assert((n as int * d) / k < input_frames as int <==> n as int * d < input_frames as int * k) by (nonlinear_arith)
        requires
            k > 0,
            n as int * d >= 0,
    ;
}

/// The output length is the input length scaled by the ratio and rounded up:
/// `input_frames * num <= output_len * den < input_frames * num + den`.
pub proof fn lemma_output_len_scales(ratio: RateRatio, input_frames: nat)
    requires
        ratio.wf(),
    ensures
        input_frames * ratio.numer() <= output_len(ratio, input_frames) * ratio.denom(),
        output_len(ratio, input_frames) * ratio.denom() < input_frames * ratio.numer()
            + ratio.denom(),
{
    let d = ratio.denom() as int;
    let m = input_frames as int * ratio.numer() as int;
    let q = (m + d - 1) / d;
    assert(m <= q * d && q * d < m + d) by (nonlinear_arith)
        requires
            d > 0,
            m >= 0,
            q == (m + d - 1) / d,
    ;
}

/// A ratio of one places every output frame exactly on the input frame of the
/// same index, and emits as many frames as it reads.
pub proof fn lemma_identity_ratio(ratio: RateRatio, input_frames: nat, n: nat)
    requires
        ratio.wf(),
        ratio.numer() == ratio.denom(),
    ensures
        input_position(ratio, n) == n,
        phase(ratio, n) == 0,
        frames_needed(ratio, n) == n + 1,
        output_len(ratio, input_frames) == input_frames,
{
    let d = ratio.denom() as int;
    assert((n as int * d) / d == n as int && (n as int * d) % d == 0) by (nonlinear_arith)
        requires
            d > 0,
    ;
    assert((input_frames as int * d + d - 1) / d == input_frames as int) by (nonlinear_arith)
        requires
            d > 0,
    ;
}

/// Once all `input_frames` frames are consumed and the input has reported its
/// end, the pass emits while the output index is below `output_len` and
/// finishes exactly there.
pub proof fn lemma_pass_ends_at_output_len(s: Resampler, input_frames: nat)
    requires
        s.wf(),
        s.exhausted_spec(),
        s.consumed_spec() == input_frames,
    ensures
        s.action() is Emit <==> s.emitted_spec() < output_len(s.ratio_spec(), input_frames),
        s.action() is Finish <==> s.emitted_spec() >= output_len(s.ratio_spec(), input_frames),
{
    lemma_output_len_exact(s.ratio_spec(), input_frames, s.emitted_spec());
}

} // verus!
