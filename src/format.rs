use vstd::prelude::*;
use crate::error::ConfigIssue;

verus! {

/// How the samples of a stream are stored.
#[derive(Debug, Clone, Copy, PartialEq, Eq, Structural)]
pub enum SampleEncoding {
    Int,
    Float,
}

/// Channel count, sample rate (Hz), bits per sample and encoding of a stream.
#[derive(Debug, Clone, Copy, PartialEq, Eq, Structural)]
pub struct FormatDescriptor {
    pub channel_count: u16,
    pub sample_rate: u32,
    pub bits_per_sample: u16,
    pub encoding: SampleEncoding,
}

/// Channels and rate used when the input's header cannot be read.
pub const FALLBACK_CHANNELS: u16 = 1;
pub const FALLBACK_SAMPLE_RATE: u32 = 64_000;
pub const FALLBACK_BITS_PER_SAMPLE: u16 = 16;

impl FormatDescriptor {
    /// At least one channel and a positive sample rate.
    pub open spec fn wf(&self) -> bool {
        self.channel_count >= 1 && self.sample_rate > 0
    }

    /// Checks the descriptor's invariant.
    pub fn new(
        channel_count: u16,
        sample_rate: u32,
        bits_per_sample: u16,
        encoding: SampleEncoding,
    ) -> (r: Result<FormatDescriptor, ConfigIssue>)
        ensures
            channel_count == 0 ==> r == Err::<FormatDescriptor, ConfigIssue>(ConfigIssue::ZeroChannels),
            channel_count > 0 && sample_rate == 0 ==> r == Err::<FormatDescriptor, ConfigIssue>(
                ConfigIssue::ZeroSampleRate,
            ),
            channel_count > 0 && sample_rate > 0 ==> r == Ok::<FormatDescriptor, ConfigIssue>(
                (FormatDescriptor { channel_count, sample_rate, bits_per_sample, encoding }),
            ),
    {
        if channel_count == 0 {
            Err(ConfigIssue::ZeroChannels)
        } else if sample_rate == 0 {
            Err(ConfigIssue::ZeroSampleRate)
        } else {
            Ok(FormatDescriptor { channel_count, sample_rate, bits_per_sample, encoding })
        }
    }

    /// Mono, 64 kHz, 16-bit integer samples.
    pub fn fallback() -> (r: FormatDescriptor)
        ensures
            r == (FormatDescriptor {
                channel_count: FALLBACK_CHANNELS,
                sample_rate: FALLBACK_SAMPLE_RATE,
                bits_per_sample: FALLBACK_BITS_PER_SAMPLE,
                encoding: SampleEncoding::Int,
            }),
            r.wf(),
    {
        FormatDescriptor {
            channel_count: FALLBACK_CHANNELS,
            sample_rate: FALLBACK_SAMPLE_RATE,
            bits_per_sample: FALLBACK_BITS_PER_SAMPLE,
            encoding: SampleEncoding::Int,
        }
    }

    /// The descriptor read from the input's header, or the fallback when there is none.
    pub fn resolve(probed: Option<FormatDescriptor>) -> (r: FormatDescriptor)
        ensures
            r == FormatDescriptor::resolve_spec(probed),
    {
        match probed {
            Some(d) => d,
            None => FormatDescriptor::fallback(),
        }
    }

    pub open spec fn resolve_spec(probed: Option<FormatDescriptor>) -> FormatDescriptor {
        match probed {
            Some(d) => d,
            None => FormatDescriptor::fallback_spec(),
        }
    }

    pub open spec fn fallback_spec() -> FormatDescriptor {
        FormatDescriptor {
            channel_count: FALLBACK_CHANNELS,
            sample_rate: FALLBACK_SAMPLE_RATE,
            bits_per_sample: FALLBACK_BITS_PER_SAMPLE,
            encoding: SampleEncoding::Int,
        }
    }
}

/// A positive rational `num / den`: target rate over source rate.
#[derive(Debug, Clone, Copy, PartialEq, Eq, Structural)]
pub struct RateRatio {
    num: u64,
    den: u64,
}

impl RateRatio {
    pub closed spec fn numer(&self) -> nat {
        self.num as nat
    }

    pub closed spec fn denom(&self) -> nat {
        self.den as nat
    }

    /// Numerator and denominator are both positive.
    pub open spec fn wf(&self) -> bool {
        self.numer() > 0 && self.denom() > 0
    }

    /// The ratio `num / den`; rejected unless it is positive.
    pub fn new(num: i64, den: u64) -> (r: Result<RateRatio, ConfigIssue>)
        ensures
            (num <= 0 || den == 0) <==> r is Err,
            r is Err ==> r->Err_0 == ConfigIssue::NonPositiveRatio,
            r is Ok ==> r->Ok_0.wf() && r->Ok_0.numer() == num && r->Ok_0.denom() == den,
    {
        if num <= 0 || den == 0 {
            Err(ConfigIssue::NonPositiveRatio)
        } else {
            Ok(RateRatio { num: num as u64, den })
        }
    }

    /// Both parts fit in 64 bits.
    pub proof fn lemma_parts_fit(&self)
        ensures
            self.numer() <= u64::MAX,
            self.denom() <= u64::MAX,
    {
    }

    pub fn numerator(&self) -> (r: u64)
        ensures
            r == self.numer(),
    {
        self.num
    }

    pub fn denominator(&self) -> (r: u64)
        ensures
            r == self.denom(),
    {
        self.den
    }
}

/// `rate * num / den` rounded to the nearest integer, halves rounded up.
pub open spec fn scaled_rate(rate: nat, num: nat, den: nat) -> nat {
    (2 * rate * num + den) / (2 * den)
}

/// The target descriptor: channels, bit depth and encoding kept, the rate
/// scaled by the ratio and rounded.
pub open spec fn target_descriptor(source: FormatDescriptor, ratio: RateRatio) -> FormatDescriptor {
    FormatDescriptor {
        sample_rate: scaled_rate(source.sample_rate as nat, ratio.numer(), ratio.denom()) as u32,
        ..source
    }
}

/// Whether the rounded target rate is positive and fits in 32 bits.
pub open spec fn target_rate_in_range(source: FormatDescriptor, ratio: RateRatio) -> bool {
    let t = scaled_rate(source.sample_rate as nat, ratio.numer(), ratio.denom());
    0 < t && t <= u32::MAX
}

/// Derives the output descriptor of a conversion by `ratio`.
pub fn derive_target(source: FormatDescriptor, ratio: RateRatio) -> (r: Result<
    FormatDescriptor,
    ConfigIssue,
>)
    requires
        ratio.wf(),
    ensures
        target_rate_in_range(source, ratio) <==> r is Ok,
        r is Ok ==> r->Ok_0 == target_descriptor(source, ratio),
        r is Err ==> r->Err_0 == ConfigIssue::TargetRateOutOfRange,
{
    let num = ratio.numerator() as u128;
    let den = ratio.denominator() as u128;
    let rate = source.sample_rate as u128;
    proof {
        assert(rate * num <= 0xffff_ffff * 0xffff_ffff_ffff_ffffu128) by (nonlinear_arith)
            requires
                rate <= 0xffff_ffff,
                num <= 0xffff_ffff_ffff_ffff,
        ;
    }
    let t = (2 * (rate * num) + den) / (2 * den);
    proof {
        assert(2 * (rate * num) == 2 * rate * num) by (nonlinear_arith);
    }
    if t == 0 || t > u32::MAX as u128 {
        Err(ConfigIssue::TargetRateOutOfRange)
    } else {
        Ok(FormatDescriptor { sample_rate: t as u32, ..source })
    }
}

} // verus!
