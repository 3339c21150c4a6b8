use vstd::prelude::*;
use crate::error::{ConfigIssue, ConvertError};
use crate::format::{
    derive_target, scaled_rate, target_descriptor, FormatDescriptor, RateRatio,
};
use crate::resample::Resampler;

verus! {

/// The input and output locations of a conversion job.
#[derive(Debug, Clone)]
pub struct Args {
    pub input_file: String,
    pub output_file: String,
}

impl Args {
    pub fn new(input_file: String, output_file: String) -> (r: Args)
        ensures
            r.input_file@ == input_file@,
            r.output_file@ == output_file@,
    {
        Args { input_file, output_file }
    }

    /// The input location.
    pub fn get_input_fp(&self) -> (r: String)
        ensures
            r@ == self.input_file@,
    {
        self.input_file.clone()
    }

    /// The output location.
    pub fn get_output_fp(&self) -> (r: String)
        ensures
            r@ == self.output_file@,
    {
        self.output_file.clone()
    }
}

/// A conversion job: where the audio comes from, where it goes, and the
/// format of the source. A track is loaded when built and becomes converted
/// once its output has been written; it is never converted twice.
#[derive(Debug, Clone)]
pub struct Track {
    orig_fp: String,
    target_fp: String,
    spec: FormatDescriptor,
    converted: bool,
}

/// A validated conversion: the ratio, the derived output format and a fresh
/// pull schedule for the resampling pass.
#[derive(Debug, Clone, Copy)]
pub struct Conversion {
    pub ratio: RateRatio,
    pub target: FormatDescriptor,
    pub schedule: Resampler,
}

/// The outcome of a conversion request on a track with source format `spec`,
/// by the order in which the checks are made.
pub open spec fn conversion_outcome_ok(
    converted: bool,
    spec: FormatDescriptor,
    num: i64,
    den: u64,
    r: Result<Conversion, ConvertError>,
) -> bool {
    if converted {
        r == Err::<Conversion, ConvertError>(ConvertError::AlreadyConverted)
    } else if num <= 0 || den == 0 {
        r == Err::<Conversion, ConvertError>(ConvertError::Configuration(ConfigIssue::NonPositiveRatio))
    } else if spec.channel_count == 0 {
        r == Err::<Conversion, ConvertError>(ConvertError::Configuration(ConfigIssue::ZeroChannels))
    } else if spec.sample_rate == 0 {
        r == Err::<Conversion, ConvertError>(ConvertError::Configuration(ConfigIssue::ZeroSampleRate))
    } else if !(0 < scaled_rate(spec.sample_rate as nat, num as nat, den as nat) <= u32::MAX) {
        r == Err::<Conversion, ConvertError>(
            ConvertError::Configuration(ConfigIssue::TargetRateOutOfRange),
        )
    } else {
        &&& r is Ok
        &&& r->Ok_0.ratio.wf()
        &&& r->Ok_0.ratio.numer() == num
        &&& r->Ok_0.ratio.denom() == den
        &&& r->Ok_0.target == target_descriptor(spec, r->Ok_0.ratio)
        &&& r->Ok_0.target.wf()
        &&& r->Ok_0.schedule.wf()
        &&& r->Ok_0.schedule.ratio_spec() == r->Ok_0.ratio
        &&& r->Ok_0.schedule.consumed_spec() == 0
        &&& r->Ok_0.schedule.emitted_spec() == 0
        &&& !r->Ok_0.schedule.exhausted_spec()
    }
}

impl Track {
    pub closed spec fn orig_spec(&self) -> Seq<char> {
        self.orig_fp@
    }

    pub closed spec fn target_spec(&self) -> Seq<char> {
        self.target_fp@
    }

    pub closed spec fn format_spec(&self) -> FormatDescriptor {
        self.spec
    }

    pub closed spec fn converted_spec(&self) -> bool {
        self.converted
    }

    /// The track's format satisfies the descriptor invariant.
    pub open spec fn wf(&self) -> bool {
        self.format_spec().wf()
    }

    /// A job reading `orig_fp` in format `spec` and writing `target_fp`. A
    /// format with no channels or a zero sample rate is refused.
    pub fn from(orig_fp: String, target_fp: String, spec: FormatDescriptor) -> (r: Result<
        Track,
        ConvertError,
    >)
        ensures
            spec.channel_count == 0 ==> r == Err::<Track, ConvertError>(
                ConvertError::Configuration(ConfigIssue::ZeroChannels),
            ),
            spec.channel_count > 0 && spec.sample_rate == 0 ==> r == Err::<Track, ConvertError>(
                ConvertError::Configuration(ConfigIssue::ZeroSampleRate),
            ),
            spec.wf() <==> r is Ok,
            r is Ok ==> {
                &&& r->Ok_0.wf()
                &&& r->Ok_0.orig_spec() == orig_fp@
                &&& r->Ok_0.target_spec() == target_fp@
                &&& r->Ok_0.format_spec() == spec
                &&& !r->Ok_0.converted_spec()
            },
    {
        match FormatDescriptor::new(
            spec.channel_count,
            spec.sample_rate,
            spec.bits_per_sample,
            spec.encoding,
        ) {
            Ok(_) => Ok(Track { orig_fp, target_fp, spec, converted: false }),
            Err(e) => Err(ConvertError::Configuration(e)),
        }
    }

    /// A job from the given locations; the source format is the one read from
    /// the input's header, or the fallback when it could not be read. A read
    /// format with no channels or a zero sample rate is refused.
    pub fn from_args(args: &Args, probed: Option<FormatDescriptor>) -> (r: Result<
        Track,
        ConvertError,
    >)
        ensures
            ({
                let spec = FormatDescriptor::resolve_spec(probed);
                &&& spec.channel_count == 0 ==> r == Err::<Track, ConvertError>(
                    ConvertError::Configuration(ConfigIssue::ZeroChannels),
                )
                &&& spec.channel_count > 0 && spec.sample_rate == 0 ==> r == Err::<
                    Track,
                    ConvertError,
                >(ConvertError::Configuration(ConfigIssue::ZeroSampleRate))
                &&& spec.wf() <==> r is Ok
                &&& r is Ok ==> {
                    &&& r->Ok_0.wf()
                    &&& r->Ok_0.orig_spec() == args.input_file@
                    &&& r->Ok_0.target_spec() == args.output_file@
                    &&& r->Ok_0.format_spec() == spec
                    &&& !r->Ok_0.converted_spec()
                }
            }),
    {
        let spec = FormatDescriptor::resolve(probed);
        Track::from(args.get_input_fp(), args.get_output_fp(), spec)
    }

    pub fn orig_fp(&self) -> (r: String)
        ensures
            r@ == self.orig_spec(),
    {
        self.orig_fp.clone()
    }

    pub fn target_fp(&self) -> (r: String)
        ensures
            r@ == self.target_spec(),
    {
        self.target_fp.clone()
    }

    /// Whether the output has been written.
    pub fn is_converted(&self) -> (r: bool)
        ensures
            r == self.converted_spec(),
    {
        self.converted
    }

    /// Records that the output of a conversion has been written.
    pub fn mark_converted(&mut self)
        ensures
            final(self).converted_spec(),
            final(self).orig_spec() == old(self).orig_spec(),
            final(self).target_spec() == old(self).target_spec(),
            final(self).format_spec() == old(self).format_spec(),
    {
        self.converted = true;
    }

    pub fn spec(&self) -> (r: FormatDescriptor)
        ensures
            r == self.format_spec(),
    {
        self.spec
    }

    /// Validates a conversion of this track by `num / den` before any sample
    /// is read: the track must not be converted yet, the ratio must be positive, the source format valid and the
    /// derived rate in range. On success returns the derived output format and
    /// the schedule that drives the resampling pass.
    pub fn resample(&self, num: i64, den: u64) -> (r: Result<Conversion, ConvertError>)
        ensures
            conversion_outcome_ok(self.converted_spec(), self.format_spec(), num, den, r),
    {
        if self.converted {
            return Err(ConvertError::AlreadyConverted);
        }
        let ratio = match RateRatio::new(num, den) {
            Ok(q) => q,
            Err(e) => {
                return Err(ConvertError::Configuration(e));
            },
        };
        match FormatDescriptor::new(
            self.spec.channel_count,
            self.spec.sample_rate,
            self.spec.bits_per_sample,
            self.spec.encoding,
        ) {
            Ok(_) => {},
            Err(e) => {
                return Err(ConvertError::Configuration(e));
            },
        }
        match derive_target(self.spec, ratio) {
            Ok(target) => {
                let schedule = Resampler::new(ratio);
                Ok(Conversion { ratio, target, schedule })
            },
            Err(e) => {
                Err(ConvertError::Configuration(e))
            },
        }
    }
}

} // verus!
