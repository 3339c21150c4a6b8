use vstd::prelude::*;

verus! {

/// Why a conversion was refused before any sample was touched.
#[derive(Debug, Clone, Copy, PartialEq, Eq, Structural)]
pub enum ConfigIssue {
    /// The rate ratio is zero or negative, or its denominator is zero.
    NonPositiveRatio,
    /// A format descriptor with no channels.
    ZeroChannels,
    /// A format descriptor with a sample rate of zero.
    ZeroSampleRate,
    /// The derived sample rate rounds to zero or does not fit in 32 bits.
    TargetRateOutOfRange,
}

/// The failures of a conversion job, by the stage that fails.
#[derive(Debug, Clone, Copy, PartialEq, Eq, Structural)]
pub enum ConvertError {
    /// Invalid ratio or descriptor; raised before any I/O.
    Configuration(ConfigIssue),
    /// The input cannot be opened or probed for sample extraction.
    SourceUnreadable,
    /// A decode error that cannot be skipped over.
    UnrecoverableCodec,
    /// Writing the output failed.
    SinkWrite,
    /// The track has already been converted; a new track is needed.
    AlreadyConverted,
}

/// The diagnostic for each error: the failing stage, then the cause.
pub open spec fn message_text(e: ConvertError) -> Seq<char> {
    match e {
        ConvertError::Configuration(ConfigIssue::NonPositiveRatio) => {
            "configuration: the rate ratio must be positive"@
        },
        ConvertError::Configuration(ConfigIssue::ZeroChannels) => {
            "configuration: the format has no channels"@
        },
        ConvertError::Configuration(ConfigIssue::ZeroSampleRate) => {
            "configuration: the format has a zero sample rate"@
        },
        ConvertError::Configuration(ConfigIssue::TargetRateOutOfRange) => {
            "configuration: the derived sample rate is out of range"@
        },
        ConvertError::SourceUnreadable => "probe: the input cannot be read"@,
        ConvertError::UnrecoverableCodec => "decode: unrecoverable codec error"@,
        ConvertError::SinkWrite => "write: the output cannot be written"@,
        ConvertError::AlreadyConverted => "resample: the track was already converted"@,
    }
}

impl ConvertError {
    /// A short diagnostic naming the failing stage and the cause.
    pub fn message(&self) -> (r: String)
        ensures
            r@ == message_text(*self),
    {
        match self {
            ConvertError::Configuration(ConfigIssue::NonPositiveRatio) => {
                str::to_owned("configuration: the rate ratio must be positive")
            },
            ConvertError::Configuration(ConfigIssue::ZeroChannels) => {
                str::to_owned("configuration: the format has no channels")
            },
            ConvertError::Configuration(ConfigIssue::ZeroSampleRate) => {
                str::to_owned("configuration: the format has a zero sample rate")
            },
            ConvertError::Configuration(ConfigIssue::TargetRateOutOfRange) => {
                str::to_owned("configuration: the derived sample rate is out of range")
            },
            ConvertError::SourceUnreadable => str::to_owned("probe: the input cannot be read"),
            ConvertError::UnrecoverableCodec => str::to_owned("decode: unrecoverable codec error"),
            ConvertError::SinkWrite => str::to_owned("write: the output cannot be written"),
            ConvertError::AlreadyConverted => str::to_owned("resample: the track was already converted"),
        }
    }
}

} // verus!
