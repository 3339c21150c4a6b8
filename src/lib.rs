//! Sample-rate conversion: format descriptors, rate ratios, the frame view over
//! interleaved samples, the pull schedule of the interpolating resampler, the
//! decisions of the decode loop, and the conversion job that binds them.
pub mod error;
pub mod format;
pub mod resample;
pub mod signal;
pub mod decode;
pub mod track;
