use dasp::interpolate::sinc::Sinc;
use dasp::interpolate::Interpolator;
use dasp::ring_buffer;
use resampler::decode::{on_decode_result, on_packet_read, DecodeResult, PacketRead, ReadStep};
use resampler::error::{ConfigIssue, ConvertError};
use resampler::format::{derive_target, FormatDescriptor, RateRatio, SampleEncoding};
use resampler::resample::{output_frame_count, ResampleAction, Resampler};
use resampler::signal::{frames_of, interleave};
use resampler::track::{Args, Track};

const TAPS: usize = 100;

fn mono(rate: u32) -> FormatDescriptor {
    FormatDescriptor { channel_count: 1, sample_rate: rate, bits_per_sample: 16, encoding: SampleEncoding::Int }
}

fn ratio(num: i64, den: u64) -> RateRatio {
    RateRatio::new(num, den).unwrap()
}

fn track(spec: FormatDescriptor) -> Track {
    Track::from(String::from("in.wav"), String::from("out.wav"), spec).unwrap()
}

fn build(spec: FormatDescriptor) -> Result<FormatDescriptor, ConvertError> {
    Track::from(String::from("in.wav"), String::from("out.wav"), spec).map(|t| t.spec())
}

/// Drives a pass with one sinc interpolator per channel; also records the
/// number of consumed frames after every step.
fn run_pass(frames: &[Vec<f64>], channels: usize, schedule: Resampler) -> (Vec<Vec<f64>>, Vec<u128>) {
    let mut schedule = schedule;
    let mut sincs: Vec<Sinc<[[f64; 1]; TAPS]>> =
        (0..channels).map(|_| Sinc::new(ring_buffer::Fixed::from([[0.0f64; 1]; TAPS]))).collect();
    let mut input = frames.iter();
    let mut out = Vec::new();
    let mut trace = Vec::new();
    loop {
        match schedule.next_action() {
            ResampleAction::Pull => match input.next() {
                Some(frame) => {
                    for (s, v) in sincs.iter_mut().zip(frame.iter()) {
                        s.next_source_frame([*v]);
                    }
                    schedule.frame_pulled();
                }
                None => schedule.source_exhausted(),
            },
            ResampleAction::Emit { offset, scale } => {
                let x = offset as f64 / scale as f64;
                out.push(sincs.iter().map(|s| s.interpolate(x)[0]).collect());
                schedule.frame_emitted();
            }
            ResampleAction::Finish => break,
        }
        trace.push(schedule.consumed());
    }
    (out, trace)
}

#[test]
fn ratio_zero_or_negative_is_rejected() {
    let t = track(mono(8000));
    let e = Err(ConvertError::Configuration(ConfigIssue::NonPositiveRatio));
    assert_eq!(t.resample(0, 1).map(|c| c.target), e);
    assert_eq!(t.resample(-3, 2).map(|c| c.target), e);
    assert_eq!(t.resample(1, 0).map(|c| c.target), e);
    assert_eq!(RateRatio::new(0, 5), Err(ConfigIssue::NonPositiveRatio));
}

#[test]
fn invalid_descriptor_is_rejected() {
    let no_channels = FormatDescriptor { channel_count: 0, sample_rate: 8000, bits_per_sample: 16, encoding: SampleEncoding::Int };
    let nothing = FormatDescriptor { channel_count: 0, sample_rate: 0, bits_per_sample: 16, encoding: SampleEncoding::Int };
    assert_eq!(build(no_channels), Err(ConvertError::Configuration(ConfigIssue::ZeroChannels)));
    assert_eq!(build(nothing), Err(ConvertError::Configuration(ConfigIssue::ZeroChannels)));
    assert_eq!(build(mono(0)), Err(ConvertError::Configuration(ConfigIssue::ZeroSampleRate)));
    assert_eq!(build(mono(8000)), Ok(mono(8000)));
    let args = Args::new(String::from("in.wav"), String::from("out.wav"));
    assert_eq!(
        Track::from_args(&args, Some(mono(0))).map(|t| t.spec()),
        Err(ConvertError::Configuration(ConfigIssue::ZeroSampleRate))
    );
    assert_eq!(FormatDescriptor::new(0, 8000, 16, SampleEncoding::Int), Err(ConfigIssue::ZeroChannels));
    assert_eq!(FormatDescriptor::new(2, 0, 16, SampleEncoding::Int), Err(ConfigIssue::ZeroSampleRate));
    assert_eq!(FormatDescriptor::new(2, 44100, 24, SampleEncoding::Float), Ok(FormatDescriptor {
        channel_count: 2,
        sample_rate: 44100,
        bits_per_sample: 24,
        encoding: SampleEncoding::Float,
    }));
}

#[test]
fn target_rate_is_rounded_product() {
    assert_eq!(derive_target(mono(8000), ratio(2, 1)).unwrap().sample_rate, 16000);
    assert_eq!(derive_target(mono(44100), ratio(135, 100)).unwrap().sample_rate, 59535);
    assert_eq!(derive_target(mono(3), ratio(1, 2)).unwrap().sample_rate, 2);
    assert_eq!(derive_target(mono(5), ratio(1, 3)).unwrap().sample_rate, 2);
    assert_eq!(derive_target(mono(44100), ratio(1, 1)).unwrap(), mono(44100));
    let stereo = FormatDescriptor { channel_count: 2, sample_rate: 48000, bits_per_sample: 24, encoding: SampleEncoding::Float };
    let t = derive_target(stereo, ratio(1, 2)).unwrap();
    assert_eq!(t, FormatDescriptor { sample_rate: 24000, ..stereo });
}

#[test]
fn target_rate_out_of_range() {
    assert_eq!(derive_target(mono(1), ratio(1, 3)), Err(ConfigIssue::TargetRateOutOfRange));
    assert_eq!(derive_target(mono(u32::MAX), ratio(2, 1)), Err(ConfigIssue::TargetRateOutOfRange));
    assert_eq!(
        track(mono(1)).resample(1, 3).map(|c| c.target),
        Err(ConvertError::Configuration(ConfigIssue::TargetRateOutOfRange))
    );
}

#[test]
fn fallback_descriptor_when_header_unreadable() {
    let args = Args::new(String::from("blah"), String::from("output.wav"));
    let t = Track::from_args(&args, None).unwrap();
    assert_eq!(t.spec(), mono(64_000));
    assert_eq!(t.orig_fp(), "blah");
    assert_eq!(t.target_fp(), "output.wav");
    assert_eq!(args.get_input_fp(), "blah");
    assert_eq!(args.get_output_fp(), "output.wav");
    let read = FormatDescriptor { channel_count: 2, sample_rate: 22050, bits_per_sample: 8, encoding: SampleEncoding::Int };
    assert_eq!(Track::from_args(&args, Some(read)).unwrap().spec(), read);
}

#[test]
fn frames_group_interleaved_samples() {
    let samples = vec![1, 2, 3, 4, 5, 6, 7];
    let frames = frames_of(&samples, 2);
    assert_eq!(frames, vec![vec![1, 2], vec![3, 4], vec![5, 6]]);
    assert!(frames.iter().all(|f| f.len() == 2));
    assert_eq!(interleave(&frames), vec![1, 2, 3, 4, 5, 6]);
    assert_eq!(frames_of(&samples, 3).len(), 2);
    assert_eq!(frames_of(&Vec::<i32>::new(), 2).len(), 0);
    assert_eq!(frames_of(&vec![1, 2], 3).len(), 0);
}

#[test]
fn output_count_scales_with_ratio() {
    assert_eq!(output_frame_count(ratio(2, 1), 8000), 16000);
    assert_eq!(output_frame_count(ratio(1, 1), 1234), 1234);
    assert_eq!(output_frame_count(ratio(135, 100), 100), 135);
    assert_eq!(output_frame_count(ratio(1, 3), 10), 4);
    assert_eq!(output_frame_count(ratio(3, 2), 0), 0);
}

#[test]
fn schedule_positions_and_consumption() {
    let c = track(mono(8000)).resample(1, 2).unwrap();
    let mut s = c.schedule;
    let mut log = Vec::new();
    let mut left = 5;
    loop {
        let a = s.next_action();
        log.push(a);
        match a {
            ResampleAction::Pull => {
                if left > 0 {
                    left -= 1;
                    s.frame_pulled();
                } else {
                    s.source_exhausted();
                }
            }
            ResampleAction::Emit { .. } => s.frame_emitted(),
            ResampleAction::Finish => break,
        }
    }
    let emits: Vec<ResampleAction> = log.iter().copied().filter(|a| matches!(a, ResampleAction::Emit { .. })).collect();
    assert_eq!(emits.len() as u128, output_frame_count(c.ratio, 5));
    assert_eq!(emits, vec![ResampleAction::Emit { offset: 0, scale: 1 }; 3]);
    assert_eq!(s.consumed(), 5);
    assert_eq!(s.emitted(), 3);

    let mut s = Resampler::new(ratio(3, 2));
    s.frame_pulled();
    assert_eq!(s.next_action(), ResampleAction::Emit { offset: 0, scale: 3 });
    s.frame_emitted();
    assert_eq!(s.next_action(), ResampleAction::Emit { offset: 2, scale: 3 });
    s.frame_emitted();
    assert_eq!(s.next_action(), ResampleAction::Pull);
}

#[test]
fn consumption_never_goes_back() {
    let frames: Vec<Vec<f64>> = (0..500).map(|i| vec![(i as f64 * 0.01).sin()]).collect();
    for (num, den) in [(1i64, 1u64), (2, 1), (135, 100), (1, 3)] {
        let (out, trace) = run_pass(&frames, 1, Resampler::new(ratio(num, den)));
        assert!(trace.windows(2).all(|w| w[0] <= w[1]));
        assert_eq!(out.len() as u128, output_frame_count(ratio(num, den), 500));
    }
}

#[test]
fn identity_ratio_reproduces_input() {
    let n = 1000;
    let input: Vec<f64> = (0..n).map(|i| 0.8 * ((i as f64) * 0.05).sin()).collect();
    let frames = frames_of(&input, 1);
    let (out, _) = run_pass(&frames, 1, Resampler::new(ratio(1, 1)));
    assert_eq!(out.len(), n);
    let lsb = 1.0 / 32768.0;
    let delay = (0..TAPS)
        .find(|&d| (d..n).all(|k| (out[k][0] - input[k - d]).abs() <= lsb))
        .expect("output is the input shifted by the window warm-up");
    assert!(delay < TAPS);
}

#[test]
fn channels_stay_aligned() {
    let n = 400;
    let left: Vec<f64> = (0..n).map(|i| ((i as f64) * 0.1).sin()).collect();
    let mut interleaved = Vec::new();
    for v in &left {
        interleaved.push(*v);
        interleaved.push(*v);
        interleaved.push(-*v);
    }
    let frames = frames_of(&interleaved, 3);
    let (out, _) = run_pass(&frames, 3, Resampler::new(ratio(3, 2)));
    assert_eq!(out.len(), 600);
    for f in &out {
        assert_eq!(f.len(), 3);
        assert_eq!(f[0], f[1]);
        assert!((f[0] + f[2]).abs() < 1e-12);
    }
}

#[test]
fn sine_at_8000_hz_doubled() {
    let input: Vec<f64> =
        (0..8000).map(|i| 0.5 * (2.0 * std::f64::consts::PI * 440.0 * i as f64 / 8000.0).sin()).collect();
    let t = track(mono(8000));
    let c = t.resample(2, 1).unwrap();
    assert_eq!(c.target, mono(16000));
    let frames = frames_of(&input, 1);
    let (out, _) = run_pass(&frames, 1, c.schedule);
    assert_eq!(out.len(), 16000);
    // Past the warm-up, find the strongest frequency over the new rate's band.
    let body: Vec<f64> = out[200..16000].iter().map(|f| f[0]).collect();
    let power = |freq: f64| {
        let w = 2.0 * std::f64::consts::PI * freq / 16000.0;
        let (mut re, mut im) = (0.0, 0.0);
        for (k, v) in body.iter().enumerate() {
            re += v * (w * k as f64).cos();
            im += v * (w * k as f64).sin();
        }
        re * re + im * im
    };
    let peak = (1..800).map(|k| k as f64 * 10.0).fold((0.0, 0.0), |best, f| {
        let p = power(f);
        if p > best.1 { (f, p) } else { best }
    });
    assert_eq!(peak.0, 440.0);
}

#[test]
fn packet_reads_decide_the_loop() {
    assert_eq!(on_packet_read(3, PacketRead::Packet { track_id: 3 }), ReadStep::Decode);
    assert_eq!(on_packet_read(3, PacketRead::Packet { track_id: 4 }), ReadStep::Skip);
    assert_eq!(on_packet_read(3, PacketRead::StreamIo), ReadStep::Finish);
    assert_eq!(on_packet_read(3, PacketRead::ResetRequired), ReadStep::Abort(ConvertError::UnrecoverableCodec));
    assert_eq!(on_packet_read(3, PacketRead::Failed), ReadStep::Abort(ConvertError::UnrecoverableCodec));
}

#[test]
fn corrupt_packet_is_skipped() {
    let mut samples: Vec<i32> = Vec::new();
    let stream = vec![
        DecodeResult::Decoded(vec![1, 2]),
        DecodeResult::Decoded(vec![3]),
        DecodeResult::Corrupt,
        DecodeResult::PacketIo,
        DecodeResult::Decoded(vec![4, 5]),
    ];
    for r in stream {
        assert_eq!(on_decode_result(&mut samples, r), Ok(()));
    }
    assert_eq!(samples, vec![1, 2, 3, 4, 5]);
}

#[test]
fn fatal_decode_error_stops() {
    let mut samples = vec![1.0f64];
    assert_eq!(on_decode_result(&mut samples, DecodeResult::Failed), Err(ConvertError::UnrecoverableCodec));
    assert_eq!(samples, vec![1.0]);
}

#[test]
fn converted_track_is_not_reused() {
    let mut t = track(mono(8000));
    assert!(!t.is_converted());
    assert!(t.resample(2, 1).is_ok());
    t.mark_converted();
    assert!(t.is_converted());
    assert_eq!(t.spec(), mono(8000));
    assert_eq!(t.resample(2, 1).map(|c| c.target), Err(ConvertError::AlreadyConverted));
}

#[test]
fn error_messages_name_the_stage() {
    assert_eq!(ConvertError::SinkWrite.message(), "write: the output cannot be written");
    assert_eq!(
        ConvertError::Configuration(ConfigIssue::NonPositiveRatio).message(),
        "configuration: the rate ratio must be positive"
    );
    assert_eq!(ConvertError::UnrecoverableCodec.message(), "decode: unrecoverable codec error");
}
