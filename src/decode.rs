use vstd::prelude::*;
use crate::error::ConvertError;

verus! {

/// What reading the next packet from the container produced.
#[derive(Debug, Clone, Copy, PartialEq, Eq, Structural)]
pub enum PacketRead {
    /// A packet belonging to the track with this identifier.
    Packet { track_id: u32 },
    /// The track list changed and the decoders would have to be rebuilt.
    ResetRequired,
    /// The underlying stream failed: taken as its end.
    StreamIo,
    /// Any other read error.
    Failed,
}

/// What the decode loop does after a packet read.
#[derive(Debug, Clone, Copy, PartialEq, Eq, Structural)]
pub enum ReadStep {
    /// Decode the packet just read.
    Decode,
    /// The packet belongs to another track: read the next one.
    Skip,
    /// The stream has ended: the samples gathered so far are the result.
    Finish,
    /// Stop the conversion with this error.
    Abort(ConvertError),
}

/// What decoding a packet produced.
pub enum DecodeResult<T> {
    /// The packet's samples, interleaved.
    Decoded(Vec<T>),
    /// An I/O error while decoding this packet.
    PacketIo,
    /// The packet holds invalid data.
    Corrupt,
    /// Any other decode error.
    Failed,
}

/// The loop's step on a packet read, as a function of the selected track.
pub open spec fn read_step(selected_track: u32, read: PacketRead) -> ReadStep {
    match read {
        PacketRead::Packet { track_id } => if track_id == selected_track {
            ReadStep::Decode
        } else {
            ReadStep::Skip
        },
        PacketRead::ResetRequired => ReadStep::Abort(ConvertError::UnrecoverableCodec),
        PacketRead::StreamIo => ReadStep::Finish,
        PacketRead::Failed => ReadStep::Abort(ConvertError::UnrecoverableCodec),
    }
}

/// Decides the loop's step on a packet read: packets of other tracks are
/// skipped, a stream I/O error ends the stream, any other error is fatal.
pub fn on_packet_read(selected_track: u32, read: PacketRead) -> (r: ReadStep)
    ensures
        r == read_step(selected_track, read),
{
    match read {
        PacketRead::Packet { track_id } => {
            if track_id == selected_track {
                ReadStep::Decode
            } else {
                ReadStep::Skip
            }
        },
        PacketRead::ResetRequired => ReadStep::Abort(ConvertError::UnrecoverableCodec),
        PacketRead::StreamIo => ReadStep::Finish,
        PacketRead::Failed => ReadStep::Abort(ConvertError::UnrecoverableCodec),
    }
}

/// Whether a decode result stops the conversion.
pub open spec fn is_fatal<T>(d: DecodeResult<T>) -> bool {
    d is Failed
}

/// The samples that a decode result contributes: its own when it decoded,
/// none when the packet was skipped.
pub open spec fn payload<T>(d: DecodeResult<T>) -> Seq<T> {
    match d {
        DecodeResult::Decoded(v) => v@,
        _ => Seq::empty(),
    }
}

/// The samples gathered from a run of decode results, in order.
pub open spec fn gathered<T>(results: Seq<DecodeResult<T>>) -> Seq<T>
    decreases results.len(),
{
    if results.len() == 0 {
        Seq::empty()
    } else {
        gathered(results.drop_last()) + payload(results.last())
    }
}

/// Applies a decode result: decoded samples are appended, a packet that failed
/// with an I/O error or held invalid data is skipped, any other error is fatal
/// and leaves the samples as they were.
pub fn on_decode_result<T>(samples: &mut Vec<T>, result: DecodeResult<T>) -> (r: Result<
    (),
    ConvertError,
>)
    ensures
        is_fatal(result) <==> r is Err,
        r is Err ==> r->Err_0 == ConvertError::UnrecoverableCodec,
        final(samples)@ == old(samples)@ + payload(result),
{
    match result {
        DecodeResult::Decoded(mut v) => {
            samples.append(&mut v);
            Ok(())
        },
        DecodeResult::PacketIo => {
            proof {
                assert(old(samples)@ + payload(result) =~= old(samples)@);
            }
            Ok(())
        },
        DecodeResult::Corrupt => {
            proof {
                assert(old(samples)@ + payload(result) =~= old(samples)@);
            }
            Ok(())
        },
        DecodeResult::Failed => {
            proof {
                assert(old(samples)@ + payload(result) =~= old(samples)@);
            }
            Err(ConvertError::UnrecoverableCodec)
        },
    }
}

/// Gathering splits over concatenation.
pub proof fn lemma_gathered_append<T>(a: Seq<DecodeResult<T>>, b: Seq<DecodeResult<T>>)
    ensures
        gathered(a + b) == gathered(a) + gathered(b),
    decreases b.len(),
{
    if b.len() == 0 {
        assert(a + b =~= a);
        assert(gathered(a) + gathered(b) =~= gathered(a));
    } else {
        lemma_gathered_append(a, b.drop_last());
        assert((a + b).drop_last() =~= a + b.drop_last());
        assert((a + b).last() == b.last());
        assert(gathered(a) + gathered(b) =~= gathered(a) + gathered(b.drop_last()) + payload(
            b.last(),
        ));
    }
}

/// A corrupt packet amid valid ones costs only its own samples: what is
/// gathered equals what the packets before it and the packets after it give.
pub proof fn lemma_corrupt_packet_skipped<T>(
    before: Seq<DecodeResult<T>>,
    after: Seq<DecodeResult<T>>,
)
    ensures
        gathered(before + seq![DecodeResult::Corrupt] + after) == gathered(before) + gathered(
            after,
        ),
        gathered(before + seq![DecodeResult::PacketIo] + after) == gathered(before) + gathered(
            after,
        ),
{
    let c: Seq<DecodeResult<T>> = seq![DecodeResult::Corrupt];
    let p: Seq<DecodeResult<T>> = seq![DecodeResult::PacketIo];
    lemma_gathered_append(before + c, after);
    lemma_gathered_append(before, c);
    lemma_gathered_append(before + p, after);
    lemma_gathered_append(before, p);
    assert(c.drop_last() =~= Seq::<DecodeResult<T>>::empty());
    assert(p.drop_last() =~= Seq::<DecodeResult<T>>::empty());
    assert(gathered(Seq::<DecodeResult<T>>::empty()) =~= Seq::<T>::empty());
    assert(c.last() is Corrupt);
    assert(payload(c.last()) =~= Seq::<T>::empty());
    assert(gathered(c) =~= Seq::<T>::empty());
    assert(p.last() is PacketIo);
    assert(payload(p.last()) =~= Seq::<T>::empty());
    assert(gathered(p) =~= Seq::<T>::empty());
    assert(gathered(before) + Seq::<T>::empty() =~= gathered(before));
}

} // verus!
