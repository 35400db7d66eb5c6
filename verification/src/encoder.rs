//! The frame encoder of `defmt`, as the logger sees it.
//!
//! The encoder is a stateful transform from payload bytes to wire bytes. What
//! it emits is decided by the encoding that `defmt` was built with, so the
//! contracts here give the outcome of each call a name instead of spelling
//! an encoding out. But for `gather`, nothing in this module is proved: it
//! states what the rest of the crate takes for granted about
//! `defmt::Encoder`.

use vstd::prelude::*;

verus! {

/// `defmt::Encoder`, carried through as an opaque value.
#[verifier::external_type_specification]
#[verifier::external_body]
pub struct ExEncoder(defmt::Encoder);

/// The memory of an encoder: all that its next outputs depend on.
pub uninterp spec fn encoder_state(encoder: defmt::Encoder) -> Seq<u8>;

/// What `defmt::Encoder::start_frame` does to an encoder with memory `state`:
/// the memory it leaves, and the bytes it emits.
pub uninterp spec fn frame_started(state: Seq<u8>) -> (Seq<u8>, Seq<u8>);

/// What `defmt::Encoder::write` does to an encoder with memory `state` that is
/// given `data`: the memory it leaves, and the bytes it emits.
pub uninterp spec fn payload_written(state: Seq<u8>, data: Seq<u8>) -> (Seq<u8>, Seq<u8>);

/// What `defmt::Encoder::end_frame` does to an encoder with memory `state`:
/// the memory it leaves, and the bytes it emits.
pub uninterp spec fn frame_ended(state: Seq<u8>) -> (Seq<u8>, Seq<u8>);

/// `defmt::Encoder::new`: a fresh encoder. Nothing is claimed of its memory.
pub assume_specification[ defmt::Encoder::new ]() -> (encoder: defmt::Encoder);

/// Appends one emitted chunk to the bytes gathered so far.
pub(crate) fn gather(gathered: &mut Vec<u8>, chunk: &[u8])
    ensures
        final(gathered)@ == old(gathered)@ + chunk@,
{
    gathered.extend_from_slice(chunk);
}

/// `defmt::Encoder::start_frame`, with the chunks it emits appended to
/// `emitted` in the order in which the encoder hands them out.
/// Claimed: the memory that the encoder is left with, and the bytes that it
/// emits, depend on its memory before the call and on nothing else.
#[verifier::external_body]
pub(crate) fn start_frame(encoder: &mut defmt::Encoder, emitted: &mut Vec<u8>)
    ensures
        encoder_state(*final(encoder)) == frame_started(encoder_state(*old(encoder))).0,
        final(emitted)@ == old(emitted)@ + frame_started(encoder_state(*old(encoder))).1,
{
    encoder.start_frame(|chunk| gather(emitted, chunk));
}

/// `defmt::Encoder::write`, with the chunks it emits appended to `emitted` in
/// the order in which the encoder hands them out.
/// Claimed: the memory that the encoder is left with, and the bytes that it
/// emits, depend on its memory before the call, on `data`, and on nothing
/// else.
#[verifier::external_body]
pub(crate) fn write_payload(encoder: &mut defmt::Encoder, data: &[u8], emitted: &mut Vec<u8>)
    ensures
        encoder_state(*final(encoder)) == payload_written(encoder_state(*old(encoder)), data@).0,
        final(emitted)@ == old(emitted)@ + payload_written(
            encoder_state(*old(encoder)),
            data@,
        ).1,
{
    encoder.write(data, |chunk| gather(emitted, chunk));
}

/// `defmt::Encoder::end_frame`, with the chunks it emits appended to
/// `emitted` in the order in which the encoder hands them out.
/// Claimed: the memory that the encoder is left with, and the bytes that it
/// emits, depend on its memory before the call and on nothing else.
#[verifier::external_body]
pub(crate) fn end_frame(encoder: &mut defmt::Encoder, emitted: &mut Vec<u8>)
    ensures
        encoder_state(*final(encoder)) == frame_ended(encoder_state(*old(encoder))).0,
        final(emitted)@ == old(emitted)@ + frame_ended(encoder_state(*old(encoder))).1,
{
    encoder.end_frame(|chunk| gather(emitted, chunk));
}

} // verus!
