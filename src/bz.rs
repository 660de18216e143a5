//! The bzip2 decoder that the decompression stream feeds, and the I/O error
//! it reports.

use bzip2::write::BzDecoder;
use std::io::Write;
use vstd::prelude::*;

verus! {

/// A bzip2 decoder whose output sink is a byte vector. Verus cannot take the
/// decoder's own type in a signature (its bound names `std::io::Write`), so it
/// is held here, out of sight; the wrappers below are the only way in.
#[verifier::external_body]
pub struct Decoder {
    inner: BzDecoder<Vec<u8>>,
}

#[verifier::external_type_specification]
#[verifier::external_body]
pub struct ExIoError(std::io::Error);

/// The bytes that the decoder's output sink holds.
pub uninterp spec fn sink_of(d: Decoder) -> Seq<u8>;

/// Every byte the decoder has written into its sink since it was made, in
/// order, whatever was later taken out of the sink.
pub uninterp spec fn emitted_of(d: Decoder) -> Seq<u8>;

/// Every compressed byte the decoder has taken in since it was made, in order.
pub uninterp spec fn consumed_of(d: Decoder) -> Seq<u8>;

/// Whether no write to the decoder and no attempt to finish it has failed.
pub uninterp spec fn intact_of(d: Decoder) -> bool;

/// The bytes that bzip2 decompression gives for `input`, a complete bzip2
/// stream.
pub uninterp spec fn bz_decoded(input: Seq<u8>) -> Seq<u8>;

/// Whether `input` is exactly one complete, well-formed bzip2 stream, with
/// nothing after its end.
pub uninterp spec fn bz_valid(input: Seq<u8>) -> bool;

/// Whether `input` can still be completed into a valid bzip2 stream.
pub open spec fn bz_completable(input: Seq<u8>) -> bool {
    exists|z: Seq<u8>| bz_valid(z) && input.is_prefix_of(z)
}

/// Relies on `bzip2::write::BzDecoder::new`: a decoder that has taken in and
/// written out nothing yet, and holds `sink` as it was given.
#[verifier::external_body]
pub(crate) fn new_decoder(sink: Vec<u8>) -> (r: Decoder)
    ensures
        sink_of(r) == sink@,
        emitted_of(r) == Seq::<u8>::empty(),
        consumed_of(r) == Seq::<u8>::empty(),
        intact_of(r),
{
    Decoder { inner: BzDecoder::new(sink) }
}

/// Relies on `Write::write_all` for `bzip2::write::BzDecoder`: each `write`
/// hands decoded bytes to the sink through `Vec`'s `Write`, which appends them;
/// `Ok` comes only once the decompressor has taken in all of `data`. The
/// decompressor rejects nothing that a valid stream goes on with, and what it
/// has written out is the start of the decompression of any valid stream that
/// goes on from what it took in.
#[verifier::external_body]
pub(crate) fn decoder_write_all(d: &mut Decoder, data: &[u8]) -> (r: Result<(), std::io::Error>)
    ensures
        exists|e: Seq<u8>|
            sink_of(*final(d)) == sink_of(*old(d)) + e && emitted_of(*final(d)) == emitted_of(*old(d))
                + e,
        r is Ok ==> consumed_of(*final(d)) == consumed_of(*old(d)) + data@,
        r is Ok ==> intact_of(*final(d)) == intact_of(*old(d)),
        r is Err ==> !intact_of(*final(d)),
        intact_of(*old(d)) && bz_completable(consumed_of(*old(d)) + data@) ==> r is Ok,
        intact_of(*old(d)) && r is Ok ==> forall|z: Seq<u8>|
            bz_valid(z) && consumed_of(*final(d)).is_prefix_of(z) ==> emitted_of(
                *final(d),
            ).is_prefix_of(bz_decoded(z)),
{
    d.inner.write_all(data)
}

/// Relies on `bzip2::write::BzDecoder::try_finish`: it decodes until the end
/// of the stream and appends the rest of the output to the sink. After `Ok`
/// on a decoder that never failed, all it wrote out is the decompression of
/// what it took in. On a decoder that never failed, it succeeds exactly when
/// what it took in is a complete valid stream.
#[verifier::external_body]
pub(crate) fn decoder_try_finish(d: &mut Decoder) -> (r: Result<(), std::io::Error>)
    ensures
        exists|e: Seq<u8>|
            sink_of(*final(d)) == sink_of(*old(d)) + e && emitted_of(*final(d)) == emitted_of(*old(d))
                + e,
        consumed_of(*final(d)) == consumed_of(*old(d)),
        r is Ok ==> intact_of(*final(d)) == intact_of(*old(d)),
        r is Ok && intact_of(*old(d)) ==> emitted_of(*final(d)) == bz_decoded(consumed_of(*final(d))),
        r is Err ==> !intact_of(*final(d)),
        intact_of(*old(d)) ==> (r is Ok <==> bz_valid(consumed_of(*old(d)))),
{
    d.inner.try_finish()
}

/// Relies on `bzip2::write::BzDecoder::get_mut`: the sink itself, for as long as
/// the borrow lasts; the decoder's own state is not touched. It panics only
/// after `BzDecoder::finish` took the sink away, which nothing here calls.
#[verifier::external_body]
pub(crate) fn decoder_sink<'a>(d: &'a mut Decoder) -> (r: &'a mut Vec<u8>)
    ensures
        r@ == sink_of(*old(d)),
        sink_of(*final(d)) == final(r)@,
        emitted_of(*final(d)) == emitted_of(*old(d)),
        consumed_of(*final(d)) == consumed_of(*old(d)),
        intact_of(*final(d)) == intact_of(*old(d)),
{
    d.inner.get_mut()
}

/// Relies on `Display` for `std::io::Error`: a description of the error for
/// people.
#[verifier::external_body]
pub(crate) fn io_error_text(e: &std::io::Error) -> (r: String) {
    e.to_string()
}

} // verus!
