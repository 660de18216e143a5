//! A transform that decodes bzip2-compressed input as its chunks arrive.

use std::sync::{Arc, Mutex, MutexGuard};
use vstd::prelude::*;

use crate::bz::{
    bz_completable, bz_decoded, bz_valid, consumed_of, decoder_sink, decoder_try_finish, decoder_write_all, emitted_of,
    intact_of, io_error_text, new_decoder, sink_of, Decoder,
};
use crate::error::FailureKind;
use crate::pass_through::{chunk_views, flatten, lemma_flatten_prefix};
use crate::shared::{decoder_made_with, guarded, new_decoder_cell, try_acquire};

verus! {

/// A failed decompression operation.
#[derive(Clone, Debug)]
pub struct Unbzip2Error {
    kind: FailureKind,
    message: String,
}

impl Unbzip2Error {
    /// The failure when the decoder state is already held.
    pub fn contention() -> (r: Self)
        ensures
            r.kind() == FailureKind::LockContention,
            r.message_view().len() > 0,
    {
        proof { reveal_strlit("the stream is in use by another operation"); }
        Unbzip2Error {
            kind: FailureKind::LockContention,
            message: String::from_str("the stream is in use by another operation"),
        }
    }

    /// The failure when the stream was already finished.
    pub fn already_finished() -> (r: Self)
        ensures
            r.kind() == FailureKind::AlreadyFinished,
            r.message_view().len() > 0,
    {
        proof { reveal_strlit("the stream was already finished"); }
        Unbzip2Error {
            kind: FailureKind::AlreadyFinished,
            message: String::from_str("the stream was already finished"),
        }
    }

    /// The failure that the decoder reported as `e`.
    pub fn decoder(e: &std::io::Error) -> (r: Self)
        ensures
            r.kind() == FailureKind::DecoderFailure,
            r.message_view().len() > 0,
    {
        let text = io_error_text(e);
        proof { reveal_strlit("bzip2 decoding failed: "); }
        let message = String::from_str("bzip2 decoding failed: ").concat(text.as_str());
        Unbzip2Error { kind: FailureKind::DecoderFailure, message }
    }

    pub closed spec fn kind_spec(&self) -> FailureKind {
        self.kind
    }

    /// Why the operation failed.
    #[verifier::when_used_as_spec(kind_spec)]
    pub fn kind(&self) -> (r: FailureKind)
        ensures
            r == self.kind_spec(),
    {
        self.kind
    }

    /// The description of the failure.
    pub closed spec fn message_view(&self) -> Seq<char> {
        self.message@
    }

    /// A description of the failure for people.
    pub fn message(&self) -> (r: String)
        ensures
            r@ == self.message_view(),
    {
        self.message.clone()
    }
}

/// A bzip2 decoder with its output sink, and where it stands in its life:
/// written to any number of times, then finished once.
///
/// `drained` holds, in order, every byte handed out so far; together with
/// what the sink still holds it is all the decoder has produced.
pub struct DecoderState {
    decoder: Decoder,
    finished: bool,
    drained: Ghost<Seq<u8>>,
}

impl DecoderState {
    /// Decoded bytes not yet handed out.
    pub closed spec fn pending(&self) -> Seq<u8> {
        sink_of(self.decoder)
    }

    /// Every byte handed out so far, in order.
    pub closed spec fn handed_out(&self) -> Seq<u8> {
        self.drained@
    }

    /// Every byte the decoder has produced so far, in order.
    pub closed spec fn produced(&self) -> Seq<u8> {
        emitted_of(self.decoder)
    }

    /// Every compressed byte the decoder has taken in, in order.
    pub closed spec fn input(&self) -> Seq<u8> {
        consumed_of(self.decoder)
    }

    /// Whether a write or a finish has failed; the stream is then of no
    /// further use.
    pub closed spec fn failed(&self) -> bool {
        !intact_of(self.decoder)
    }

    /// Whether `finish` has succeeded.
    pub closed spec fn is_finished(&self) -> bool {
        self.finished
    }

    /// What has been handed out, followed by what is pending, is exactly what
    /// the decoder produced, so draining loses, repeats and reorders nothing.
    /// Before the finish, what was produced is the start of the decompression
    /// of every valid stream that goes on from the input; once finished
    /// without a failure, it is the decompression of the whole input.
    pub open spec fn consistent(&self) -> bool {
        &&& self.handed_out() + self.pending() == self.produced()
        &&& !self.is_finished() && !self.failed() ==> forall|z: Seq<u8>|
            bz_valid(z) && self.input().is_prefix_of(z) ==> self.produced().is_prefix_of(
                bz_decoded(z),
            )
        &&& self.is_finished() && !self.failed() ==> self.produced() == bz_decoded(self.input())
    }

    /// The decoder went on from `before` by appending the same bytes to its
    /// sink and to what it produced, so the drained bytes still account for
    /// everything.
    proof fn lemma_extended(&self, before: Decoder)
        requires
            exists|e: Seq<u8>|
                sink_of(self.decoder) == sink_of(before) + e && emitted_of(self.decoder)
                    == emitted_of(before) + e,
        ensures
            self.drained@ + sink_of(before) == emitted_of(before) ==> self.handed_out()
                + self.pending() == self.produced(),
            sink_of(before).is_prefix_of(sink_of(self.decoder)),
    {
        let e = choose|e: Seq<u8>|
            sink_of(self.decoder) == sink_of(before) + e && emitted_of(self.decoder) == emitted_of(
                before,
            ) + e;
        assert(self.drained@ + (sink_of(before) + e) =~= (self.drained@ + sink_of(before)) + e);
        assert((sink_of(before) + e).subrange(0, sink_of(before).len() as int) =~= sink_of(before));
    }

    /// A state in which nothing has happened yet: not finished, not failed, no
    /// input taken, nothing pending and nothing handed out.
    pub open spec fn is_fresh(&self) -> bool {
        &&& !self.is_finished()
        &&& !self.failed()
        &&& self.input() == Seq::<u8>::empty()
        &&& self.pending() == Seq::<u8>::empty()
        &&& self.handed_out() == Seq::<u8>::empty()
        &&& self.consistent()
    }

    /// A decoder that has seen no input.
    pub fn new() -> (r: Self)
        ensures
            r.is_fresh(),
    {
        let r = DecoderState {
            decoder: new_decoder(Vec::new()),
            finished: false,
            drained: Ghost(Seq::empty()),
        };
        assert forall|z: Seq<u8>| bz_valid(z) && r.input().is_prefix_of(z) implies r.produced().is_prefix_of(
            bz_decoded(z),
        ) by {
            assert(bz_decoded(z).subrange(0, 0) =~= r.produced());
        }
        r
    }

    /// Feeds `data` to the decoder. Once finished, the state is left alone and
    /// the write fails.
    pub fn write(&mut self, data: &[u8]) -> (r: Result<(), Unbzip2Error>)
        ensures
            old(self).is_finished() ==> r is Err && r->Err_0.kind() == FailureKind::AlreadyFinished
                && *final(self) == *old(self),
            !old(self).is_finished() ==> (r is Err ==> r->Err_0.kind() == FailureKind::DecoderFailure),
            r is Err ==> r->Err_0.message_view().len() > 0,
            !old(self).is_finished() && !old(self).failed() && bz_completable(
                old(self).input() + data@,
            ) ==> r is Ok,
            r is Ok ==> final(self).input() == old(self).input() + data@,
            r is Ok ==> final(self).failed() == old(self).failed(),
            !old(self).is_finished() && r is Err ==> final(self).failed(),
            final(self).is_finished() == old(self).is_finished(),
            final(self).handed_out() == old(self).handed_out(),
            old(self).pending().is_prefix_of(final(self).pending()),
            old(self).consistent() ==> final(self).consistent(),
    {
        if self.finished {
            return Err(Unbzip2Error::already_finished());
        }
        let ghost before = self.decoder;
        let r = decoder_write_all(&mut self.decoder, data);
        proof { self.lemma_extended(before); }
        match r {
            Ok(()) => Ok(()),
            Err(e) => Err(Unbzip2Error::decoder(&e)),
        }
    }

    /// Tells the decoder that the input is complete, so that it flushes what it
    /// still holds into the sink. Succeeds once: a second call fails and leaves
    /// the state alone.
    pub fn finish(&mut self) -> (r: Result<(), Unbzip2Error>)
        ensures
            old(self).is_finished() ==> r is Err && r->Err_0.kind() == FailureKind::AlreadyFinished
                && *final(self) == *old(self),
            !old(self).is_finished() ==> (r is Ok <==> final(self).is_finished()),
            !old(self).is_finished() ==> (r is Err ==> r->Err_0.kind() == FailureKind::DecoderFailure),
            r is Err ==> r->Err_0.message_view().len() > 0,
            r is Ok ==> final(self).failed() == old(self).failed(),
            !old(self).is_finished() && !old(self).failed() ==> (r is Ok <==> bz_valid(
                old(self).input(),
            )),
            r is Ok && !old(self).failed() ==> final(self).produced() == bz_decoded(final(self).input()),
            !old(self).is_finished() && r is Err ==> final(self).failed(),
            final(self).input() == old(self).input(),
            final(self).handed_out() == old(self).handed_out(),
            old(self).pending().is_prefix_of(final(self).pending()),
            old(self).consistent() ==> final(self).consistent(),
    {
        if self.finished {
            return Err(Unbzip2Error::already_finished());
        }
        let ghost before = self.decoder;
        let r = decoder_try_finish(&mut self.decoder);
        proof { self.lemma_extended(before); }
        match r {
            Ok(()) => {
                self.finished = true;
                Ok(())
            },
            Err(e) => Err(Unbzip2Error::decoder(&e)),
        }
    }

    /// Hands out the decoded bytes not yet handed out and empties the sink.
    pub fn output(&mut self) -> (r: Vec<u8>)
        ensures
            r@ == old(self).pending(),
            final(self).pending() == Seq::<u8>::empty(),
            final(self).handed_out() == old(self).handed_out() + r@,
            final(self).produced() == old(self).produced(),
            final(self).input() == old(self).input(),
            final(self).failed() == old(self).failed(),
            final(self).is_finished() == old(self).is_finished(),
            old(self).consistent() ==> final(self).consistent(),
    {
        let data = decoder_sink(&mut self.decoder);
        let out = data.clone();
        data.truncate(0);
        self.drained = Ghost(self.drained@ + out@);
        assert(self.pending() =~= Seq::<u8>::empty());
        out
    }
}

/// Decompresses `chunks` the way a caller drives a stream: on a fresh decoder,
/// writes each chunk in turn and drains after it, then finishes and drains
/// the rest. On success the drained bytes, in order, are the decompression of
/// all chunks put together, wherever the chunk boundaries fall.
pub fn decode_serially(chunks: &Vec<Vec<u8>>) -> (r: Result<Vec<u8>, Unbzip2Error>)
    ensures
        r is Ok <==> bz_valid(flatten(chunk_views(chunks@))),
        r is Ok ==> r->Ok_0@ == bz_decoded(flatten(chunk_views(chunks@))),
        r is Err ==> r->Err_0.kind() == FailureKind::DecoderFailure,
        r is Err ==> r->Err_0.message_view().len() > 0,
{
    let ghost views = chunk_views(chunks@);
    let mut state = DecoderState::new();
    let mut out: Vec<u8> = Vec::new();
    let mut i: usize = 0;
    assert(views.take(0) =~= Seq::<Seq<u8>>::empty());
    while i < chunks.len()
        invariant
            0 <= i <= chunks@.len(),
            views == chunk_views(chunks@),
            state.consistent(),
            !state.failed(),
            !state.is_finished(),
            state.pending() == Seq::<u8>::empty(),
            state.input() == flatten(views.take(i as int)),
            out@ == state.handed_out(),
        decreases chunks@.len() - i,
    {
        proof {
            assert(views.take(i + 1).drop_last() =~= views.take(i as int));
            lemma_flatten_prefix(views, i + 1);
            if bz_valid(flatten(views)) {
                assert(state.input() + chunks@[i as int]@ == flatten(views.take(i + 1)));
                assert(bz_completable(state.input() + chunks@[i as int]@));
            }
        }
        match state.write(chunks[i].as_slice()) {
            Ok(()) => {},
            Err(e) => return Err(e),
        }
        let mut part = state.output();
        out.append(&mut part);
        i = i + 1;
    }
    assert(views.take(i as int) =~= views);
    match state.finish() {
        Ok(()) => {},
        Err(e) => return Err(e),
    }
    let mut part = state.output();
    out.append(&mut part);
    assert(out@ =~= state.handed_out() + state.pending());
    Ok(out)
}

/// A shared handle on one decompression stream. Clones share the decoder;
/// each operation takes it exclusively or fails at once.
#[derive(Clone)]
pub struct Unbzip2Stream {
    decoder: Arc<Mutex<DecoderState>>,
}

impl Unbzip2Stream {
    /// A handle on a decoder that has seen no input.
    /// The decoder state this handle's shared decoder started from.
    pub closed spec fn initial(&self) -> DecoderState {
        decoder_made_with(*self.decoder)
    }

    pub fn new() -> (r: Self)
        ensures
            r.initial().is_fresh(),
    {
        Unbzip2Stream { decoder: Arc::new(new_decoder_cell(DecoderState::new())) }
    }

    /// Takes the decoder if no other operation holds it; never waits.
    fn lock(&self) -> (r: Result<MutexGuard<'_, DecoderState>, Unbzip2Error>)
        ensures
            r is Err ==> r->Err_0.kind() == FailureKind::LockContention,
            r is Err ==> r->Err_0.message_view().len() > 0,
    {
        match try_acquire(&*self.decoder) {
            Some(g) => Ok(g),
            None => Err(Unbzip2Error::contention()),
        }
    }

    /// Feeds `data` to the shared decoder and hands the handle back.
    pub fn write(self, data: Vec<u8>) -> (r: Result<Self, Unbzip2Error>)
        ensures
            r is Ok ==> r->Ok_0 == self,
            r is Err ==> r->Err_0.message_view().len() > 0,
    {
        {
            let mut g = match self.lock() {
                Ok(g) => g,
                Err(e) => return Err(e),
            };
            match guarded(&mut g).write(data.as_slice()) {
                Ok(()) => {},
                Err(e) => return Err(e),
            }
        }
        Ok(self)
    }

    /// Finishes the shared decoder and hands the handle back.
    pub fn finish(self) -> (r: Result<Self, Unbzip2Error>)
        ensures
            r is Ok ==> r->Ok_0 == self,
            r is Err ==> r->Err_0.message_view().len() > 0,
    {
        {
            let mut g = match self.lock() {
                Ok(g) => g,
                Err(e) => return Err(e),
            };
            match guarded(&mut g).finish() {
                Ok(()) => {},
                Err(e) => return Err(e),
            }
        }
        Ok(self)
    }

    /// Hands out the decoded bytes not yet handed out and empties the sink.
    pub fn output(self) -> (r: Result<Vec<u8>, Unbzip2Error>)
        ensures
            r is Err ==> r->Err_0.kind() == FailureKind::LockContention,
            r is Err ==> r->Err_0.message_view().len() > 0,
    {
        let mut g = match self.lock() {
            Ok(g) => g,
            Err(e) => return Err(e),
        };
        let out = guarded(&mut g).output();
        Ok(out)
    }

    /// Turns the result of a write or a finish into the bytes that it made
    /// available: a failure passes its error on, a success is drained.
    pub fn and_buffer(result: Result<Self, Unbzip2Error>) -> (r: Result<Vec<u8>, Unbzip2Error>)
        ensures
            result is Err ==> r is Err && r->Err_0 == result->Err_0,
            result is Ok && r is Err ==> r->Err_0.kind() == FailureKind::LockContention,
            result is Ok && r is Err ==> r->Err_0.message_view().len() > 0,
    {
        match result {
            Ok(stream) => stream.output(),
            Err(e) => Err(e),
        }
    }
}

/// A new decompression stream.
pub fn unbzip2_create() -> (r: Unbzip2Stream)
    ensures
        r.initial().is_fresh(),
{
    Unbzip2Stream::new()
}

/// One chunk of the decompression protocol: feeds `chunk` through `stream`,
/// then drains what has been decoded.
pub fn unbzip2_chunk(stream: Unbzip2Stream, chunk: Vec<u8>) -> (r: Result<Vec<u8>, Unbzip2Error>)
    ensures
        r is Err ==> r->Err_0.message_view().len() > 0,
{
    Unbzip2Stream::and_buffer(stream.write(chunk))
}

/// The end of the decompression protocol: finishes `stream`, then drains the
/// trailing decoded bytes.
pub fn unbzip2_finish(stream: Unbzip2Stream) -> (r: Result<Vec<u8>, Unbzip2Error>)
    ensures
        r is Err ==> r->Err_0.message_view().len() > 0,
{
    Unbzip2Stream::and_buffer(stream.finish())
}

} // verus!
