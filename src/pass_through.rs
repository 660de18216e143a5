//! A transform that hands back exactly the bytes written to it.

use std::sync::{Arc, Mutex, MutexGuard};
use vstd::prelude::*;

use crate::error::FailureKind;
use crate::shared::{buffer_made_with, guarded, new_buffer_cell, try_acquire};

verus! {

/// The buffer after `chunk` is appended to `buf`.
pub open spec fn appended(buf: Seq<u8>, chunk: Seq<u8>) -> Seq<u8> {
    buf + chunk
}

/// A drain of `buf`: the bytes handed out, and what stays behind.
pub open spec fn drained(buf: Seq<u8>) -> (Seq<u8>, Seq<u8>) {
    (buf, Seq::empty())
}

/// All chunks, one after the other.
pub open spec fn flatten(chunks: Seq<Seq<u8>>) -> Seq<u8>
    decreases chunks.len(),
{
    if chunks.len() == 0 {
        Seq::empty()
    } else {
        flatten(chunks.drop_last()) + chunks.last()
    }
}

/// The chunks before position `i`, put together, begin all chunks put
/// together.
pub proof fn lemma_flatten_prefix(chunks: Seq<Seq<u8>>, i: int)
    requires
        0 <= i <= chunks.len(),
    ensures
        flatten(chunks.take(i)).is_prefix_of(flatten(chunks)),
    decreases chunks.len(),
{
    if i == chunks.len() {
        assert(chunks.take(i) =~= chunks);
        assert(flatten(chunks).subrange(0, flatten(chunks).len() as int) =~= flatten(chunks));
    } else {
        let front = chunks.drop_last();
        lemma_flatten_prefix(front, i);
        assert(front.take(i) =~= chunks.take(i));
        let a = flatten(chunks.take(i));
        let b = flatten(front);
        assert(flatten(chunks) == b + chunks.last());
        assert((b + chunks.last()).subrange(0, a.len() as int) =~= b.subrange(0, a.len() as int));
    }
}

/// Writing `chunks` into a fresh buffer one at a time, each followed by a
/// drain: what each drain hands out, and what the buffer holds at the end.
pub open spec fn serial_run(chunks: Seq<Seq<u8>>) -> (Seq<Seq<u8>>, Seq<u8>)
    decreases chunks.len(),
{
    if chunks.len() == 0 {
        (Seq::empty(), Seq::empty())
    } else {
        let (outs, buf) = serial_run(chunks.drop_last());
        let d = drained(appended(buf, chunks.last()));
        (outs.push(d.0), d.1)
    }
}

/// Writing chunks one at a time into a fresh buffer, each followed by a drain,
/// hands out every byte once and in order: the drains together give all
/// chunks, and nothing is left behind.
pub proof fn lemma_serial_round_trip(chunks: Seq<Seq<u8>>)
    ensures
        flatten(serial_run(chunks).0) == flatten(chunks),
        serial_run(chunks).1 == Seq::<u8>::empty(),
    decreases chunks.len(),
{
    if chunks.len() > 0 {
        let outs = serial_run(chunks).0;
        lemma_serial_round_trip(chunks.drop_last());
        assert(outs.drop_last() =~= serial_run(chunks.drop_last()).0);
        assert(appended(Seq::empty(), chunks.last()) =~= chunks.last());
    }
}

/// The bytes written by a sequence of operations on a buffer, where `Some(c)`
/// writes `c` and `None` drains.
pub open spec fn written(ops: Seq<Option<Seq<u8>>>) -> Seq<u8>
    decreases ops.len(),
{
    if ops.len() == 0 {
        Seq::empty()
    } else {
        match ops.last() {
            Some(c) => written(ops.drop_last()) + c,
            None => written(ops.drop_last()),
        }
    }
}

/// Running `ops` on a fresh buffer, one after the other: every byte the
/// drains handed out, in order, and what the buffer holds at the end.
pub open spec fn replay(ops: Seq<Option<Seq<u8>>>) -> (Seq<u8>, Seq<u8>)
    decreases ops.len(),
{
    if ops.len() == 0 {
        (Seq::empty(), Seq::empty())
    } else {
        let (out, buf) = replay(ops.drop_last());
        match ops.last() {
            Some(c) => (out, appended(buf, c)),
            None => (out + drained(buf).0, drained(buf).1),
        }
    }
}

/// Whatever the order of writes and drains on a fresh buffer, the drains
/// followed by what is left give back exactly the bytes written, in order.
pub proof fn lemma_interleaved_round_trip(ops: Seq<Option<Seq<u8>>>)
    ensures
        replay(ops).0 + replay(ops).1 == written(ops),
    decreases ops.len(),
{
    if ops.len() > 0 {
        lemma_interleaved_round_trip(ops.drop_last());
        let (out, buf) = replay(ops.drop_last());
        match ops.last() {
            Some(c) => {
                assert(out + (buf + c) =~= (out + buf) + c);
            },
            None => {
                assert(out + buf + Seq::<u8>::empty() =~= out + buf);
            },
        }
    } else {
        assert(Seq::<u8>::empty() + Seq::<u8>::empty() =~= Seq::<u8>::empty());
    }
}

/// A drain right after a drain hands out nothing.
pub proof fn lemma_drain_idempotent(buf: Seq<u8>)
    ensures
        drained(drained(buf).1).0 == Seq::<u8>::empty(),
{
}

/// An appendable sequence of bytes that is drained in one step.
pub struct PassThroughBuffer {
    bytes: Vec<u8>,
}

impl View for PassThroughBuffer {
    type V = Seq<u8>;

    closed spec fn view(&self) -> Seq<u8> {
        self.bytes@
    }
}

impl PassThroughBuffer {
    /// An empty buffer.
    pub fn new() -> (r: Self)
        ensures
            r@ == Seq::<u8>::empty(),
    {
        PassThroughBuffer { bytes: Vec::new() }
    }

    /// Appends `data`.
    pub fn write(&mut self, data: &[u8])
        ensures
            final(self)@ == appended(old(self)@, data@),
    {
        let mut i: usize = 0;
        while i < data.len()
            invariant
                0 <= i <= data@.len(),
                self@ == appended(old(self)@, data@.subrange(0, i as int)),
            decreases data@.len() - i,
        {
            self.bytes.push(data[i]);
            i = i + 1;
            assert(data@.subrange(0, i as int) =~= data@.subrange(0, i - 1 as int).push(data@[i - 1]));
        }
        assert(data@.subrange(0, i as int) =~= data@);
    }

    /// Hands out everything written since the last drain and leaves the
    /// buffer empty.
    pub fn output(&mut self) -> (r: Vec<u8>)
        ensures
            (r@, final(self)@) == drained(old(self)@),
    {
        let mut out: Vec<u8> = Vec::new();
        let mut i: usize = 0;
        while i < self.bytes.len()
            invariant
                0 <= i <= self@.len(),
                self@ == old(self)@,
                out@ == self@.subrange(0, i as int),
            decreases self@.len() - i,
        {
            out.push(self.bytes[i]);
            i = i + 1;
            assert(out@ =~= self@.subrange(0, i as int));
        }
        assert(out@ =~= old(self)@);
        self.bytes.clear();
        assert(self@ =~= Seq::<u8>::empty());
        out
    }
}

/// A failed pass-through operation.
#[derive(Clone, Debug)]
pub struct PassThroughError {
    kind: FailureKind,
    message: String,
}

impl PassThroughError {
    /// The failure when the shared buffer is already held.
    pub fn contention() -> (r: Self)
        ensures
            r.kind() == FailureKind::LockContention,
            r.message_view().len() > 0,
    {
        proof { reveal_strlit("the stream is in use by another operation"); }
        PassThroughError {
            kind: FailureKind::LockContention,
            message: String::from_str("the stream is in use by another operation"),
        }
    }

    pub closed spec fn kind_spec(&self) -> FailureKind {
        self.kind
    }

    /// Why the operation failed.
    #[verifier::when_used_as_spec(kind_spec)]
    pub fn kind(&self) -> (r: FailureKind)
        ensures
            r == self.kind_spec(),
    {
        self.kind
    }

    /// The description of the failure.
    pub closed spec fn message_view(&self) -> Seq<char> {
        self.message@
    }

    /// A description of the failure for people.
    pub fn message(&self) -> (r: String)
        ensures
            r@ == self.message_view(),
    {
        self.message.clone()
    }
}

/// A shared handle on one pass-through buffer. Clones share the buffer; each
/// operation takes it exclusively or fails at once.
#[derive(Clone)]
pub struct PassThroughStream {
    vec: Arc<Mutex<PassThroughBuffer>>,
}

impl PassThroughStream {
    /// A handle on a new, empty buffer.
    /// The buffer contents this handle's shared buffer started from.
    pub closed spec fn initial(&self) -> Seq<u8> {
        buffer_made_with(*self.vec)
    }

    pub fn new() -> (r: Self)
        ensures
            r.initial() == Seq::<u8>::empty(),
    {
        PassThroughStream { vec: Arc::new(new_buffer_cell(PassThroughBuffer::new())) }
    }

    /// Takes the buffer if no other operation holds it; never waits.
    fn lock(&self) -> (r: Result<MutexGuard<'_, PassThroughBuffer>, PassThroughError>)
        ensures
            r is Err ==> r->Err_0.kind() == FailureKind::LockContention,
            r is Err ==> r->Err_0.message_view().len() > 0,
    {
        match try_acquire(&*self.vec) {
            Some(g) => Ok(g),
            None => Err(PassThroughError::contention()),
        }
    }

    /// Appends `data` to the shared buffer and hands the handle back.
    pub fn write(self, data: Vec<u8>) -> (r: Result<Self, PassThroughError>)
        ensures
            r is Ok ==> r->Ok_0 == self,
            r is Err ==> r->Err_0.kind() == FailureKind::LockContention,
            r is Err ==> r->Err_0.message_view().len() > 0,
    {
        {
            let mut g = match self.lock() {
                Ok(g) => g,
                Err(e) => return Err(e),
            };
            guarded(&mut g).write(data.as_slice());
        }
        Ok(self)
    }

    /// Hands out everything written to the shared buffer since its last drain
    /// and empties it.
    pub fn output(self) -> (r: Result<Vec<u8>, PassThroughError>)
        ensures
            r is Err ==> r->Err_0.kind() == FailureKind::LockContention,
            r is Err ==> r->Err_0.message_view().len() > 0,
    {
        let mut g = match self.lock() {
            Ok(g) => g,
            Err(e) => return Err(e),
        };
        let out = guarded(&mut g).output();
        Ok(out)
    }

    /// Turns the result of a write into the bytes that it made available: a
    /// failed write passes its error on, a successful one is drained.
    pub fn and_buffer(result: Result<Self, PassThroughError>) -> (r: Result<Vec<u8>, PassThroughError>)
        ensures
            result is Err ==> r is Err && r->Err_0 == result->Err_0,
            result is Ok && r is Err ==> r->Err_0.kind() == FailureKind::LockContention,
            result is Ok && r is Err ==> r->Err_0.message_view().len() > 0,
    {
        match result {
            Ok(stream) => stream.output(),
            Err(e) => Err(e),
        }
    }
}

/// The bytes of each chunk.
pub open spec fn chunk_views(chunks: Seq<Vec<u8>>) -> Seq<Seq<u8>> {
    chunks.map_values(|c: Vec<u8>| c@)
}

/// Runs the pass-through protocol on a fresh buffer: writes each chunk in
/// turn and drains right after it. The drained bytes, in order, are all the
/// chunks put together.
pub fn pass_through_serially(chunks: &Vec<Vec<u8>>) -> (r: Vec<u8>)
    ensures
        r@ == flatten(chunk_views(chunks@)),
{
    let ghost views = chunk_views(chunks@);
    let mut buf = PassThroughBuffer::new();
    let mut out: Vec<u8> = Vec::new();
    let mut i: usize = 0;
    assert(views.take(0) =~= Seq::<Seq<u8>>::empty());
    while i < chunks.len()
        invariant
            0 <= i <= chunks@.len(),
            views == chunk_views(chunks@),
            buf@ == Seq::<u8>::empty(),
            out@ == flatten(views.take(i as int)),
        decreases chunks@.len() - i,
    {
        let chunk = chunks[i].as_slice();
        assert(chunk@ == chunks@[i as int]@);
        buf.write(chunk);
        let mut part = buf.output();
        assert(views.take(i + 1).drop_last() =~= views.take(i as int));
        assert(views[i as int] == chunks@[i as int]@);
        assert(Seq::<u8>::empty() + chunks@[i as int]@ =~= chunks@[i as int]@);
        assert(part@ == views[i as int]);
        out.append(&mut part);
        i = i + 1;
    }
    assert(views.take(i as int) =~= views);
    out
}

/// A new pass-through stream.
pub fn create_pass_through_stream() -> (r: PassThroughStream)
    ensures
        r.initial() == Seq::<u8>::empty(),
{
    PassThroughStream::new()
}

/// One chunk of the pass-through protocol: writes `chunk` through `stream`, then
/// drains the shared buffer.
pub fn handle_pass_through_stream_chunk(stream: PassThroughStream, chunk: Vec<u8>) -> (r: Result<
    Vec<u8>,
    PassThroughError,
>)
    ensures
        r is Err ==> r->Err_0.kind() == FailureKind::LockContention,
        r is Err ==> r->Err_0.message_view().len() > 0,
{
    PassThroughStream::and_buffer(stream.write(chunk))
}

} // verus!
