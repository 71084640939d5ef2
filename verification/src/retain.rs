//! Holding sent stream data until the peer acknowledges it.
//!
//! The engine does not copy the stream data it accepts: it keeps the address it was given,
//! so that it can retransmit, until the peer acknowledges the bytes or the stream closes.
//! A caller is free to drop its buffer the instant a write returns, so the connection keeps
//! the bytes itself and hands the engine an address into *those*.
//!
//! # Why chunks rather than one buffer per stream
//!
//! One growing buffer would be reallocated, moving bytes the engine still refers to. Each
//! accepted write is therefore a buffer of its own, whose address is fixed for as long as
//! it lives, and chunks are dropped whole once fully acknowledged.

use std::collections::{BTreeMap, VecDeque};
use std::sync::Arc;

use vstd::prelude::*;
use vstd::slice::slice_subrange;

use crate::stream::StreamId;

verus! {

/// Another handle to the allocation behind `shared`.
///
/// `Arc::clone` is documented to make another pointer to the same allocation; the claim
/// here is that the two handles therefore hold the same value.
#[verifier::external_body]
fn another_handle(shared: &Arc<[u8]>) -> (handle: Arc<[u8]>)
    ensures
        handle == *shared,
{
    Arc::clone(shared)
}

/// Moves a vector's bytes into a shared allocation.
///
/// `Arc<[u8]>::from` on a vector is documented to allocate a reference-counted slice and move
/// the items into it; the claim here is that it holds the same bytes in the same order.
#[verifier::external_body]
fn shared_from(bytes: Vec<u8>) -> (shared: Arc<[u8]>)
    ensures
        (*shared)@ == bytes@,
{
    Arc::from(bytes)
}

/// A buffer that can be handed over as a shared allocation.
pub trait Buffer: Sized {
    /// Whether handing this buffer over can give `shared`.
    spec fn becomes(self, shared: Arc<[u8]>) -> bool;

    /// Hands the buffer over.
    fn into_shared(self) -> (shared: Arc<[u8]>)
        ensures
            self.becomes(shared),
    ;
}

/// A vector's bytes are moved into an allocation that can be shared.
impl Buffer for Vec<u8> {
    open spec fn becomes(self, shared: Arc<[u8]>) -> bool {
        (*shared)@ == self@
    }

    fn into_shared(self) -> (shared: Arc<[u8]>) {
        shared_from(self)
    }
}

/// A shared allocation is handed over as it is.
impl Buffer for Arc<[u8]> {
    open spec fn becomes(self, shared: Arc<[u8]>) -> bool {
        shared == self
    }

    fn into_shared(self) -> (shared: Arc<[u8]>) {
        self
    }
}

/// A buffer whose ownership the caller hands over, retained without a copy.
///
/// Shareable because one allocation may be offered in pieces: the engine routinely accepts
/// a prefix and leaves the rest, and [`OwnedBytes::split_to`] hands back both halves as
/// handles into the same allocation.
#[derive(Debug)]
pub struct OwnedBytes {
    store: Arc<[u8]>,
    start: usize,
    end: usize,
}

impl View for OwnedBytes {
    type V = Seq<u8>;

    closed spec fn view(&self) -> Seq<u8> {
        (*self.store)@.subrange(self.start as int, self.end as int)
    }
}

impl OwnedBytes {
    /// A handle always refers to a run inside its allocation.
    #[verifier::type_invariant]
    spec fn in_bounds(self) -> bool {
        self.start <= self.end <= (*self.store)@.len()
    }

    /// The allocation the bytes lie in.
    pub closed spec fn allocation(&self) -> Arc<[u8]> {
        self.store
    }

    /// Where in the allocation the first byte lies.
    pub closed spec fn first(&self) -> nat {
        self.start as nat
    }

    /// Where in the allocation the last byte is followed by what is not this handle's.
    pub closed spec fn past(&self) -> nat {
        self.end as nat
    }

    /// Whether this is a handle to the bytes of `whole` from `from` up to `to`, where they
    /// lie in the allocation of `whole`.
    pub open spec fn is_part(self, whole: OwnedBytes, from: int, to: int) -> bool {
        &&& self.allocation() == whole.allocation()
        &&& self.first() == whole.first() + from
        &&& self.past() == whole.first() + to
    }

    /// Takes ownership of a buffer.
    pub fn new<B: Buffer>(bytes: B) -> (owned: Self)
        ensures
            bytes.becomes(owned.allocation()),
            owned@ == (*owned.allocation())@,
            owned.first() == 0,
            owned.past() == owned@.len(),
    {
        let store = bytes.into_shared();
        let end: usize = store.len();
        let owned = Self { store, start: 0, end };
        assert(owned@ =~= (*owned.allocation())@);
        owned
    }

    /// The bytes this handle refers to.
    pub fn as_slice(&self) -> (bytes: &[u8])
        ensures
            bytes@ == self@,
    {
        proof {
            use_type_invariant(self);
        }
        let all: &[u8] = &*self.store;
        slice_subrange(all, self.start, self.end)
    }

    /// How many bytes this handle refers to.
    pub fn len(&self) -> (count: usize)
        ensures
            count == self@.len(),
    {
        proof {
            use_type_invariant(self);
        }
        self.end - self.start
    }

    /// Whether this handle refers to no bytes.
    pub fn is_empty(&self) -> (empty: bool)
        ensures
            empty == (self@.len() == 0),
    {
        self.len() == 0
    }

    /// Splits off the first `n` bytes, leaving the remainder here.
    ///
    /// Asking for more than there is takes everything. Both halves share one allocation, and
    /// neither is copied: they are adjoining runs of the bytes that were split.
    pub fn split_to(&mut self, n: usize) -> (head: Self)
        ensures
            ({
                let whole = *old(self);
                let count = taken(whole@.len(), n as nat) as int;
                &&& head@ == whole@.take(count)
                &&& final(self)@ == whole@.skip(count)
                &&& head.is_part(whole, 0, count)
                &&& final(self).is_part(whole, count, whole@.len() as int)
            }),
    {
        proof {
            use_type_invariant(&*self);
        }
        let len: usize = self.len();
        let n: usize = if n < len {
            n
        } else {
            len
        };
        let head = Self {
            store: another_handle(&self.store),
            start: self.start,
            end: self.start + n,
        };
        self.start = self.start + n;
        assert(head@ =~= old(self)@.take(n as int));
        assert(self@ =~= old(self)@.skip(n as int));
        head
    }
}

/// A second handle to the same bytes, where they are.
impl Clone for OwnedBytes {
    fn clone(&self) -> (copy: Self)
        ensures
            copy == *self,
    {
        proof {
            use_type_invariant(self);
        }
        Self { store: another_handle(&self.store), start: self.start, end: self.end }
    }
}

/// What a chunk's retained bytes are, and where they came from.
enum Payload {
    /// A copy of a borrowed write.
    Copied(Vec<u8>),
    /// A handle to a buffer the caller gave up, retained without a copy.
    Owned(OwnedBytes),
}

impl View for Payload {
    type V = Seq<u8>;

    closed spec fn view(&self) -> Seq<u8> {
        match self {
            Payload::Copied(data) => data@,
            Payload::Owned(bytes) => bytes@,
        }
    }
}

impl Payload {
    /// The caller's handle, where the bytes are not a copy.
    spec fn handle(self) -> Option<OwnedBytes> {
        match self {
            Payload::Copied(_) => None,
            Payload::Owned(bytes) => Some(bytes),
        }
    }

    /// How many bytes were offered from this payload.
    fn len(&self) -> (count: usize)
        ensures
            count == self@.len(),
    {
        match self {
            Payload::Copied(data) => data.len(),
            Payload::Owned(bytes) => bytes.len(),
        }
    }

    /// The bytes that were offered, at the address they keep.
    fn as_slice(&self) -> (bytes: &[u8])
        ensures
            bytes@ == self@,
    {
        match self {
            Payload::Copied(data) => data.as_slice(),
            Payload::Owned(bytes) => bytes.as_slice(),
        }
    }
}

/// One accepted write.
pub struct ChunkView {
    /// Everything that was offered; the tail beyond `len` is kept but means nothing.
    pub bytes: Seq<u8>,
    /// Offset in the stream of the first byte.
    pub start: nat,
    /// How many of the bytes the engine accepted.
    pub len: nat,
    /// The handle whose allocation the bytes lie in, where the caller gave up a buffer.
    /// Without one the bytes are a copy.
    pub handle: Option<OwnedBytes>,
}

impl ChunkView {
    /// Offset one past the last accepted byte.
    pub open spec fn end(self) -> nat {
        self.start + self.len
    }

    /// The bytes the engine accepted.
    pub open spec fn accepted(self) -> Seq<u8> {
        self.bytes.take(self.len as int)
    }

    /// The accepted length is part of what was offered, and the offsets are representable.
    pub open spec fn wf(self) -> bool {
        &&& self.len <= self.bytes.len() <= usize::MAX
        &&& self.start + self.bytes.len() <= u64::MAX
    }
}

/// Everything still held for one stream.
pub struct StreamView {
    /// The chunks, oldest first.
    pub chunks: Seq<ChunkView>,
    /// Offset the next accepted byte will have.
    pub next_offset: nat,
}

impl StreamView {
    /// A stream nothing has been written to.
    pub open spec fn fresh() -> Self {
        StreamView { chunks: Seq::empty(), next_offset: 0 }
    }

    /// Every chunk is well formed and the offset is representable.
    pub open spec fn wf(self) -> bool {
        &&& self.next_offset <= u64::MAX
        &&& forall|i: int| 0 <= i < self.chunks.len() ==> (#[trigger] self.chunks[i]).wf()
    }

    /// The stream with `bytes` on offer behind everything it holds: those behind `handle`, or
    /// a copy.
    pub open spec fn staged(self, bytes: Seq<u8>, handle: Option<OwnedBytes>) -> Self {
        StreamView {
            chunks: self.chunks.push(
                ChunkView { bytes, start: self.next_offset, len: bytes.len(), handle },
            ),
            next_offset: self.next_offset,
        }
    }

    /// The stream once the engine has said how much of the newest chunk it took.
    ///
    /// Where it took nothing the chunk goes. Otherwise the chunk counts for what was taken,
    /// and the next byte follows it; what lies beyond was never handed over.
    pub open spec fn committed(self, accepted: nat) -> Self {
        if self.chunks.len() == 0 {
            self
        } else if accepted == 0 {
            StreamView { chunks: self.chunks.drop_last(), ..self }
        } else {
            let newest = self.chunks.last();
            let len = if accepted <= newest.bytes.len() {
                accepted
            } else {
                newest.bytes.len()
            };
            StreamView {
                chunks: self.chunks.drop_last().push(ChunkView { len, ..newest }),
                next_offset: newest.start + len,
            }
        }
    }

    /// How many bytes are held.
    pub open spec fn held(self) -> nat {
        chunks_held(self.chunks)
    }

    /// How many bytes the chunks occupy, their unused tails included.
    pub open spec fn capacity(self) -> nat {
        chunks_capacity(self.chunks)
    }
}

/// The bytes accepted into a run of chunks.
pub open spec fn chunks_held(chunks: Seq<ChunkView>) -> nat
    decreases chunks.len(),
{
    if chunks.len() == 0 {
        0
    } else {
        chunks_held(chunks.drop_last()) + chunks.last().len
    }
}

/// The bytes a run of chunks occupies.
pub open spec fn chunks_capacity(chunks: Seq<ChunkView>) -> nat
    decreases chunks.len(),
{
    if chunks.len() == 0 {
        0
    } else {
        chunks_capacity(chunks.drop_last()) + chunks.last().bytes.len()
    }
}

/// What is left of a run of chunks once everything below `acked_to` is acknowledged: the
/// leading chunks that end there or before it are gone.
pub open spec fn unacknowledged(chunks: Seq<ChunkView>, acked_to: nat) -> Seq<ChunkView>
    decreases chunks.len(),
{
    if chunks.len() > 0 && chunks[0].end() <= acked_to {
        unacknowledged(chunks.skip(1), acked_to)
    } else {
        chunks
    }
}

/// What is held for a stream, which is nothing at all for one never written to.
pub open spec fn stream_of(streams: Map<int, StreamView>, stream: int) -> StreamView {
    if streams.contains_key(stream) {
        streams[stream]
    } else {
        StreamView::fresh()
    }
}

/// The retained data once `bytes` have been staged on a stream: those behind `handle`, or a
/// copy. Staging nothing changes nothing.
pub open spec fn after_stage(
    streams: Map<int, StreamView>,
    stream: int,
    bytes: Seq<u8>,
    handle: Option<OwnedBytes>,
) -> Map<int, StreamView> {
    if bytes.len() == 0 {
        streams
    } else {
        streams.insert(stream, stream_of(streams, stream).staged(bytes, handle))
    }
}

/// The retained data once the engine has taken `accepted` of the newest chunk on a stream.
pub open spec fn after_commit(
    streams: Map<int, StreamView>,
    stream: int,
    accepted: nat,
) -> Map<int, StreamView> {
    if streams.contains_key(stream) {
        streams.insert(stream, streams[stream].committed(accepted))
    } else {
        streams
    }
}

/// The retained data once the peer has acknowledged everything below `acked_to` on a
/// stream. However much that releases, the stream is numbered on from where it stood.
pub open spec fn after_acknowledge(
    streams: Map<int, StreamView>,
    stream: int,
    acked_to: nat,
) -> Map<int, StreamView> {
    if streams.contains_key(stream) {
        let left = unacknowledged(streams[stream].chunks, acked_to);
        streams.insert(stream, StreamView { chunks: left, ..streams[stream] })
    } else {
        streams
    }
}

/// The sum of a measure over every stream.
pub open spec fn sum_over(streams: Map<int, StreamView>, measure: spec_fn(StreamView) -> nat) -> nat
    decreases streams.dom().len(),
    when streams.dom().finite()
{
    if streams.dom().len() == 0 {
        0
    } else {
        let stream = streams.dom().choose();
        measure(streams[stream]) + sum_over(streams.remove(stream), measure)
    }
}

/// How many bytes are held, across every stream.
pub open spec fn held_total(streams: Map<int, StreamView>) -> nat {
    sum_over(streams, |stream: StreamView| stream.held())
}

/// How many bytes the chunks of every stream occupy, their unused tails included.
pub open spec fn capacity_total(streams: Map<int, StreamView>) -> nat {
    sum_over(streams, |stream: StreamView| stream.capacity())
}

/// One run of bytes made of several, in order.
pub open spec fn joined(ranges: Seq<&[u8]>) -> Seq<u8>
    decreases ranges.len(),
{
    if ranges.len() == 0 {
        Seq::empty()
    } else {
        joined(ranges.drop_last()) + ranges.last()@
    }
}

/// One accepted write, held at a fixed address.
struct Chunk {
    /// The bytes, which are never reallocated, moved or shrunk while the chunk lives.
    data: Payload,
    /// Offset in the stream of this chunk's first byte.
    start: u64,
    /// How many of the bytes the engine accepted.
    ///
    /// Separate from the length of `data` because the engine routinely takes less than it
    /// was offered. Shrinking the allocation to fit would move bytes it still refers to, so
    /// the tail is left allocated and unused until the chunk is released.
    len: usize,
}

impl View for Chunk {
    type V = ChunkView;

    closed spec fn view(&self) -> ChunkView {
        ChunkView {
            bytes: self.data@,
            start: self.start as nat,
            len: self.len as nat,
            handle: self.data.handle(),
        }
    }
}

impl Chunk {
    /// Offset one past this chunk's last accepted byte.
    fn end(&self) -> (end: u64)
        requires
            self@.wf(),
        ensures
            end == self@.end(),
    {
        self.start + self.len as u64
    }
}

/// Everything still held for one stream.
struct Stream {
    chunks: VecDeque<Chunk>,
    next_offset: u64,
}

impl View for Stream {
    type V = StreamView;

    closed spec fn view(&self) -> StreamView {
        StreamView {
            chunks: self.chunks@.map_values(|chunk: Chunk| chunk@),
            next_offset: self.next_offset as nat,
        }
    }
}

impl Stream {
    /// A stream nothing has been written to.
    fn new() -> (stream: Self)
        ensures
            stream@ == StreamView::fresh(),
    {
        let stream = Stream { chunks: VecDeque::new(), next_offset: 0 };
        assert(stream@.chunks =~= StreamView::fresh().chunks);
        stream
    }

    /// Puts a chunk on offer behind everything held.
    fn stage(&mut self, data: Payload)
        ensures
            final(self)@ == old(self)@.staged(data@, data.handle()),
    {
        let len: usize = data.len();
        self.chunks.push_back(Chunk { data, start: self.next_offset, len });
        assert(self@.chunks =~= old(self)@.staged(data@, data.handle()).chunks);
    }

    /// Records how much of the newest chunk was taken.
    fn commit(&mut self, accepted: usize)
        requires
            old(self)@.wf(),
        ensures
            final(self)@ == old(self)@.committed(accepted as nat),
            final(self)@.wf(),
    {
        let ghost before = self@;
        match self.chunks.pop_back() {
            None => {},
            Some(chunk) => {
                assert(chunk@ == before.chunks.last());
                assert(self@.chunks =~= before.chunks.drop_last());
                assert(before.chunks.last().wf());
                if accepted > 0 {
                    let offered: usize = chunk.data.len();
                    let len: usize = if accepted <= offered {
                        accepted
                    } else {
                        offered
                    };
                    let kept = Chunk { data: chunk.data, start: chunk.start, len };
                    self.next_offset = kept.end();
                    self.chunks.push_back(kept);
                    assert(self@.chunks =~= before.committed(accepted as nat).chunks);
                }
                assert forall|i: int| 0 <= i < self@.chunks.len() implies (
                #[trigger] self@.chunks[i]).wf() by {
                    if i < before.chunks.len() - 1 {
                        assert(self@.chunks[i] == before.chunks[i]);
                    }
                }
            },
        }
    }

    /// Releases the leading chunks that end at `acked_to` or before it.
    fn release(&mut self, acked_to: u64)
        requires
            old(self)@.wf(),
        ensures
            final(self)@.chunks == unacknowledged(old(self)@.chunks, acked_to as nat),
            final(self)@.next_offset == old(self)@.next_offset,
            final(self)@.wf(),
    {
        while self.chunks.len() > 0
            invariant
                self@.wf(),
                self@.next_offset == old(self)@.next_offset,
                unacknowledged(self@.chunks, acked_to as nat) == unacknowledged(
                    old(self)@.chunks,
                    acked_to as nat,
                ),
            ensures
                self@.wf(),
                self@.next_offset == old(self)@.next_offset,
                self@.chunks == unacknowledged(old(self)@.chunks, acked_to as nat),
            decreases self.chunks.len(),
        {
            let ghost before = self@;
            assert(before.chunks[0] == self.chunks@[0]@);
            assert(before.chunks[0].wf());
            let end: u64 = self.chunks[0].end();
            if end > acked_to {
                break;
            }
            let _ = self.chunks.pop_front();
            assert(self@.chunks =~= before.chunks.skip(1));
            assert forall|i: int| 0 <= i < self@.chunks.len() implies (
            #[trigger] self@.chunks[i]).wf() by {
                assert(self@.chunks[i] == before.chunks[i + 1]);
            }
        }
    }

    /// How many bytes are held for this stream.
    fn held(&self) -> (count: usize)
        requires
            self@.held() <= usize::MAX,
        ensures
            count == self@.held(),
    {
        let mut total: usize = 0;
        let mut at: usize = 0;
        let ghost chunks = self@.chunks;
        assert(chunks.take(0) =~= Seq::empty());
        while at < self.chunks.len()
            invariant
                at <= self.chunks.len(),
                chunks == self@.chunks,
                chunks.len() == self.chunks@.len(),
                total == chunks_held(chunks.take(at as int)),
                chunks_held(chunks) <= usize::MAX,
            decreases self.chunks.len() - at,
        {
            proof {
                let done = chunks.take(at + 1);
                assert(done.drop_last() =~= chunks.take(at as int));
                assert(done.last() == self.chunks@[at as int]@);
                lemma_held_prefix(chunks, at + 1);
            }
            total = total + self.chunks[at].len;
            at += 1;
        }
        assert(chunks.take(at as int) =~= chunks);
        total
    }

    /// How many bytes this stream's chunks occupy.
    fn capacity(&self) -> (count: usize)
        requires
            self@.capacity() <= usize::MAX,
        ensures
            count == self@.capacity(),
    {
        let mut total: usize = 0;
        let mut at: usize = 0;
        let ghost chunks = self@.chunks;
        assert(chunks.take(0) =~= Seq::empty());
        while at < self.chunks.len()
            invariant
                at <= self.chunks.len(),
                chunks == self@.chunks,
                chunks.len() == self.chunks@.len(),
                total == chunks_capacity(chunks.take(at as int)),
                chunks_capacity(chunks) <= usize::MAX,
            decreases self.chunks.len() - at,
        {
            proof {
                let done = chunks.take(at + 1);
                assert(done.drop_last() =~= chunks.take(at as int));
                assert(done.last() == self.chunks@[at as int]@);
                lemma_capacity_prefix(chunks, at + 1);
            }
            total = total + self.chunks[at].data.len();
            at += 1;
        }
        assert(chunks.take(at as int) =~= chunks);
        total
    }
}

/// A prefix of a run of chunks holds no more than the whole.
proof fn lemma_held_prefix(chunks: Seq<ChunkView>, count: int)
    requires
        0 <= count <= chunks.len(),
    ensures
        chunks_held(chunks.take(count)) <= chunks_held(chunks),
    decreases chunks.len(),
{
    if count == chunks.len() {
        assert(chunks.take(count) =~= chunks);
    } else {
        lemma_held_prefix(chunks.drop_last(), count);
        assert(chunks.drop_last().take(count) =~= chunks.take(count));
    }
}

/// A prefix of a run of chunks occupies no more than the whole.
proof fn lemma_capacity_prefix(chunks: Seq<ChunkView>, count: int)
    requires
        0 <= count <= chunks.len(),
    ensures
        chunks_capacity(chunks.take(count)) <= chunks_capacity(chunks),
    decreases chunks.len(),
{
    if count == chunks.len() {
        assert(chunks.take(count) =~= chunks);
    } else {
        lemma_capacity_prefix(chunks.drop_last(), count);
        assert(chunks.drop_last().take(count) =~= chunks.take(count));
    }
}

/// Stream numbers are ordered as integers are, which is what a map keyed by them rests on.
proof fn lemma_stream_order()
    ensures
        vstd::laws_cmp::obeys_cmp::<i64>(),
        vstd::std_specs::btree::key_obeys_cmp_spec::<i64>(),
{
    broadcast use vstd::laws_cmp::group_laws_cmp;
    broadcast use vstd::std_specs::btree::group_btree_axioms;
}

/// Per-connection retention of sent stream data.
pub struct Retained {
    streams: BTreeMap<i64, Stream>,
}

impl View for Retained {
    type V = Map<int, StreamView>;

    closed spec fn view(&self) -> Map<int, StreamView> {
        Map::new(
            |stream: int| i64::MIN <= stream <= i64::MAX && self.streams@.contains_key(stream as i64),
            |stream: int| self.streams@[stream as i64]@,
        )
    }
}

/// Puts the ranges together, up to `limit` bytes of them.
fn join(ranges: &[&[u8]], limit: usize) -> (buffer: Vec<u8>)
    ensures
        joined(ranges@).len() <= limit ==> buffer@ == joined(ranges@),
        joined(ranges@).len() > limit ==> buffer@ == joined(ranges@).take(limit as int),
{
    let mut buffer: Vec<u8> = Vec::new();
    let mut at: usize = 0;
    let mut room: usize = limit;
    assert(joined(ranges@.take(0)) =~= Seq::<u8>::empty());
    while at < ranges.len()
        invariant
            at <= ranges@.len(),
            room + buffer@.len() == limit,
            joined(ranges@.take(at as int)).len() <= limit ==> buffer@ == joined(
                ranges@.take(at as int),
            ),
            joined(ranges@.take(at as int)).len() > limit ==> buffer@ == joined(
                ranges@.take(at as int),
            ).take(limit as int),
        decreases ranges.len() - at,
    {
        let range: &[u8] = ranges[at];
        let ghost before = joined(ranges@.take(at as int));
        let ghost held = buffer@;
        proof {
            let done = ranges@.take(at + 1);
            assert(done.drop_last() =~= ranges@.take(at as int));
            assert(joined(done) == before + range@);
        }
        if range.len() <= room {
            buffer.extend_from_slice(range);
            room = room - range.len();
            assert(buffer@ =~= held + range@);
            proof {
                if before.len() > limit {
                    assert(buffer@ =~= (before + range@).take(limit as int));
                } else if before.len() + range@.len() > limit {
                    assert(false);
                }
            }
        } else {
            buffer.extend_from_slice(slice_subrange(range, 0, room));
            assert(buffer@ =~= held + range@.take(room as int));
            assert(buffer@ =~= (before + range@).take(limit as int));
            room = 0;
        }
        at += 1;
    }
    assert(ranges@.take(at as int) =~= ranges@);
    buffer
}

impl Retained {
    /// Finitely many streams are held, and every chunk is well formed.
    pub open spec fn wf(&self) -> bool {
        &&& self@.dom().finite()
        &&& forall|stream: int| #[trigger] self@.contains_key(stream) ==> self@[stream].wf()
    }

    /// Nothing held.
    pub fn new() -> (retained: Self)
        ensures
            retained@ == Map::<int, StreamView>::empty(),
            retained.wf(),
    {
        let retained = Self { streams: BTreeMap::new() };
        assert(retained@ =~= Map::empty());
        retained
    }

    /// What the map says of one stream.
    proof fn lemma_lookup(&self, stream: i64)
        ensures
            self@.contains_key(stream as int) == self.streams@.contains_key(stream),
            self.streams@.contains_key(stream) ==> self@[stream as int]
                == self.streams@[stream]@,
    {
    }

    /// Takes a stream out of the map, or makes a fresh one.
    fn take_stream(&mut self, stream: StreamId) -> (taken: Stream)
        ensures
            taken@ == stream_of(old(self)@, stream@),
            final(self)@ == old(self)@.remove(stream@),
    {
        proof {
            lemma_stream_order();
            self.lemma_lookup(stream@ as i64);
        }
        broadcast use vstd::std_specs::btree::group_btree_axioms;

        let id: i64 = stream.get();
        let taken = match self.streams.remove(&id) {
            Some(taken) => taken,
            None => Stream::new(),
        };
        assert(self@ =~= old(self)@.remove(stream@));
        taken
    }

    /// Puts a stream back into the map.
    fn put_stream(&mut self, stream: StreamId, put: Stream)
        ensures
            final(self)@ == old(self)@.insert(stream@, put@),
    {
        proof {
            lemma_stream_order();
        }
        broadcast use vstd::std_specs::btree::group_btree_axioms;

        let id: i64 = stream.get();
        let _ = self.streams.insert(id, put);
        assert(self@ =~= old(self)@.insert(stream@, put@));
    }

    /// Whether anything has been recorded for a stream.
    fn knows(&self, stream: StreamId) -> (known: bool)
        ensures
            known == self@.contains_key(stream@),
    {
        proof {
            lemma_stream_order();
        }
        broadcast use vstd::std_specs::btree::group_btree_axioms;

        let id: i64 = stream.get();
        self.streams.contains_key(&id)
    }

    /// Puts a payload on offer.
    fn stage(&mut self, stream: StreamId, data: Payload)
        requires
            old(self).wf(),
            data@.len() > 0,
            data@.len() <= usize::MAX,
            stream_of(old(self)@, stream@).next_offset + data@.len() <= u64::MAX,
        ensures
            final(self).wf(),
            final(self)@ == after_stage(old(self)@, stream@, data@, data.handle()),
    {
        let ghost before = stream_of(self@, stream@);
        let mut entry = self.take_stream(stream);
        entry.stage(data);
        self.put_stream(stream, entry);
        proof {
            assert(self@ =~= after_stage(old(self)@, stream@, data@, data.handle()));
            assert(before.wf());
            let after = before.staged(data@, data.handle());
            assert forall|i: int| 0 <= i < after.chunks.len() implies (
            #[trigger] after.chunks[i]).wf() by {
                if i < before.chunks.len() {
                    assert(after.chunks[i] == before.chunks[i]);
                }
            }
        }
    }

    /// Copies one or more ranges as a single contiguous chunk, and says how long it is.
    ///
    /// The ranges are joined rather than kept apart: the copy has to happen regardless, and
    /// one chunk leaves a single length to account for on acknowledgement. Returns `None`
    /// for empty input, for which there is nothing to retain.
    pub fn stage_many(&mut self, stream: StreamId, ranges: &[&[u8]]) -> (staged: Option<usize>)
        requires
            old(self).wf(),
            joined(ranges@).len() <= usize::MAX,
            stream_of(old(self)@, stream@).next_offset + joined(ranges@).len() <= u64::MAX,
        ensures
            final(self).wf(),
            final(self)@ == after_stage(old(self)@, stream@, joined(ranges@), None),
            match staged {
                Some(len) => len == joined(ranges@).len() && len > 0,
                None => joined(ranges@).len() == 0,
            },
    {
        let (staged, _) = self.stage_many_bounded(stream, ranges, usize::MAX);
        staged
    }

    /// Copies at most `limit` bytes of the ranges as a single contiguous chunk.
    ///
    /// Says how long the chunk is, and whether it holds everything that was offered.
    pub fn stage_many_bounded(&mut self, stream: StreamId, ranges: &[&[u8]], limit: usize) -> (r: (
        Option<usize>,
        bool,
    ))
        requires
            old(self).wf(),
            joined(ranges@).len() <= usize::MAX,
            stream_of(old(self)@, stream@).next_offset + joined(ranges@).len() <= u64::MAX,
        ensures
            final(self).wf(),
            r.1 == (joined(ranges@).len() <= limit),
            ({
                let bytes = if r.1 {
                    joined(ranges@)
                } else {
                    joined(ranges@).take(limit as int)
                };
                &&& final(self)@ == after_stage(old(self)@, stream@, bytes, None)
                &&& match r.0 {
                    Some(len) => len == bytes.len() && len > 0,
                    None => bytes.len() == 0,
                }
            }),
    {
        let total: usize = total_len(ranges);
        let buffer: Vec<u8> = join(ranges, limit);
        let len: usize = buffer.len();
        if len == 0 {
            return (None, total <= limit);
        }
        self.stage(stream, Payload::Copied(buffer));
        (Some(len), total <= limit)
    }

    /// Retains an owned buffer without copying it, and says how long it is.
    ///
    /// What is held from here on is the handle itself, and the bytes where they already are.
    /// Returns `None` for an empty buffer, for which there is nothing to retain.
    pub fn stage_owned(&mut self, stream: StreamId, bytes: OwnedBytes) -> (staged: Option<usize>)
        requires
            old(self).wf(),
            stream_of(old(self)@, stream@).next_offset + bytes@.len() <= u64::MAX,
        ensures
            final(self).wf(),
            final(self)@ == after_stage(old(self)@, stream@, bytes@, Some(bytes)),
            match staged {
                Some(len) => len == bytes@.len() && len > 0,
                None => bytes@.len() == 0,
            },
    {
        let total: usize = bytes.len();
        if total == 0 {
            return None;
        }
        self.stage(stream, Payload::Owned(bytes));
        Some(total)
    }

    /// Records how much of the staged chunk the engine accepted.
    ///
    /// Anything beyond `accepted` was never handed over, so it does not count towards the
    /// stream's offset: the caller will submit those bytes again. The allocation is not
    /// shrunk to fit, because the engine was given its address a moment ago.
    pub fn commit(&mut self, stream: StreamId, accepted: usize)
        requires
            old(self).wf(),
        ensures
            final(self).wf(),
            final(self)@ == after_commit(old(self)@, stream@, accepted as nat),
    {
        if !self.knows(stream) {
            return;
        }
        let mut entry = self.take_stream(stream);
        entry.commit(accepted);
        self.put_stream(stream, entry);
        assert(self@ =~= after_commit(old(self)@, stream@, accepted as nat));
    }

    /// The newest staged write, at the address the engine was given for it, and how much of
    /// it was accepted.
    pub fn last_pointer(&self, stream: StreamId) -> (newest: Option<(&[u8], usize)>)
        ensures
            match newest {
                Some((bytes, len)) => {
                    let chunks = stream_of(self@, stream@).chunks;
                    chunks.len() > 0 && bytes@ == chunks.last().bytes && len == chunks.last().len
                },
                None => stream_of(self@, stream@).chunks.len() == 0,
            },
    {
        proof {
            lemma_stream_order();
        }
        broadcast use vstd::std_specs::btree::group_btree_axioms;

        let id: i64 = stream.get();
        match self.streams.get(&id) {
            None => None,
            Some(entry) => {
                assert(entry@ == stream_of(self@, stream@));
                let count: usize = entry.chunks.len();
                if count == 0 {
                    None
                } else {
                    let newest = &entry.chunks[count - 1];
                    Some((newest.data.as_slice(), newest.len))
                }
            },
        }
    }

    /// The oldest write still held for a stream, at its fixed address.
    pub fn first_pointer(&self, stream: StreamId) -> (oldest: Option<(&[u8], usize)>)
        ensures
            match oldest {
                Some((bytes, len)) => {
                    let chunks = stream_of(self@, stream@).chunks;
                    chunks.len() > 0 && bytes@ == chunks[0].bytes && len == chunks[0].len
                },
                None => stream_of(self@, stream@).chunks.len() == 0,
            },
    {
        proof {
            lemma_stream_order();
        }
        broadcast use vstd::std_specs::btree::group_btree_axioms;

        let id: i64 = stream.get();
        match self.streams.get(&id) {
            None => None,
            Some(entry) => {
                assert(entry@ == stream_of(self@, stream@));
                if entry.chunks.len() == 0 {
                    None
                } else {
                    let oldest = &entry.chunks[0];
                    Some((oldest.data.as_slice(), oldest.len))
                }
            },
        }
    }

    /// Offset the next accepted byte of a stream will have.
    pub fn next_offset(&self, stream: StreamId) -> (offset: u64)
        ensures
            offset == stream_of(self@, stream@).next_offset,
    {
        proof {
            lemma_stream_order();
        }
        broadcast use vstd::std_specs::btree::group_btree_axioms;

        let id: i64 = stream.get();
        match self.streams.get(&id) {
            None => 0,
            Some(entry) => {
                assert(entry@ == stream_of(self@, stream@));
                entry.next_offset
            },
        }
    }

    /// Releases everything acknowledged up to `offset + len` on a stream.
    ///
    /// A stream whose every byte is acknowledged holds nothing, but keeps its place in the
    /// numbering: what is written next carries the offsets that follow.
    pub fn acknowledge(&mut self, stream: StreamId, offset: u64, len: u64)
        requires
            old(self).wf(),
        ensures
            final(self).wf(),
            final(self)@ == after_acknowledge(
                old(self)@,
                stream@,
                if offset + len <= u64::MAX {
                    (offset + len) as nat
                } else {
                    u64::MAX as nat
                },
            ),
    {
        if !self.knows(stream) {
            return;
        }
        let acked_to: u64 = offset.saturating_add(len);
        let mut entry = self.take_stream(stream);
        entry.release(acked_to);
        self.put_stream(stream, entry);
        assert(self@ =~= after_acknowledge(old(self)@, stream@, acked_to as nat));
    }

    /// Releases everything held for a stream, which a closed stream no longer needs.
    pub fn forget(&mut self, stream: StreamId)
        requires
            old(self).wf(),
        ensures
            final(self).wf(),
            final(self)@ == old(self)@.remove(stream@),
    {
        let _ = self.take_stream(stream);
    }
}

impl Retained {
    /// Bytes currently held, across every stream.
    ///
    /// A caller that never sees acknowledgements processed will watch this grow.
    pub fn bytes_held(&self) -> (count: usize)
        requires
            held_total(self@) <= usize::MAX,
        ensures
            count == held_total(self@),
    {
        proof {
            lemma_stream_order();
        }
        broadcast use vstd::std_specs::btree::group_btree_axioms;

        let ghost measure = |stream: StreamView| stream.held();
        let values = self.streams.values();
        let ghost keys = choose|keys: Seq<i64>|
            {
                &&& vstd::std_specs::btree::increasing_seq(keys)
                &&& keys.to_set() == self.streams@.dom()
                &&& keys.no_duplicates()
                &&& vstd::std_specs::iter::IteratorSpec::remaining(&values) == keys.map(
                    |i: int, key: i64| &self.streams@[key],
                )
            };
        proof {
            self.lemma_finite();
            lemma_sum_of_keys(keys, self@, measure);
            assert(keys.take(0) =~= Seq::empty());
        }
        let mut total: usize = 0;
        for stream in it: values
            invariant
                it.seq() == keys.map(|i: int, key: i64| &self.streams@[key]),
                keys.to_set() == self.streams@.dom(),
                measure == (|stream: StreamView| stream.held()),
                total == sum_of_keys(keys.take(it.index()), self@, measure),
                sum_of_keys(keys, self@, measure) <= usize::MAX,
        {
            proof {
                let at = it.index();
                let done = keys.take(at + 1);
                assert(done.drop_last() =~= keys.take(at));
                assert(done.last() == keys[at]);
                assert(keys.to_set().contains(keys[at]));
                assert(stream@ == self@[keys[at] as int]);
                lemma_sum_of_prefix(keys, at + 1, self@, measure);
            }
            total = total + stream.held();
        }
        assert(keys.take(keys.len() as int) =~= keys);
        total
    }

    /// Bytes the retained chunks occupy, across every stream.
    pub fn backing_capacity(&self) -> (count: usize)
        requires
            capacity_total(self@) <= usize::MAX,
        ensures
            count == capacity_total(self@),
    {
        proof {
            lemma_stream_order();
        }
        broadcast use vstd::std_specs::btree::group_btree_axioms;

        let ghost measure = |stream: StreamView| stream.capacity();
        let values = self.streams.values();
        let ghost keys = choose|keys: Seq<i64>|
            {
                &&& vstd::std_specs::btree::increasing_seq(keys)
                &&& keys.to_set() == self.streams@.dom()
                &&& keys.no_duplicates()
                &&& vstd::std_specs::iter::IteratorSpec::remaining(&values) == keys.map(
                    |i: int, key: i64| &self.streams@[key],
                )
            };
        proof {
            self.lemma_finite();
            lemma_sum_of_keys(keys, self@, measure);
            assert(keys.take(0) =~= Seq::empty());
        }
        let mut total: usize = 0;
        for stream in it: values
            invariant
                it.seq() == keys.map(|i: int, key: i64| &self.streams@[key]),
                keys.to_set() == self.streams@.dom(),
                measure == (|stream: StreamView| stream.capacity()),
                total == sum_of_keys(keys.take(it.index()), self@, measure),
                sum_of_keys(keys, self@, measure) <= usize::MAX,
        {
            proof {
                let at = it.index();
                let done = keys.take(at + 1);
                assert(done.drop_last() =~= keys.take(at));
                assert(done.last() == keys[at]);
                assert(keys.to_set().contains(keys[at]));
                assert(stream@ == self@[keys[at] as int]);
                lemma_sum_of_prefix(keys, at + 1, self@, measure);
            }
            total = total + stream.capacity();
        }
        assert(keys.take(keys.len() as int) =~= keys);
        total
    }

    /// Only finitely many streams are held.
    proof fn lemma_finite(&self)
        ensures
            self@.dom().finite(),
            self@.dom() == self.streams@.dom().map(|key: i64| key as int),
    {
        broadcast use vstd::std_specs::btree::group_btree_axioms;

        let keys = self.streams@.dom();
        let numbers = keys.map(|key: i64| key as int);
        assert forall|stream: int| self@.dom().contains(stream) == numbers.contains(stream) by {
            if self@.dom().contains(stream) {
                assert(keys.contains(stream as i64));
            }
        }
        assert(self@.dom() =~= numbers);
        keys.lemma_map_finite(|key: i64| key as int);
    }
}

/// The sum of a measure over the streams named by a run of keys.
spec fn sum_of_keys(
    keys: Seq<i64>,
    streams: Map<int, StreamView>,
    measure: spec_fn(StreamView) -> nat,
) -> nat
    decreases keys.len(),
{
    if keys.len() == 0 {
        0
    } else {
        sum_of_keys(keys.drop_last(), streams, measure) + measure(streams[keys.last() as int])
    }
}

/// Any stream can be taken out of a sum first.
pub proof fn lemma_sum_remove(
    streams: Map<int, StreamView>,
    stream: int,
    measure: spec_fn(StreamView) -> nat,
)
    requires
        streams.dom().finite(),
        streams.contains_key(stream),
    ensures
        sum_over(streams, measure) == measure(streams[stream]) + sum_over(
            streams.remove(stream),
            measure,
        ),
    decreases streams.dom().len(),
{
    let chosen = streams.dom().choose();
    assert(streams.dom().contains(stream));
    assert(streams.dom().len() > 0) by {
        vstd::set_lib::lemma_set_empty_equivalency_len(streams.dom());
    }
    assert(streams.dom().contains(chosen));
    if chosen != stream {
        lemma_sum_remove(streams.remove(chosen), stream, measure);
        lemma_sum_remove(streams.remove(stream), chosen, measure);
        assert(streams.remove(chosen).remove(stream) =~= streams.remove(stream).remove(chosen));
    }
}

/// Streams outside a run of keys do not matter to its sum.
proof fn lemma_sum_of_keys_without(
    keys: Seq<i64>,
    streams: Map<int, StreamView>,
    stream: int,
    measure: spec_fn(StreamView) -> nat,
)
    requires
        forall|i: int| 0 <= i < keys.len() ==> keys[i] as int != stream && streams.contains_key(
            #[trigger] keys[i] as int,
        ),
    ensures
        sum_of_keys(keys, streams.remove(stream), measure) == sum_of_keys(keys, streams, measure),
    decreases keys.len(),
{
    if keys.len() > 0 {
        lemma_sum_of_keys_without(keys.drop_last(), streams, stream, measure);
        assert(streams.contains_key(keys[keys.len() - 1] as int));
    }
}

/// A run of keys that names every stream once sums to the whole.
proof fn lemma_sum_of_keys(
    keys: Seq<i64>,
    streams: Map<int, StreamView>,
    measure: spec_fn(StreamView) -> nat,
)
    requires
        keys.no_duplicates(),
        streams.dom().finite(),
        streams.dom() == keys.to_set().map(|key: i64| key as int),
    ensures
        sum_of_keys(keys, streams, measure) == sum_over(streams, measure),
    decreases keys.len(),
{
    if keys.len() == 0 {
        assert(keys.to_set() =~= Set::empty());
        assert(streams.dom() =~= Set::empty());
    } else {
        let rest = keys.drop_last();
        let last = keys.last();
        let number = |key: i64| key as int;
        assert(keys.to_set().contains(last));
        assert(streams.dom().contains(last as int));
        lemma_sum_remove(streams, last as int, measure);
        assert forall|i: int| 0 <= i < rest.len() implies rest[i] as int != last as int
            && streams.contains_key(#[trigger] rest[i] as int) by {
            assert(rest[i] == keys[i]);
            assert(keys[i] != keys[keys.len() - 1]);
            assert(keys.to_set().contains(keys[i]));
            assert(keys.to_set().map(number).contains(number(keys[i])));
        }
        lemma_sum_of_keys_without(rest, streams, last as int, measure);
        assert forall|stream: int|
            streams.remove(last as int).dom().contains(stream) == rest.to_set().map(
                number,
            ).contains(stream) by {
            if streams.remove(last as int).dom().contains(stream) {
                let key = choose|key: i64| keys.to_set().contains(key) && number(key) == stream;
                assert(keys.contains(key));
                let at = choose|at: int| 0 <= at < keys.len() && keys[at] == key;
                assert(rest[at] == key);
                assert(rest.to_set().contains(key));
            }
            if rest.to_set().map(number).contains(stream) {
                let key = choose|key: i64| rest.to_set().contains(key) && number(key) == stream;
                let at = choose|at: int| 0 <= at < rest.len() && rest[at] == key;
                assert(keys[at] == key);
                assert(keys.to_set().contains(key));
                assert(keys[at] != keys[keys.len() - 1]);
                assert(keys.to_set().map(number).contains(number(key)));
            }
        }
        assert(streams.remove(last as int).dom() =~= rest.to_set().map(number));
        assert(rest.no_duplicates());
        lemma_sum_of_keys(rest, streams.remove(last as int), measure);
    }
}

/// The first keys sum to no more than all of them.
proof fn lemma_sum_of_prefix(
    keys: Seq<i64>,
    count: int,
    streams: Map<int, StreamView>,
    measure: spec_fn(StreamView) -> nat,
)
    requires
        0 <= count <= keys.len(),
    ensures
        sum_of_keys(keys.take(count), streams, measure) <= sum_of_keys(keys, streams, measure),
    decreases keys.len(),
{
    if count == keys.len() {
        assert(keys.take(count) =~= keys);
    } else {
        lemma_sum_of_prefix(keys.drop_last(), count, streams, measure);
        assert(keys.drop_last().take(count) =~= keys.take(count));
    }
}

/// How many bytes several ranges come to.
fn total_len(ranges: &[&[u8]]) -> (total: usize)
    requires
        joined(ranges@).len() <= usize::MAX,
    ensures
        total == joined(ranges@).len(),
{
    let mut total: usize = 0;
    let mut at: usize = 0;
    assert(joined(ranges@.take(0)) =~= Seq::<u8>::empty());
    while at < ranges.len()
        invariant
            at <= ranges@.len(),
            total == joined(ranges@.take(at as int)).len(),
            joined(ranges@).len() <= usize::MAX,
        decreases ranges.len() - at,
    {
        proof {
            let done = ranges@.take(at + 1);
            assert(done.drop_last() =~= ranges@.take(at as int));
            lemma_joined_prefix(ranges@, at + 1);
        }
        total = total + ranges[at].len();
        at += 1;
    }
    assert(ranges@.take(at as int) =~= ranges@);
    total
}

/// The first ranges come to no more than all of them.
proof fn lemma_joined_prefix(ranges: Seq<&[u8]>, count: int)
    requires
        0 <= count <= ranges.len(),
    ensures
        joined(ranges.take(count)).len() <= joined(ranges).len(),
    decreases ranges.len(),
{
    if count == ranges.len() {
        assert(ranges.take(count) =~= ranges);
    } else {
        lemma_joined_prefix(ranges.drop_last(), count);
        assert(ranges.drop_last().take(count) =~= ranges.take(count));
    }
}

/// The bytes accepted into a run of chunks, in order.
pub open spec fn contents(chunks: Seq<ChunkView>) -> Seq<u8>
    decreases chunks.len(),
{
    if chunks.len() == 0 {
        Seq::empty()
    } else {
        contents(chunks.drop_last()) + chunks.last().accepted()
    }
}

impl StreamView {
    /// Each chunk starts where the one before it ended, and the next byte follows the last.
    pub open spec fn contiguous(self) -> bool {
        &&& forall|i: int| #![trigger self.chunks[i]]
            0 < i < self.chunks.len() ==> self.chunks[i - 1].end() == self.chunks[i].start
        &&& self.chunks.len() > 0 ==> self.chunks.last().end() == self.next_offset
    }

    /// The stream after a whole write: bytes offered, and some prefix of them accepted.
    pub open spec fn written(self, bytes: Seq<u8>, handle: Option<OwnedBytes>, accepted: nat) -> Self {
        self.staged(bytes, handle).committed(accepted)
    }
}

/// How much of an offer an engine that claims to have taken `accepted` bytes took.
pub open spec fn taken(offered: nat, accepted: nat) -> nat {
    if accepted <= offered {
        accepted
    } else {
        offered
    }
}

/// A write adds exactly the accepted prefix behind what was already held, and numbers the
/// stream on from there. What was not accepted leaves no trace.
pub proof fn law_a_write_retains_exactly_what_was_accepted(
    stream: StreamView,
    bytes: Seq<u8>,
    handle: Option<OwnedBytes>,
    accepted: nat,
)
    requires
        bytes.len() > 0,
    ensures
        contents(stream.written(bytes, handle, accepted).chunks) == contents(stream.chunks)
            + bytes.take(taken(bytes.len(), accepted) as int),
        stream.written(bytes, handle, accepted).next_offset == stream.next_offset + taken(
            bytes.len(),
            accepted,
        ),
        stream.written(bytes, handle, accepted).held() == stream.held() + taken(bytes.len(), accepted),
        accepted == 0 ==> stream.written(bytes, handle, accepted) == stream,
{
    let staged = stream.staged(bytes, handle);
    assert(staged.chunks.drop_last() =~= stream.chunks);
    let after = stream.written(bytes, handle, accepted);
    if accepted == 0 {
        assert(bytes.take(0) =~= Seq::empty());
        assert(contents(stream.chunks) + Seq::<u8>::empty() =~= contents(stream.chunks));
    } else {
        assert(after.chunks.drop_last() =~= stream.chunks);
    }
}

/// Offsets run on without a gap: writing and acknowledging both keep a stream contiguous,
/// and a fresh stream is.
pub proof fn law_offsets_stay_contiguous(
    stream: StreamView,
    bytes: Seq<u8>,
    handle: Option<OwnedBytes>,
    accepted: nat,
    acked_to: nat,
)
    requires
        stream.contiguous(),
        bytes.len() > 0,
    ensures
        StreamView::fresh().contiguous(),
        stream.written(bytes, handle, accepted).contiguous(),
        (StreamView { chunks: unacknowledged(stream.chunks, acked_to), ..stream }).contiguous(),
{
    let staged = stream.staged(bytes, handle);
    assert(staged.chunks.drop_last() =~= stream.chunks);
    let after = stream.written(bytes, handle, accepted);
    assert forall|i: int| #![trigger after.chunks[i]] 0 < i < after.chunks.len() implies
        after.chunks[i - 1].end() == after.chunks[i].start by {
        if i < stream.chunks.len() {
            assert(after.chunks[i] == stream.chunks[i]);
            assert(after.chunks[i - 1] == stream.chunks[i - 1]);
        } else {
            assert(after.chunks[i - 1] == stream.chunks.last());
        }
    }
    law_only_acknowledged_chunks_are_released(stream.chunks, acked_to);
    let released = choose|count: int| released_count(stream.chunks, acked_to, count);
    let left = unacknowledged(stream.chunks, acked_to);
    assert forall|i: int| #![trigger left[i]] 0 < i < left.len() implies left[i - 1].end()
        == left[i].start by {
        assert(left[i] == stream.chunks[released + i]);
        assert(left[i - 1] == stream.chunks[released + i - 1]);
    }
}

/// Whether acknowledging everything below `acked_to` releases exactly the first `count`
/// chunks, each of them acknowledged whole.
pub open spec fn released_count(chunks: Seq<ChunkView>, acked_to: nat, count: int) -> bool {
    &&& 0 <= count <= chunks.len()
    &&& unacknowledged(chunks, acked_to) == chunks.skip(count)
    &&& forall|i: int| 0 <= i < count ==> (#[trigger] chunks[i]).end() <= acked_to
    &&& count < chunks.len() ==> chunks[count].end() > acked_to
}

/// A chunk is released only when every one of its bytes is acknowledged, and what is left
/// is the run behind the released ones, unchanged.
pub proof fn law_only_acknowledged_chunks_are_released(chunks: Seq<ChunkView>, acked_to: nat)
    ensures
        exists|count: int| released_count(chunks, acked_to, count),
    decreases chunks.len(),
{
    if chunks.len() > 0 && chunks[0].end() <= acked_to {
        let rest = chunks.skip(1);
        law_only_acknowledged_chunks_are_released(rest, acked_to);
        let count = choose|count: int| released_count(rest, acked_to, count);
        assert(rest.skip(count) =~= chunks.skip(count + 1));
        assert forall|i: int| 0 <= i < count + 1 implies (#[trigger] chunks[i]).end()
            <= acked_to by {
            if i > 0 {
                assert(chunks[i] == rest[i - 1]);
            }
        }
        if count + 1 < chunks.len() {
            assert(chunks[count + 1] == rest[count]);
        }
        assert(released_count(chunks, acked_to, count + 1));
    } else {
        assert(chunks.skip(0) =~= chunks);
        assert(released_count(chunks, acked_to, 0));
    }
}

/// Acknowledging a contiguous stream up to its end releases every chunk of it and nothing of
/// any other, and leaves its numbering where it was.
pub proof fn law_a_full_acknowledgement_releases_the_stream(
    streams: Map<int, StreamView>,
    stream: int,
    acked_to: nat,
)
    requires
        streams.contains_key(stream),
        streams[stream].contiguous(),
        streams[stream].next_offset <= acked_to,
    ensures
        after_acknowledge(streams, stream, acked_to) == streams.insert(
            stream,
            StreamView { chunks: Seq::empty(), ..streams[stream] },
        ),
{
    let chunks = streams[stream].chunks;
    law_only_acknowledged_chunks_are_released(chunks, acked_to);
    let count = choose|count: int| released_count(chunks, acked_to, count);
    if count < chunks.len() {
        lemma_ends_ascend(streams[stream], count);
    }
    assert(unacknowledged(chunks, acked_to) =~= Seq::empty());
}

/// An acknowledgement never moves a stream's numbering, whatever it covers.
pub proof fn law_an_acknowledgement_keeps_the_numbering(
    streams: Map<int, StreamView>,
    stream: int,
    acked_to: nat,
    any: int,
)
    ensures
        stream_of(after_acknowledge(streams, stream, acked_to), any).next_offset == stream_of(
            streams,
            any,
        ).next_offset,
{
}

/// Accepted bytes stay held until an acknowledgement covers them: a chunk that ends beyond
/// what is acknowledged is kept, unchanged.
pub proof fn law_unacknowledged_chunks_stay_held(
    streams: Map<int, StreamView>,
    stream: int,
    acked_to: nat,
    at: int,
)
    requires
        0 <= at < stream_of(streams, stream).chunks.len(),
        stream_of(streams, stream).chunks[at].end() > acked_to,
    ensures
        stream_of(after_acknowledge(streams, stream, acked_to), stream).chunks.contains(
            stream_of(streams, stream).chunks[at],
        ),
{
    let chunks = stream_of(streams, stream).chunks;
    law_only_acknowledged_chunks_are_released(chunks, acked_to);
    let count = choose|count: int| released_count(chunks, acked_to, count);
    let left = unacknowledged(chunks, acked_to);
    assert(left[at - count] == chunks[at]);
}

/// In a contiguous stream no chunk ends beyond the next offset.
proof fn lemma_ends_ascend(stream: StreamView, at: int)
    requires
        stream.contiguous(),
        0 <= at < stream.chunks.len(),
    ensures
        stream.chunks[at].end() <= stream.next_offset,
    decreases stream.chunks.len() - at,
{
    if at + 1 < stream.chunks.len() {
        lemma_ends_ascend(stream, at + 1);
        assert(stream.chunks[at + 1 - 1].end() == stream.chunks[at + 1].start);
    }
}

/// In a contiguous stream, what is held is exactly what lies between the oldest held byte
/// and the next offset.
pub proof fn law_held_bytes_span_the_unacknowledged_offsets(stream: StreamView)
    requires
        stream.contiguous(),
        stream.chunks.len() > 0,
    ensures
        stream.held() == stream.next_offset - stream.chunks[0].start,
    decreases stream.chunks.len(),
{
    let before = StreamView {
        chunks: stream.chunks.drop_last(),
        next_offset: stream.chunks.last().start,
    };
    let count = stream.chunks.len() as int;
    if count > 1 {
        assert(stream.chunks[count - 1 - 1].end() == stream.chunks[count - 1].start);
        assert forall|i: int| #![trigger before.chunks[i]] 0 < i < before.chunks.len() implies
            before.chunks[i - 1].end() == before.chunks[i].start by {
            assert(stream.chunks[i - 1].end() == stream.chunks[i].start);
        }
        law_held_bytes_span_the_unacknowledged_offsets(before);
        assert(before.chunks[0] == stream.chunks[0]);
    } else {
        assert(chunks_held(before.chunks) == 0);
        assert(stream.chunks.last() == stream.chunks[0]);
    }
    assert(stream.held() == before.held() + stream.chunks.last().len);
}

/// Whatever is done to one stream, every other stream keeps what it held.
pub proof fn law_streams_are_accounted_separately(
    streams: Map<int, StreamView>,
    stream: int,
    other: int,
    bytes: Seq<u8>,
    handle: Option<OwnedBytes>,
    accepted: nat,
    acked_to: nat,
)
    requires
        stream != other,
    ensures
        stream_of(after_stage(streams, stream, bytes, handle), other) == stream_of(streams, other),
        stream_of(after_commit(streams, stream, accepted), other) == stream_of(streams, other),
        stream_of(after_acknowledge(streams, stream, acked_to), other) == stream_of(
            streams,
            other,
        ),
        stream_of(streams.remove(stream), other) == stream_of(streams, other),
{
}

/// Forgetting a stream releases everything it held, and nothing else.
pub proof fn law_forgetting_releases_what_the_stream_held(
    streams: Map<int, StreamView>,
    stream: int,
)
    requires
        streams.dom().finite(),
    ensures
        held_total(streams) == held_total(streams.remove(stream)) + stream_of(
            streams,
            stream,
        ).held(),
{
    if streams.contains_key(stream) {
        lemma_sum_remove(streams, stream, |stream: StreamView| stream.held());
    } else {
        assert(streams.remove(stream) =~= streams);
    }
}

/// A whole write makes the total held grow by exactly what was accepted.
pub proof fn law_a_write_adds_what_was_accepted_to_the_total(
    streams: Map<int, StreamView>,
    stream: int,
    bytes: Seq<u8>,
    handle: Option<OwnedBytes>,
    accepted: nat,
)
    requires
        streams.dom().finite(),
        bytes.len() > 0,
    ensures
        held_total(after_commit(after_stage(streams, stream, bytes, handle), stream, accepted))
            == held_total(streams) + taken(bytes.len(), accepted),
{
    let measure = |stream: StreamView| stream.held();
    let before = stream_of(streams, stream);
    let after = after_commit(after_stage(streams, stream, bytes, handle), stream, accepted);
    law_a_write_retains_exactly_what_was_accepted(before, bytes, handle, accepted);
    law_forgetting_releases_what_the_stream_held(streams, stream);
    assert(after.remove(stream) =~= streams.remove(stream));
    lemma_sum_remove(after, stream, measure);
}

/// A rejected write leaves no trace: once the engine has taken nothing of it, as much is held
/// as before, and every stream holds the same chunks and numbers its next byte the same.
pub proof fn law_a_rejected_write_leaves_no_trace(
    retained: Retained,
    stream: int,
    bytes: Seq<u8>,
    handle: Option<OwnedBytes>,
    any: int,
)
    requires
        retained.wf(),
        bytes.len() > 0,
    ensures
        ({
            let after = after_commit(after_stage(retained@, stream, bytes, handle), stream, 0);
            &&& held_total(after) == held_total(retained@)
            &&& stream_of(after, any) == stream_of(retained@, any)
        }),
{
    law_a_write_adds_what_was_accepted_to_the_total(retained@, stream, bytes, handle, 0);
    law_a_write_retains_exactly_what_was_accepted(stream_of(retained@, stream), bytes, handle, 0);
}

/// Staging grows what is held by exactly the bytes on offer, behind everything held before.
pub proof fn law_staging_holds_what_was_offered(
    retained: Retained,
    stream: int,
    bytes: Seq<u8>,
    handle: Option<OwnedBytes>,
)
    requires
        retained.wf(),
    ensures
        held_total(after_stage(retained@, stream, bytes, handle)) == held_total(retained@) + bytes.len(),
        bytes.len() > 0 ==> stream_of(after_stage(retained@, stream, bytes, handle), stream).chunks
            == stream_of(retained@, stream).chunks.push(
            ChunkView {
                bytes,
                start: stream_of(retained@, stream).next_offset,
                len: bytes.len(),
                handle,
            },
        ),
        bytes.len() == 0 ==> after_stage(retained@, stream, bytes, handle) == retained@,
{
    if bytes.len() > 0 {
        let measure = |stream: StreamView| stream.held();
        let before = stream_of(retained@, stream);
        let after = after_stage(retained@, stream, bytes, handle);
        assert(before.staged(bytes, handle).chunks.drop_last() =~= before.chunks);
        law_forgetting_releases_what_the_stream_held(retained@, stream);
        assert(after.remove(stream) =~= retained@.remove(stream));
        lemma_sum_remove(after, stream, measure);
    }
}

/// Something done with retained data.
pub enum Use {
    /// Bytes were offered on a stream, as a copy or behind a handle, and some of them accepted.
    Write(int, Seq<u8>, Option<OwnedBytes>, nat),
    /// Everything below an offset was acknowledged on a stream.
    Acknowledge(int, nat),
    /// A stream was forgotten.
    Forget(int),
}

/// The retained data once something was done with it.
pub open spec fn after_use(streams: Map<int, StreamView>, done: Use) -> Map<int, StreamView> {
    match done {
        Use::Write(stream, bytes, handle, accepted) => if bytes.len() > 0 {
            after_commit(after_stage(streams, stream, bytes, handle), stream, accepted)
        } else {
            streams
        },
        Use::Acknowledge(stream, acked_to) => after_acknowledge(streams, stream, acked_to),
        Use::Forget(stream) => streams.remove(stream),
    }
}

/// The retained data once a run of things was done with it.
pub open spec fn after_uses(streams: Map<int, StreamView>, done: Seq<Use>) -> Map<int, StreamView>
    decreases done.len(),
{
    if done.len() == 0 {
        streams
    } else {
        after_use(after_uses(streams, done.drop_last()), done.last())
    }
}

/// Whether something done lets go of what a stream holds below an offset.
pub open spec fn lets_go(done: Use, stream: int, end: nat) -> bool {
    match done {
        Use::Write(..) => false,
        Use::Acknowledge(other, acked_to) => other == stream && acked_to >= end,
        Use::Forget(other) => other == stream,
    }
}

/// Accepted bytes stay held, where they are, until an acknowledgement covers them or their
/// stream is forgotten: whatever else is written, acknowledged or forgotten, in whatever
/// order.
pub proof fn law_accepted_bytes_stay_held(
    streams: Map<int, StreamView>,
    stream: int,
    chunk: ChunkView,
    done: Seq<Use>,
)
    requires
        stream_of(streams, stream).chunks.contains(chunk),
        forall|i: int| 0 <= i < done.len() ==> !lets_go(#[trigger] done[i], stream, chunk.end()),
    ensures
        stream_of(after_uses(streams, done), stream).chunks.contains(chunk),
    decreases done.len(),
{
    if done.len() > 0 {
        let front = done.drop_last();
        assert forall|i: int| 0 <= i < front.len() implies !lets_go(
            #[trigger] front[i],
            stream,
            chunk.end(),
        ) by {
            assert(front[i] == done[i]);
        }
        law_accepted_bytes_stay_held(streams, stream, chunk, front);
        let before = after_uses(streams, front);
        let chunks = stream_of(before, stream).chunks;
        let at = choose|at: int| 0 <= at < chunks.len() && chunks[at] == chunk;
        assert(!lets_go(done[done.len() - 1], stream, chunk.end()));
        match done.last() {
            Use::Write(other, bytes, _, accepted) => {
                if other == stream && bytes.len() > 0 {
                    let after = stream_of(after_use(before, done.last()), stream);
                    assert(after.chunks[at] == chunk);
                }
            },
            Use::Acknowledge(other, acked_to) => {
                if other == stream {
                    law_unacknowledged_chunks_stay_held(before, stream, acked_to, at);
                }
            },
            Use::Forget(_) => {},
        }
    }
}

/// A write stays readable for as long as it may be sent again: what was accepted of it is held
/// at its place in the stream, in the copy or behind the handle it was offered from, until an
/// acknowledgement covers it or its stream is forgotten.
pub proof fn law_an_accepted_write_stays_readable(
    streams: Map<int, StreamView>,
    stream: int,
    bytes: Seq<u8>,
    handle: Option<OwnedBytes>,
    accepted: nat,
    done: Seq<Use>,
)
    requires
        bytes.len() > 0,
        accepted > 0,
        forall|i: int|
            0 <= i < done.len() ==> !lets_go(
                #[trigger] done[i],
                stream,
                stream_of(streams, stream).next_offset + taken(bytes.len(), accepted),
            ),
    ensures
        stream_of(
            after_uses(
                after_commit(after_stage(streams, stream, bytes, handle), stream, accepted),
                done,
            ),
            stream,
        ).chunks.contains(
            ChunkView {
                bytes,
                start: stream_of(streams, stream).next_offset,
                len: taken(bytes.len(), accepted),
                handle,
            },
        ),
{
    let before = stream_of(streams, stream);
    let chunk = ChunkView {
        bytes,
        start: before.next_offset,
        len: taken(bytes.len(), accepted),
        handle,
    };
    let after = after_commit(after_stage(streams, stream, bytes, handle), stream, accepted);
    assert(stream_of(after, stream).chunks.last() == chunk);
    law_accepted_bytes_stay_held(after, stream, chunk, done);
}

/// A part of a handle's bytes reads as those bytes of the handle, from the one allocation both
/// lie in.
pub proof fn law_a_part_reads_as_the_bytes_it_covers(
    part: OwnedBytes,
    whole: OwnedBytes,
    from: int,
    to: int,
)
    requires
        whole.first() <= whole.past() <= (*whole.allocation())@.len(),
        0 <= from <= to <= whole@.len(),
        part.is_part(whole, from, to),
    ensures
        whole@ == (*whole.allocation())@.subrange(whole.first() as int, whole.past() as int),
        part@ == whole@.subrange(from, to),
{
    assert(part@ =~= whole@.subrange(from, to));
}

} // verus!
