//! What is promised of the bytes a stream sends: that each is held from the moment the engine
//! may refer to it until the peer has it, and that every one that was not taken is offered
//! again.

use vstd::prelude::*;

use crate::diagnostics::{Attempt, AttemptOutcome};
use crate::error::{Error, ErrorKind};
use crate::retain::{
    chunks_capacity, chunks_held, joined, lemma_sum_remove, ChunkView, OwnedBytes, Retained,
    StreamView,
};
use crate::stream::StreamId;
use crate::stream_io::{
    attempt_outcome, extend_max_stream_offset, open_bidi_stream, open_uni_stream, owned_write,
    reset_stream, shutdown_stream, stop_sending, stream_flags, submit_one_vec,
    transport_close_code, write_attempt, write_close_with, write_stream_owned,
    write_stream_vectored, OwnedWrite, StagedWrite, StreamWrite, STREAM_WRITE_FAILED,
    WRITE_SIDE_CLOSED,
};
use crate::tls::Role;

verus! {

/// What is held for a stream, oldest first, and the offset its next byte will have.
pub open spec fn on_stream(streams: Map<int, StreamView>, stream: int) -> (Seq<ChunkView>, nat) {
    if streams.contains_key(stream) {
        (streams[stream].chunks, streams[stream].next_offset)
    } else {
        (Seq::empty(), 0)
    }
}

/// Ranges are joined end to end: joining more of them puts theirs behind, and joining one gives
/// its own bytes.
pub proof fn law_ranges_are_joined_end_to_end(front: Seq<&[u8]>, back: Seq<&[u8]>, one: &[u8])
    ensures
        joined(front + back) == joined(front) + joined(back),
        joined(seq![one]) == one@,
        joined(Seq::<&[u8]>::empty()) == Seq::<u8>::empty(),
    decreases back.len(),
{
    assert(seq![one].drop_last() =~= Seq::<&[u8]>::empty());
    assert(joined(Seq::<&[u8]>::empty()) + one@ =~= one@);
    if back.len() == 0 {
        assert(front + back =~= front);
        assert(joined(front) + joined(back) =~= joined(front));
    } else {
        law_ranges_are_joined_end_to_end(front, back.drop_last(), one);
        assert((front + back).drop_last() =~= front + back.drop_last());
        assert(joined(front + back) =~= joined(front) + joined(back));
    }
}

/// A borrowed write is copied, up to the limit, into one chunk behind everything held, at the
/// offset the stream's next byte has. Nothing else moves, and nothing is numbered until it was
/// taken.
pub proof fn law_a_borrowed_write_is_copied_behind_the_rest(
    retained: &mut Retained,
    stream: StreamId,
    ranges: &[&[u8]],
    limit: usize,
    result: (Option<usize>, bool),
    other: int,
)
    requires
        call_ensures(Retained::stage_many_bounded, (retained, stream, ranges, limit), result),
    ensures
        ({
            let total = joined(ranges@).len();
            let count = if total <= limit {
                total
            } else {
                limit as nat
            };
            let before = on_stream(old(retained)@, stream@);
            let after = on_stream(final(retained)@, stream@);
            &&& result.1 <==> total <= limit
            &&& count == 0 ==> result.0 is None && final(retained)@ == old(retained)@
            &&& count > 0 ==> {
                &&& result.0 is Some && result.0->Some_0 == count
                &&& after.0 == before.0.push(
                    ChunkView {
                        bytes: joined(ranges@).take(count as int),
                        start: before.1,
                        len: count,
                        handle: None,
                    },
                )
                &&& after.1 == before.1
            }
            &&& other != stream@ ==> on_stream(final(retained)@, other) == on_stream(
                old(retained)@,
                other,
            )
        }),
{
    let bytes = joined(ranges@);
    assert(bytes.take(bytes.len() as int) =~= bytes);
}

/// A write without a limit is copied whole.
pub proof fn law_an_unlimited_write_is_copied_whole(
    retained: &mut Retained,
    stream: StreamId,
    ranges: &[&[u8]],
    staged: Option<usize>,
)
    requires
        call_ensures(Retained::stage_many, (retained, stream, ranges), staged),
    ensures
        ({
            let bytes = joined(ranges@);
            let before = on_stream(old(retained)@, stream@);
            let after = on_stream(final(retained)@, stream@);
            &&& bytes.len() == 0 ==> staged is None && final(retained)@ == old(retained)@
            &&& bytes.len() > 0 ==> {
                &&& staged is Some && staged->Some_0 == bytes.len()
                &&& after.0 == before.0.push(
                    ChunkView { bytes, start: before.1, len: bytes.len(), handle: None },
                )
                &&& after.1 == before.1
            }
        }),
{
}

/// An owned write is held by its handle, not copied, behind everything held.
pub proof fn law_an_owned_write_is_held_by_its_handle(
    retained: &mut Retained,
    stream: StreamId,
    bytes: OwnedBytes,
    staged: Option<usize>,
    other: int,
)
    requires
        call_ensures(Retained::stage_owned, (retained, stream, bytes), staged),
    ensures
        ({
            let before = on_stream(old(retained)@, stream@);
            let after = on_stream(final(retained)@, stream@);
            &&& bytes@.len() == 0 ==> staged is None && final(retained)@ == old(retained)@
            &&& bytes@.len() > 0 ==> {
                &&& staged is Some && staged->Some_0 == bytes@.len()
                &&& after.0 == before.0.push(
                    ChunkView {
                        bytes: bytes@,
                        start: before.1,
                        len: bytes@.len(),
                        handle: Some(bytes),
                    },
                )
                &&& after.1 == before.1
            }
            &&& other != stream@ ==> on_stream(final(retained)@, other) == on_stream(
                old(retained)@,
                other,
            )
        }),
{
}

/// What the engine took of the newest chunk is what counts of it, and the stream is numbered on
/// from there; a chunk nothing was taken of is gone. The chunks before it, and the bytes of the
/// chunk itself, stay as they are.
pub proof fn law_only_what_was_taken_counts(
    retained: &mut Retained,
    stream: StreamId,
    accepted: usize,
    other: int,
)
    requires
        call_ensures(Retained::commit, (retained, stream, accepted), ()),
    ensures
        ({
            let before = on_stream(old(retained)@, stream@);
            let after = on_stream(final(retained)@, stream@);
            &&& before.0.len() == 0 ==> after == before
            &&& before.0.len() > 0 && accepted == 0 ==> {
                &&& after.0 == before.0.drop_last() && after.1 == before.1
            }
            &&& before.0.len() > 0 && accepted > 0 ==> {
                let newest = before.0.last();
                let left = after.0.last();
                &&& after.0.len() == before.0.len() && after.0.drop_last() == before.0.drop_last()
                &&& left.bytes == newest.bytes && left.start == newest.start && left.handle
                    == newest.handle
                &&& accepted <= newest.bytes.len() ==> left.len == accepted
                &&& accepted > newest.bytes.len() ==> left.len == newest.bytes.len()
                &&& after.1 == left.start + left.len
            }
            &&& other != stream@ ==> on_stream(final(retained)@, other) == on_stream(
                old(retained)@,
                other,
            )
        }),
{
    let before = on_stream(old(retained)@, stream@);
    let after = on_stream(final(retained)@, stream@);
    if before.0.len() > 0 && accepted > 0 {
        assert(after.0.drop_last() =~= before.0.drop_last());
    }
}

/// An acknowledgement releases, from the front, the chunks that end within it, and keeps the
/// rest as they are. It never moves a stream's numbering.
pub proof fn law_an_acknowledgement_releases_from_the_front(
    retained: &mut Retained,
    stream: StreamId,
    offset: u64,
    len: u64,
    other: int,
)
    requires
        call_ensures(Retained::acknowledge, (retained, stream, offset, len), ()),
        offset + len <= u64::MAX,
    ensures
        ({
            let before = on_stream(old(retained)@, stream@);
            let after = on_stream(final(retained)@, stream@);
            let end = offset + len;
            &&& exists|count: int|
                {
                    &&& 0 <= count <= before.0.len()
                    &&& after.0 == #[trigger] before.0.skip(count)
                    &&& forall|i: int|
                        0 <= i < count ==> (#[trigger] before.0[i]).start + before.0[i].len <= end
                    &&& count < before.0.len() ==> before.0[count].start + before.0[count].len
                        > end
                }
            &&& after.1 == before.1
            &&& other != stream@ ==> on_stream(final(retained)@, other) == on_stream(
                old(retained)@,
                other,
            )
        }),
{
    let before = on_stream(old(retained)@, stream@);
    let after = on_stream(final(retained)@, stream@);
    let end = (offset + len) as nat;
    crate::retain::law_only_acknowledged_chunks_are_released(before.0, end);
    let count = choose|count: int| crate::retain::released_count(before.0, end, count);
    assert(after.0 =~= before.0.skip(count));
    assert forall|i: int| 0 <= i < count implies (#[trigger] before.0[i]).start + before.0[i].len
        <= end by {
        assert(before.0[i].end() <= end);
    }
    if count < before.0.len() {
        assert(before.0[count].end() > end);
    }
}

/// A stream that is forgotten holds nothing, and no other stream is touched.
pub proof fn law_a_forgotten_stream_holds_nothing(
    retained: &mut Retained,
    stream: StreamId,
    other: int,
    fresh: Retained,
)
    requires
        call_ensures(Retained::forget, (retained, stream), ()),
        call_ensures(Retained::new, (), fresh),
    ensures
        !final(retained)@.contains_key(stream@),
        other != stream@ ==> on_stream(final(retained)@, other) == on_stream(
            old(retained)@,
            other,
        ),
        forall|any: int| !(#[trigger] fresh@.contains_key(any)),
{
}

/// What is pointed to is the newest chunk, or the oldest, whole, with how much of it counts;
/// and a stream's next offset is where its next byte goes.
pub proof fn law_a_stream_is_pointed_into_where_it_is_held(
    retained: Retained,
    stream: StreamId,
    newest: Option<(&[u8], usize)>,
    oldest: Option<(&[u8], usize)>,
    offset: u64,
)
    requires
        call_ensures(Retained::last_pointer, (&retained, stream), newest),
        call_ensures(Retained::first_pointer, (&retained, stream), oldest),
        call_ensures(Retained::next_offset, (&retained, stream), offset),
    ensures
        ({
            let held = on_stream(retained@, stream@);
            &&& newest is Some <==> held.0.len() > 0
            &&& oldest is Some <==> held.0.len() > 0
            &&& newest is Some ==> newest->Some_0.0@ == held.0.last().bytes && newest->Some_0.1
                == held.0.last().len
            &&& oldest is Some ==> oldest->Some_0.0@ == held.0[0].bytes && oldest->Some_0.1
                == held.0[0].len
            &&& offset == held.1
        }),
{
}

/// A handle takes its buffer over, reads as its bytes, and splits into adjoining parts of the
/// one allocation. A copy of it is the same handle.
pub proof fn law_a_handle_is_a_run_of_its_allocation(
    buffer: Vec<u8>,
    made: OwnedBytes,
    whole: &mut OwnedBytes,
    n: usize,
    head: OwnedBytes,
    any: OwnedBytes,
    copy: OwnedBytes,
    slice: &[u8],
    len: usize,
    empty: bool,
)
    requires
        call_ensures(OwnedBytes::new::<Vec<u8>>, (buffer,), made),
        call_ensures(OwnedBytes::split_to, (whole, n), head),
        call_ensures(OwnedBytes::clone, (&any,), copy),
        call_ensures(OwnedBytes::as_slice, (&any,), slice),
        call_ensures(OwnedBytes::len, (&any,), len),
        call_ensures(OwnedBytes::is_empty, (&any,), empty),
    ensures
        made@ == buffer@,
        head@ + final(whole)@ == old(whole)@,
        n <= old(whole)@.len() ==> head@.len() == n,
        n > old(whole)@.len() ==> head@.len() == old(whole)@.len(),
        head.allocation() == old(whole).allocation(),
        final(whole).allocation() == old(whole).allocation(),
        head.first() == old(whole).first(),
        head.past() == final(whole).first(),
        copy == any,
        slice@ == any@,
        len == any@.len(),
        empty <==> any@.len() == 0,
{
    assert(head@ + final(whole)@ =~= old(whole)@);
}

/// A borrowed write is staged up to the limit and given to the engine with the end of the
/// stream only if all of it was. Nothing is staged without a buffer to write into.
pub proof fn law_the_end_of_a_stream_goes_with_its_last_bytes(
    retained: &mut Retained,
    buffer_len: usize,
    stream: StreamId,
    ranges: &[&[u8]],
    fin: bool,
    limit: usize,
    result: Result<StagedWrite, Error>,
)
    requires
        call_ensures(
            write_stream_vectored,
            (retained, buffer_len, stream, ranges, fin, limit),
            result,
        ),
    ensures
        ({
            let total = joined(ranges@).len();
            let before = on_stream(old(retained)@, stream@);
            let after = on_stream(final(retained)@, stream@);
            &&& result is Ok <==> buffer_len > 0
            &&& result is Err ==> final(retained)@ == old(retained)@ && result->Err_0@.kind
                == ErrorKind::InvalidInput
            &&& result is Ok ==> {
                let write = result->Ok_0;
                &&& write.flags == 2 <==> fin && total <= limit
                &&& write.flags == 2 || write.flags == 0
                &&& write.staged is Some <==> total > 0 && limit > 0
                &&& write.staged is Some ==> {
                    &&& write.staged->Some_0 <= limit
                    &&& total <= limit ==> write.staged->Some_0 == total
                    &&& total > limit ==> write.staged->Some_0 == limit
                    &&& after.0.len() == before.0.len() + 1
                    &&& after.0.last().bytes == joined(ranges@).take(write.staged->Some_0 as int)
                    &&& after.0.last().handle is None && after.0.last().start == before.1
                }
                &&& write.staged is None ==> final(retained)@ == old(retained)@
            }
        }),
{
    let bytes = joined(ranges@);
    assert(bytes.take(bytes.len() as int) =~= bytes);
}

/// An owned write is staged whole, by its handle, with the end of the stream if it was asked
/// for.
pub proof fn law_an_owned_write_is_staged_whole(
    retained: &mut Retained,
    buffer_len: usize,
    stream: StreamId,
    data: OwnedBytes,
    fin: bool,
    result: Result<StagedWrite, Error>,
)
    requires
        call_ensures(write_stream_owned, (retained, buffer_len, stream, &data, fin), result),
    ensures
        ({
            let before = on_stream(old(retained)@, stream@);
            let after = on_stream(final(retained)@, stream@);
            &&& result is Ok <==> buffer_len > 0
            &&& result is Err ==> final(retained)@ == old(retained)@
            &&& result is Ok ==> {
                let write = result->Ok_0;
                &&& write.flags == (if fin {
                    2u32
                } else {
                    0u32
                })
                &&& write.staged is Some <==> data@.len() > 0
                &&& data@.len() > 0 ==> {
                    &&& write.staged->Some_0 == data@.len()
                    &&& after.0 == before.0.push(
                        ChunkView {
                            bytes: data@,
                            start: before.1,
                            len: data@.len(),
                            handle: Some(data),
                        },
                    )
                }
                &&& data@.len() == 0 ==> final(retained)@ == old(retained)@
            }
        }),
{
}

/// The flags carry the end of a stream exactly when it was asked for and all of the write goes.
pub proof fn law_the_end_is_flagged_once(fin: bool, complete: bool, flags: u32)
    requires
        call_ensures(stream_flags, (fin, complete), flags),
    ensures
        fin && complete ==> flags == 2,
        !(fin && complete) ==> flags == 0,
{
}

/// What the engine made of a staged write. A datagram counts the bytes the engine says it took;
/// without one nothing was taken, and the write leaves no trace. No room on the stream, none on
/// the connection, and not now are told apart, and a connection that is closing is idle. Any
/// other answer is a failure that leaves the connection unusable and keeps the engine's code.
pub proof fn law_a_staged_write_is_settled_by_the_engines_answer(
    retained: &mut Retained,
    stream: StreamId,
    staged: bool,
    written: isize,
    accepted: isize,
    credit: u64,
    result: Result<StreamWrite, Error>,
    alike: &mut Retained,
    taken: usize,
)
    requires
        call_ensures(submit_one_vec, (retained, stream, staged, written, accepted, credit), result),
        call_ensures(Retained::commit, (alike, stream, taken), ()),
        old(alike)@ == old(retained)@,
        taken == (if written > 0 && accepted > 0 {
            accepted as int
        } else {
            0
        }),
    ensures
        staged ==> final(retained)@ == final(alike)@,
        !staged ==> final(retained)@ == old(retained)@,
        written > 0 ==> result == Ok::<StreamWrite, Error>(
            StreamWrite::Datagram { len: written as usize, accepted: taken },
        ),
        written == 0 && credit == 0 ==> result == Ok::<StreamWrite, Error>(
            StreamWrite::ConnectionBlocked,
        ),
        written == 0 && credit > 0 ==> result == Ok::<StreamWrite, Error>(StreamWrite::Blocked),
        written == -208 ==> result == Ok::<StreamWrite, Error>(StreamWrite::StreamBlocked),
        written == -223 || written == -224 ==> result == Ok::<StreamWrite, Error>(
            StreamWrite::Idle,
        ),
        written < 0 && written != -208 && written != -223 && written != -224 ==> {
            &&& result is Err && result->Err_0@.unusable
            &&& i32::MIN <= written ==> result->Err_0@.native == Some(written as int)
            &&& result->Err_0@.context == (if written == -219 {
                WRITE_SIDE_CLOSED@
            } else {
                STREAM_WRITE_FAILED@
            })
        },
{
}

/// What an owned write leaves over is what the engine did not take, to the last byte, in the
/// allocation it was offered from.
pub proof fn law_an_owned_write_gives_back_what_was_not_taken(
    outcome: StreamWrite,
    data: OwnedBytes,
    write: OwnedWrite,
    count: usize,
)
    requires
        call_ensures(owned_write, (outcome, data), write),
        call_ensures(StreamWrite::accepted, (&outcome,), count),
        count <= data@.len(),
    ensures
        write.outcome == outcome,
        data@.take(count as int) + write.unsent@ == data@,
        write.unsent.allocation() == data.allocation(),
        write.unsent.first() == data.first() + count,
        outcome matches StreamWrite::Datagram { accepted, .. } ==> count == accepted,
        !(outcome is Datagram) ==> count == 0,
{
    assert(data@.take(count as int) + write.unsent@ =~= data@);
}

/// A stream is opened where the engine says so and numbers it; a number that cannot be a stream
/// is no stream.
pub proof fn law_a_stream_is_opened_if_the_engine_numbered_it(
    rc: i32,
    id: i64,
    both: Result<StreamId, Error>,
    one: Result<StreamId, Error>,
)
    requires
        call_ensures(open_bidi_stream, (rc, id), both),
        call_ensures(open_uni_stream, (rc, id), one),
    ensures
        both is Ok <==> rc == 0 && 0 <= id <= 0x3fff_ffff_ffff_ffff,
        one is Ok <==> rc == 0 && 0 <= id <= 0x3fff_ffff_ffff_ffff,
        both is Ok ==> both->Ok_0@ == id,
        one is Ok ==> one->Ok_0@ == id,
        rc != 0 ==> both->Err_0@.native == Some(rc as int) && one->Err_0@.native == Some(rc as int),
        both is Err && rc == 0 ==> both->Err_0@.kind == ErrorKind::InvalidInput
            && both->Err_0@.native is None,
        one is Err && rc == 0 ==> one->Err_0@.kind == ErrorKind::InvalidInput
            && one->Err_0@.native is None,
{
}

/// What was asked of the engine about a stream was done if it says zero, and otherwise failed
/// with its code.
pub proof fn law_what_is_asked_of_a_stream_is_done_or_failed(
    rc: i32,
    shut: Result<(), Error>,
    reset: Result<(), Error>,
    stopped: Result<(), Error>,
    extended: Result<(), Error>,
)
    requires
        call_ensures(shutdown_stream, (rc,), shut),
        call_ensures(reset_stream, (rc,), reset),
        call_ensures(stop_sending, (rc,), stopped),
        call_ensures(extend_max_stream_offset, (rc,), extended),
    ensures
        rc == 0 ==> shut is Ok && reset is Ok && stopped is Ok && extended is Ok,
        rc != 0 ==> {
            &&& shut is Err && shut->Err_0@.native == Some(rc as int)
            &&& reset is Err && reset->Err_0@.native == Some(rc as int)
            &&& stopped is Err && stopped->Err_0@.native == Some(rc as int)
            &&& extended is Err && extended->Err_0@.native == Some(rc as int)
        },
{
}

/// A close is as long as the engine wrote it, and is derived from the failure's own code, or
/// from an internal one where the failure has none.
pub proof fn law_a_close_is_written_for_its_cause(
    cause: Error,
    code: i32,
    written: isize,
    result: Result<usize, Error>,
)
    requires
        call_ensures(transport_close_code, (&cause,), code),
        call_ensures(write_close_with, (written,), result),
    ensures
        cause@.native is Some ==> code == cause@.native->Some_0,
        cause@.native is None ==> code == -228,
        written >= 0 ==> result == Ok::<usize, Error>(written as usize),
        written < 0 ==> result is Err,
{
}

/// A write is recorded as what it was: where it stood, what was offered and what was taken.
pub proof fn law_a_write_is_recorded_as_it_was(
    connection_id: u64,
    role: Role,
    stream: StreamId,
    offset: u64,
    offered: usize,
    limit: usize,
    prepared: usize,
    fin_offered: bool,
    outcome: StreamWrite,
    retained: Retained,
    attempt: Attempt,
    category: AttemptOutcome,
    taken: usize,
    held: usize,
    taken_up: usize,
)
    requires
        call_ensures(
            write_attempt,
            (
                connection_id,
                role,
                stream,
                offset,
                offered,
                limit,
                prepared,
                fin_offered,
                outcome,
                &retained,
            ),
            attempt,
        ),
        call_ensures(attempt_outcome, (outcome,), category),
        call_ensures(StreamWrite::accepted, (&outcome,), taken),
        call_ensures(Retained::bytes_held, (&retained,), held),
        call_ensures(Retained::backing_capacity, (&retained,), taken_up),
    ensures
        attempt.logical_retained_bytes == held,
        attempt.retained_backing_capacity == taken_up,
        attempt.connection_id == connection_id && attempt.role == role,
        attempt.stream_id == stream@ as i64 && attempt.stream_offset == offset,
        attempt.offered_bytes == offered && attempt.sampled_payload_limit == limit,
        attempt.prepared_backing_capacity == prepared && attempt.fin_offered == fin_offered,
        attempt.accepted_prefix == taken,
        attempt.zero_acceptance <==> offered > 0 && taken == 0,
        attempt.outcome == category,
        category is Datagram <==> outcome is Datagram,
        category is StreamBlocked <==> outcome is StreamBlocked,
        category is ConnectionBlocked <==> outcome is ConnectionBlocked,
        category is Blocked <==> outcome is Blocked,
        category is Idle <==> outcome is Idle,
{
}

/// What is held and what it takes up count each chunk once, by what counts of it and by what it
/// holds: one chunk more makes them more by that, wherever it stands, and nothing held is none.
pub proof fn law_each_chunk_counts_once(
    less: Retained,
    more: Retained,
    stream: int,
    chunk: ChunkView,
    next_offset: nat,
    held: usize,
    taken_up: usize,
    held_then: usize,
    taken_up_then: usize,
)
    requires
        less.wf(),
        more@ == less@.insert(
            stream,
            (StreamView { chunks: on_stream(less@, stream).0.push(chunk), next_offset }),
        ),
        call_ensures(Retained::bytes_held, (&less,), held),
        call_ensures(Retained::backing_capacity, (&less,), taken_up),
        call_ensures(Retained::bytes_held, (&more,), held_then),
        call_ensures(Retained::backing_capacity, (&more,), taken_up_then),
    ensures
        held_then == held + chunk.len,
        taken_up_then == taken_up + chunk.bytes.len(),
        less@.dom().len() == 0 ==> held == 0 && taken_up == 0,
{
    let by_len = |stream: StreamView| stream.held();
    let by_room = |stream: StreamView| stream.capacity();
    lemma_sum_remove(more@, stream, by_len);
    lemma_sum_remove(more@, stream, by_room);
    assert(more@.remove(stream) =~= less@.remove(stream));
    let chunks = on_stream(less@, stream).0;
    assert(chunks.push(chunk).drop_last() =~= chunks);
    assert(chunks_held(chunks.push(chunk)) == chunks_held(chunks) + chunk.len);
    assert(chunks_capacity(chunks.push(chunk)) == chunks_capacity(chunks) + chunk.bytes.len());
    assert(more@[stream].held() == chunks_held(chunks.push(chunk)));
    assert(more@[stream].capacity() == chunks_capacity(chunks.push(chunk)));
    if less@.contains_key(stream) {
        lemma_sum_remove(less@, stream, by_len);
        lemma_sum_remove(less@, stream, by_room);
    } else {
        assert(less@.remove(stream) =~= less@);
        assert(chunks_held(chunks) == 0 && chunks_capacity(chunks) == 0);
    }
}

} // verus!
