//! What is made of the engine's answers: each code, flag and count means one thing, and a
//! failure is never taken for anything else.

use vstd::prelude::*;

use crate::accept::{
    check_short_dcidlen, inspect, is_acceptable_initial, supported_versions,
    write_version_negotiation, DecodedHeader, InitialToken, Inspection,
};
use crate::callbacks::{
    acked_stream_data_offset, minted, recv_stream_data, stream_close, stream_code, stream_named,
    RandCtx,
};
use crate::cid::{same_bytes, ConnectionId};
use crate::error::{
    classify, ApplicationErrorCode, CloseError, CloseReason, Error, ErrorKind, NativeCode,
    TransportErrorCode,
};
use crate::handlers::StreamCloseReason;
use crate::packet::{
    code_from, expiry, handle_expiry, read_pkt, readable, writable, write_pkt, ExpiryOutcome,
    ReadOutcome, WriteOutcome,
};
use crate::path::{Address, PathStorage, SockaddrStorage};
use crate::rand::{CountingEntropy, EntropySource};
use crate::retain::Retained;
use crate::stream::{Directionality, Initiator, StreamId};
use crate::time::{Duration, Timestamp};

verus! {

/// A datagram that could be read is what its header says: short where it names no version, of a
/// version not spoken where the engine says so, and otherwise of a version that is. Its
/// identifiers are handed on as they were read.
pub proof fn law_a_datagram_is_what_its_header_says(
    header: DecodedHeader,
    short_dcidlen: usize,
    inspection: Result<Inspection, Error>,
)
    requires
        call_ensures(inspect, (&header, short_dcidlen), inspection),
    ensures
        ({
            let long = header.version != 0 || header.rc == -235;
            let sense = short_dcidlen <= 20 && (header.rc == 0 || header.rc == -235) && 1
                <= header.dcid@.len() <= 20 && (long ==> 1 <= header.scid@.len() <= 20);
            &&& inspection is Ok <==> sense
            &&& sense && !long ==> (inspection->Ok_0 matches Inspection::ShortHeader { dcid }
                && dcid@ == header.dcid@)
            &&& sense && header.rc == -235 ==> (
            inspection->Ok_0 matches Inspection::UnsupportedVersion { version, dcid, scid }
                && version == header.version && dcid@ == header.dcid@ && scid@ == header.scid@)
            &&& sense && header.rc == 0 && header.version != 0 ==> (
            inspection->Ok_0 matches Inspection::Supported { version, dcid, scid } && version
                == header.version && dcid@ == header.dcid@ && scid@ == header.scid@)
            &&& short_dcidlen <= 20 && header.rc != 0 && header.rc != -235 ==> {
                &&& inspection->Err_0@.kind == ErrorKind::Protocol
                &&& inspection->Err_0@.native == Some(header.rc as int)
            }
            &&& !sense && (short_dcidlen > 20 || header.rc == 0 || header.rc == -235)
                ==> inspection->Err_0@.kind == ErrorKind::InvalidInput
        }),
{
}

/// The identifier a datagram is addressed to is its destination, whatever kind it is.
pub proof fn law_a_datagram_is_addressed_by_its_destination(
    inspection: Inspection,
    dcid: ConnectionId,
)
    requires
        call_ensures(Inspection::dcid, (&inspection,), dcid),
    ensures
        match inspection {
            Inspection::Supported { dcid: named, .. } => dcid@ == named@,
            Inspection::UnsupportedVersion { dcid: named, .. } => dcid@ == named@,
            Inspection::ShortHeader { dcid: named } => dcid@ == named@,
        },
{
}

/// An identifier length the engine can be told is at most twenty; a first packet is acceptable
/// if the engine says so; a negotiation packet is as long as the engine wrote; and the version
/// spoken is the first.
pub proof fn law_first_packets_are_taken_as_the_engine_says(
    len: usize,
    checked: Result<(), Error>,
    rc: i32,
    acceptable: bool,
    written: isize,
    negotiated: Result<usize, Error>,
    versions: [u32; 1],
)
    requires
        call_ensures(check_short_dcidlen, (len,), checked),
        call_ensures(is_acceptable_initial, (rc,), acceptable),
        call_ensures(write_version_negotiation, (written,), negotiated),
        call_ensures(supported_versions, (), versions),
    ensures
        checked is Ok <==> len <= 20,
        acceptable <==> rc == 0,
        written >= 0 ==> negotiated == Ok::<usize, Error>(written as usize),
        written < 0 ==> negotiated is Err && negotiated->Err_0@.native == Some(
            (written as i32) as int,
        ) && negotiated->Err_0@.context == "could not write a Version Negotiation packet"@,
        checked is Err ==> checked->Err_0@.kind == ErrorKind::InvalidInput,
        versions@ == seq![1u32],
{
}

/// What a token holds is handed on whole.
pub proof fn law_a_token_is_handed_on_whole(token: InitialToken, bytes: Vec<u8>)
    requires
        call_ensures(InitialToken::bytes, (&token,), bytes),
    ensures
        match token {
            InitialToken::Absent => bytes@.len() == 0,
            InitialToken::Retry(held) => bytes@ == held@,
            InitialToken::Other(held) => bytes@ == held@,
        },
{
}

/// An identifier has one to twenty bytes and keeps them as they were given. Two are the same
/// exactly when their bytes are.
pub proof fn law_an_identifier_keeps_its_bytes(
    bytes: &[u8],
    made: Result<ConnectionId, Error>,
    id: ConnectionId,
    read: &[u8],
    left: &[u8],
    right: &[u8],
    same: bool,
)
    requires
        call_ensures(ConnectionId::new, (bytes,), made),
        call_ensures(ConnectionId::as_bytes, (&id,), read),
        call_ensures(same_bytes, (left, right), same),
    ensures
        made is Ok <==> 1 <= bytes@.len() <= 20,
        made matches Ok(cid) ==> cid@ == bytes@,
        made is Err ==> made->Err_0@.kind == ErrorKind::InvalidInput,
        read@ == id@,
        1 <= read@.len() <= 20,
        same <==> left@ == right@,
{
}

/// An identifier that is generated is made of the bytes drawn, if they could be drawn and are
/// as many as an identifier can have.
pub proof fn law_a_generated_identifier_is_what_was_drawn(
    len: usize,
    filled: Result<(), Error>,
    bytes: &[u8],
    made: Result<ConnectionId, Error>,
)
    requires
        call_ensures(ConnectionId::generated, (len, filled, bytes), made),
        bytes@.len() == len,
    ensures
        made is Ok <==> filled is Ok && 1 <= len <= 20,
        made matches Ok(cid) ==> cid@ == bytes@,
        filled is Err ==> made->Err_0 == filled->Err_0,
        filled is Ok && made is Err ==> made->Err_0@.kind == ErrorKind::InvalidInput
            && made->Err_0@.native is None,
{
}

/// What reading a packet came to is one of five things the engine names, and anything else is a
/// failure that leaves the connection unusable and keeps the engine's code.
pub proof fn law_reading_is_what_the_engine_says(rc: i32, outcome: Result<ReadOutcome, Error>)
    requires
        call_ensures(read_pkt, (rc,), outcome),
    ensures
        rc == 0 ==> outcome == Ok::<ReadOutcome, Error>(ReadOutcome::Processed),
        rc == -231 ==> outcome == Ok::<ReadOutcome, Error>(ReadOutcome::SendRetry),
        rc == -232 ==> outcome == Ok::<ReadOutcome, Error>(ReadOutcome::DropSilently),
        rc == -224 ==> outcome == Ok::<ReadOutcome, Error>(ReadOutcome::Draining),
        rc == -223 ==> outcome == Ok::<ReadOutcome, Error>(ReadOutcome::Closing),
        rc != 0 && rc != -231 && rc != -232 && rc != -224 && rc != -223 ==> outcome is Err
            && outcome->Err_0@.native == Some(rc as int) && outcome->Err_0@.unusable,
{
}

/// A datagram was written where the engine counts bytes; zero, and a request to write more,
/// mean not now; only a connection that is closing has nothing left. Anything else is a failure
/// that leaves the connection unusable.
pub proof fn law_writing_is_what_the_engine_says(
    written: isize,
    outcome: Result<WriteOutcome, Error>,
)
    requires
        call_ensures(write_pkt, (written,), outcome),
    ensures
        written > 0 ==> outcome == Ok::<WriteOutcome, Error>(
            WriteOutcome::Datagram { len: written as usize },
        ),
        written == 0 || written == -230 ==> outcome == Ok::<WriteOutcome, Error>(
            WriteOutcome::Blocked,
        ),
        written == -223 || written == -224 ==> outcome == Ok::<WriteOutcome, Error>(
            WriteOutcome::Idle,
        ),
        written < 0 && written != -230 && written != -223 && written != -224 ==> outcome is Err
            && outcome->Err_0@.unusable,
        i32::MIN <= written < 0 && outcome is Err ==> outcome->Err_0@.native == Some(
            written as int,
        ),
{
}

/// A timer was serviced, or found the connection idle, or found it over; anything else is a
/// failure that leaves the connection unusable. The largest count is no deadline.
pub proof fn law_an_expiry_is_what_the_engine_says(
    rc: i32,
    outcome: Result<ExpiryOutcome, Error>,
    raw: u64,
    deadline: Option<Timestamp>,
)
    requires
        call_ensures(handle_expiry, (rc,), outcome),
        call_ensures(expiry, (raw,), deadline),
    ensures
        rc == 0 ==> outcome == Ok::<ExpiryOutcome, Error>(ExpiryOutcome::Handled),
        rc == -238 ==> outcome == Ok::<ExpiryOutcome, Error>(ExpiryOutcome::IdleClose),
        rc == -223 || rc == -224 ==> outcome == Ok::<ExpiryOutcome, Error>(ExpiryOutcome::Terminal),
        rc != 0 && rc != -238 && rc != -223 && rc != -224 ==> outcome is Err
            && outcome->Err_0@.native == Some(rc as int) && outcome->Err_0@.unusable,
        raw == u64::MAX ==> deadline is None,
        raw != u64::MAX ==> deadline is Some && deadline->Some_0@ == raw,
{
}

/// An empty datagram is not read, and nothing is written into an empty buffer. A result that is
/// no code of the engine's is an internal failure.
pub proof fn law_empty_buffers_are_refused(
    datagram: &[u8],
    read: Result<(), Error>,
    len: usize,
    write: Result<(), Error>,
    result: isize,
    code: i32,
)
    requires
        call_ensures(readable, (datagram,), read),
        call_ensures(writable, (len,), write),
        call_ensures(code_from, (result,), code),
    ensures
        read is Ok <==> datagram@.len() > 0,
        write is Ok <==> len > 0,
        read is Err ==> read->Err_0@.kind == ErrorKind::InvalidInput,
        write is Err ==> write->Err_0@.kind == ErrorKind::InvalidInput,
        i32::MIN <= result <= i32::MAX ==> code == result,
        !(i32::MIN <= result <= i32::MAX) ==> code == -228,
{
}

/// Each code of the engine's has one kind, and a code it does not name is kept as internal
/// rather than lost.
pub proof fn law_every_code_has_its_kind(code: NativeCode, kind: ErrorKind)
    requires
        call_ensures(classify, (code,), kind),
    ensures
        kind is Exhausted <==> code@ == -501,
        kind is InvalidInput <==> code@ == -201 || code@ == -204,
        kind is Crypto <==> code@ == -213 || code@ == -215 || code@ == -216 || code@ == -225
            || code@ == -237,
        kind is Blocked <==> code@ == -208 || code@ == -206 || code@ == -219 || code@ == -220
            || code@ == -227,
        kind is Closing <==> code@ == -223 || code@ == -224,
        kind is Protocol <==> code@ == -203 || code@ == -217 || code@ == -205 || code@ == -212
            || code@ == -209 || code@ == -211,
        kind is ConnectionUnusable <==> code@ == -502 || code@ == -228,
{
}

/// A failure of the engine's keeps its code and is of that code's kind. One that this crate
/// found has no code. Marking one unusable changes nothing else.
pub proof fn law_a_failure_keeps_where_it_came_from(
    code: i32,
    context: &'static str,
    kind: ErrorKind,
    native: Error,
    classified: ErrorKind,
    named: NativeCode,
    malformed: Error,
    invalid: Error,
    backend: Error,
    other: Error,
    before: Error,
    marked: Error,
    unusable: Error,
)
    requires
        call_ensures(Error::native, (code, context), native),
        call_ensures(NativeCode::new, (code,), named),
        call_ensures(classify, (named,), classified),
        call_ensures(Error::malformed, (code, context), malformed),
        call_ensures(Error::invalid_input, (context,), invalid),
        call_ensures(Error::backend, (context,), backend),
        call_ensures(Error::with_kind, (kind, context), other),
        call_ensures(Error::into_unusable, (before,), marked),
        call_ensures(Error::unusable, (), unusable),
    ensures
        native@.native == Some(code as int) && native@.kind == classified && !native@.unusable,
        native@.context == context@,
        malformed@.native == Some(code as int) && malformed@.kind == ErrorKind::Protocol,
        invalid@.native is None && invalid@.kind == ErrorKind::InvalidInput && invalid@.context
            == context@ && !invalid@.unusable,
        backend@.native is None && backend@.kind == ErrorKind::Crypto && backend@.context
            == context@ && !backend@.unusable,
        other@.native is None && other@.kind == kind && other@.context == context@
            && !other@.unusable,
        marked@.unusable && marked@.kind == before@.kind && marked@.native == before@.native
            && marked@.context == before@.context,
        unusable@.unusable && unusable@.kind == ErrorKind::ConnectionUnusable,
{
}

/// A failure is fatal if it left the connection unusable, by what it is or by the engine's own
/// word: its codes below five hundred.
pub proof fn law_a_failure_is_fatal_once_nothing_can_follow(
    error: Error,
    fatal: bool,
    code: NativeCode,
    code_fatal: bool,
)
    requires
        call_ensures(Error::is_fatal, (&error,), fatal),
        call_ensures(NativeCode::is_fatal, (code,), code_fatal),
    ensures
        code_fatal <==> code@ < -500,
        fatal <==> {
            ||| error@.unusable
            ||| error@.kind == ErrorKind::ConnectionUnusable
            ||| error@.native is Some && error@.native->Some_0 < -500
        },
{
}

/// What a failure says of itself is what it was made with. Only one of the engine's has a
/// transport meaning to close with, and that is the one the engine infers.
pub proof fn law_a_failure_says_what_it_was_made_with(
    error: Error,
    kind: ErrorKind,
    code: Option<NativeCode>,
    context: &'static str,
    inferred: TransportErrorCode,
    closing: Option<TransportErrorCode>,
)
    requires
        call_ensures(Error::kind, (&error,), kind),
        call_ensures(Error::native_code, (&error,), code),
        call_ensures(Error::context, (&error,), context),
        call_ensures(Error::transport_error_code, (&error, inferred), closing),
    ensures
        kind == error@.kind,
        code is Some <==> error@.native is Some,
        code is Some ==> error@.native == Some(code->Some_0@),
        context@ == error@.context,
        error@.native is Some ==> closing == Some(inferred),
        error@.native is None ==> closing is None,
{
}

/// A code reads back as it was written, in either space.
pub proof fn law_codes_read_back(
    raw: i32,
    native: NativeCode,
    native_back: i32,
    number: u64,
    transport: TransportErrorCode,
    transport_back: u64,
    application: ApplicationErrorCode,
    application_back: u64,
)
    requires
        call_ensures(NativeCode::new, (raw,), native),
        call_ensures(NativeCode::get, (native,), native_back),
        call_ensures(TransportErrorCode::new, (number,), transport),
        call_ensures(TransportErrorCode::get, (transport,), transport_back),
        call_ensures(ApplicationErrorCode::new, (number,), application),
        call_ensures(ApplicationErrorCode::get, (application,), application_back),
    ensures
        native_back == raw,
        transport_back == number,
        application_back == number,
{
}

/// A close keeps its reason and phrase, and so does a copy of it. An idle close says so and
/// quotes nobody.
pub proof fn law_a_close_keeps_its_reason(
    reason: CloseReason,
    phrase: Vec<u8>,
    close: CloseError,
    idle: CloseError,
    any: CloseError,
    copy: CloseError,
    said: CloseReason,
    quoted: &[u8],
)
    requires
        call_ensures(CloseError::new, (reason, phrase), close),
        call_ensures(CloseError::idle, (), idle),
        call_ensures(CloseError::clone, (&any,), copy),
        call_ensures(CloseError::reason, (&any,), said),
        call_ensures(CloseError::phrase, (&any,), quoted),
    ensures
        close.reason == reason && close.phrase == phrase,
        idle.reason == CloseReason::IdleTimeout && idle.phrase@.len() == 0,
        copy.reason == any.reason && copy.phrase@ == any.phrase@,
        said == any.reason && quoted@ == any.phrase@,
{
}

/// A stream's number says who opened it and which way it runs: even numbers are the client's,
/// and of each four in a row the first two run both ways. A one-way stream is written by whoever
/// opened it.
pub proof fn law_a_streams_number_says_whose_it_is(
    id: i64,
    made: Result<StreamId, Error>,
    stream: StreamId,
    number: i64,
    initiator: Initiator,
    directionality: Directionality,
    server: bool,
    writes: bool,
)
    requires
        call_ensures(StreamId::new, (id,), made),
        call_ensures(StreamId::get, (stream,), number),
        call_ensures(StreamId::initiator, (stream,), initiator),
        call_ensures(StreamId::directionality, (stream,), directionality),
        call_ensures(StreamId::is_writable_by, (stream, server), writes),
    ensures
        made is Ok <==> 0 <= id <= 0x3fff_ffff_ffff_ffff,
        made matches Ok(named) ==> named@ == id,
        made is Err ==> made->Err_0@.kind == ErrorKind::InvalidInput,
        number == stream@,
        initiator is Client <==> stream@ % 2 == 0,
        directionality is Bidirectional <==> stream@ % 4 == 0 || stream@ % 4 == 1,
        writes <==> {
            ||| directionality is Bidirectional
            ||| server && initiator is Server
            ||| !server && initiator is Client
        },
{
}

/// What the engine reports of a stream that can exist is passed on as it was; of one that
/// cannot, nothing is. The end of the stream is the lowest flag.
pub proof fn law_reports_of_streams_are_passed_on(
    stream_id: i64,
    named: Option<StreamId>,
    flags: u32,
    data: Option<(StreamId, bool)>,
    code: u64,
    coded: Option<(StreamId, ApplicationErrorCode)>,
)
    requires
        call_ensures(stream_named, (stream_id,), named),
        call_ensures(recv_stream_data, (flags, stream_id), data),
        call_ensures(stream_code, (stream_id, code), coded),
    ensures
        ({
            let exists_ = 0 <= stream_id <= 0x3fff_ffff_ffff_ffff;
            &&& named is Some <==> exists_
            &&& data is Some <==> exists_
            &&& coded is Some <==> exists_
            &&& exists_ ==> {
                &&& named->Some_0@ == stream_id
                &&& data->Some_0.0@ == stream_id && (data->Some_0.1 <==> flags & 1 != 0)
                &&& coded->Some_0.0@ == stream_id && coded->Some_0.1@ == code
            }
        }),
{
}

/// A stream that closed is let go of, and reported with the code of each side that had one.
pub proof fn law_a_closed_stream_is_let_go_of(
    retained: &mut Retained,
    stream_id: i64,
    rx_set: bool,
    rx_code: u64,
    tx_set: bool,
    tx_code: u64,
    report: Option<(StreamId, StreamCloseReason)>,
    receiving: Option<ApplicationErrorCode>,
    sending: Option<ApplicationErrorCode>,
    clean: bool,
)
    requires
        call_ensures(
            stream_close,
            (retained, stream_id, rx_set, rx_code, tx_set, tx_code),
            report,
        ),
        0 <= stream_id <= 0x3fff_ffff_ffff_ffff,
        call_ensures(StreamCloseReason::receiving, (&report->Some_0.1,), receiving),
        call_ensures(StreamCloseReason::sending, (&report->Some_0.1,), sending),
        call_ensures(StreamCloseReason::is_clean, (&report->Some_0.1,), clean),
    ensures
        report is Some,
        report->Some_0.0@ == stream_id,
        receiving is Some <==> rx_set,
        rx_set ==> receiving->Some_0@ == rx_code,
        sending is Some <==> tx_set,
        tx_set ==> sending->Some_0@ == tx_code,
        clean <==> !rx_set && !tx_set,
        !final(retained)@.contains_key(stream_id as int),
        forall|other: int|
            other != stream_id && #[trigger] old(retained)@.contains_key(other)
                ==> final(retained)@.contains_key(other) && final(retained)@[other]
                == old(retained)@[other],
{
}

/// A reason for a close says which side had which code, and is clean without either.
pub proof fn law_a_close_reason_says_which_side(
    receiving: Option<ApplicationErrorCode>,
    sending: Option<ApplicationErrorCode>,
    reason: StreamCloseReason,
    heard: Option<ApplicationErrorCode>,
    sent: Option<ApplicationErrorCode>,
    clean: bool,
)
    requires
        call_ensures(StreamCloseReason::new, (receiving, sending), reason),
        call_ensures(StreamCloseReason::receiving, (&reason,), heard),
        call_ensures(StreamCloseReason::sending, (&reason,), sent),
        call_ensures(StreamCloseReason::is_clean, (&reason,), clean),
    ensures
        heard == receiving,
        sent == sending,
        clean <==> receiving is None && sending is None,
{
}

/// Acknowledged bytes are let go of up to where the acknowledgement ends, and counted.
pub proof fn law_an_acknowledgement_lets_go_up_to_its_end(
    retained: &mut Retained,
    stream_id: i64,
    offset: u64,
    len: u64,
    report: Option<(StreamId, u64)>,
    alike: &mut Retained,
    stream: StreamId,
)
    requires
        call_ensures(acked_stream_data_offset, (retained, stream_id, offset, len), report),
        call_ensures(Retained::acknowledge, (alike, stream, offset, len), ()),
        stream@ == stream_id,
        0 <= stream_id <= 0x3fff_ffff_ffff_ffff,
        old(alike)@ == old(retained)@,
    ensures
        report is Some,
        report->Some_0.0@ == stream_id,
        report->Some_0.1 == len,
        final(retained)@ == final(alike)@,
{
}

/// An identifier and its reset token are minted only from bytes that could be drawn, and are
/// those bytes.
pub proof fn law_an_identifier_is_minted_of_drawn_bytes(
    cid_filled: Result<(), Error>,
    cid: &[u8],
    token_filled: Result<(), Error>,
    token: Vec<u8>,
    result: Result<(ConnectionId, Vec<u8>), i32>,
)
    requires
        call_ensures(minted, (cid_filled, cid, token_filled, token), result),
    ensures
        result is Ok <==> cid_filled is Ok && token_filled is Ok,
        result matches Ok(made) ==> made.0@ == cid@ && made.1 == token,
        result is Err ==> result->Err_0 == -502,
{
}

/// Bytes that could not be drawn are never left as they were: they are zeroed, and the failure
/// is remembered. Bytes that could be are left alone.
pub proof fn law_a_failed_draw_leaves_zeroes_and_is_remembered<E: EntropySource>(
    ctx: &mut RandCtx<E>,
    filled: Result<(), Error>,
    dest: &mut [u8],
    fresh: RandCtx<E>,
    source: E,
    any: RandCtx<E>,
    failed: bool,
)
    requires
        call_ensures(RandCtx::<E>::settle, (ctx, filled, dest), ()),
        call_ensures(RandCtx::<E>::new, (source,), fresh),
        call_ensures(RandCtx::<E>::failed, (&any,), failed),
    ensures
        filled is Ok ==> final(dest)@ == old(dest)@ && final(ctx).failed == old(ctx).failed,
        filled is Err ==> final(ctx).failed && final(dest)@.len() == old(dest)@.len() && forall|
            i: int,
        |
            0 <= i < final(dest)@.len() ==> #[trigger] final(dest)@[i] == 0,
        final(ctx).source == old(ctx).source,
        fresh.source == source && !fresh.failed,
        failed == any.failed,
{
}

/// A counting source gives each byte one more than the last, and goes on from there.
pub proof fn law_a_counting_source_counts(
    source: &mut CountingEntropy,
    dest: &mut [u8],
    filled: Result<(), Error>,
    at: int,
)
    requires
        call_ensures(CountingEntropy::fill, (source, dest), filled),
        0 <= at < old(dest)@.len(),
    ensures
        filled is Ok,
        final(dest)@.len() == old(dest)@.len(),
        final(dest)@[at] == (old(source).upcoming() + at) % 256,
        final(source).upcoming() == (old(source).upcoming() + old(dest)@.len()) % 256,
        old(source).drawn() + old(dest)@.len() <= usize::MAX ==> final(source).drawn()
            == old(source).drawn() + old(dest)@.len(),
{
}

/// A time is any count but the one that means none; it reads back as it was made, and a
/// duration in milliseconds is a million times as many nanoseconds.
pub proof fn law_times_read_back(
    nanos: u64,
    made: Result<Timestamp, Error>,
    raw: Option<Timestamp>,
    at: Timestamp,
    read: u64,
    told: u64,
    millis: u64,
    long: Result<Duration, Error>,
    short: Duration,
    length: Duration,
    counted: u64,
    laid: u64,
)
    requires
        call_ensures(Timestamp::from_nanos, (nanos,), made),
        call_ensures(Timestamp::from_raw, (nanos,), raw),
        call_ensures(Timestamp::as_nanos, (at,), read),
        call_ensures(Timestamp::as_raw, (at,), told),
        call_ensures(Duration::from_millis, (millis,), long),
        call_ensures(Duration::from_nanos, (nanos,), short),
        call_ensures(Duration::as_nanos, (length,), counted),
        call_ensures(Duration::as_raw, (length,), laid),
    ensures
        made is Ok <==> nanos != u64::MAX,
        made matches Ok(time) ==> time@ == nanos,
        raw is Some <==> nanos != u64::MAX,
        raw matches Some(time) ==> time@ == nanos,
        read == at@ && told == at@,
        long is Ok <==> millis * 1_000_000 <= u64::MAX,
        long matches Ok(duration) ==> duration@ == millis * 1_000_000,
        short@ == nanos,
        counted == length@ && laid == length@,
        made is Err ==> made->Err_0@.kind == ErrorKind::InvalidInput,
        long is Err ==> long->Err_0@.kind == ErrorKind::InvalidInput,
{
}

/// An address laid out for the engine reads back as it was, port and all, and is as long as its
/// family is.
pub proof fn law_an_address_reads_back(
    address: Address,
    inet6: u16,
    storage: SockaddrStorage,
    back: Address,
    len: u32,
)
    requires
        call_ensures(SockaddrStorage::new, (address, inet6), storage),
        call_ensures(SockaddrStorage::to_socket_addr, (&storage,), back),
        call_ensures(SockaddrStorage::len, (&storage,), len),
    ensures
        back == address,
        address is V4 ==> len == 16,
        address is V6 ==> len == 28,
        match storage {
            SockaddrStorage::V4(raw) => raw.family == 2,
            SockaddrStorage::V6(raw) => raw.family == inet6,
        },
        match (storage, address) {
            (SockaddrStorage::V4(raw), Address::V4 { port, .. }) => raw.port@[0] * 256
                + raw.port@[1] == port,
            (SockaddrStorage::V6(raw), Address::V6 { port, .. }) => raw.port@[0] * 256
                + raw.port@[1] == port,
            _ => false,
        },
{
    crate::path::law_addresses_round_trip(storage, address, inet6);
}

/// A path keeps its two ends apart, and each reads back.
pub proof fn law_a_path_keeps_its_ends_apart(
    local: Address,
    remote: Address,
    inet6: u16,
    path: PathStorage,
    here: Address,
    there: Address,
    one: Address,
    other: Address,
    same: bool,
)
    requires
        call_ensures(PathStorage::new, (local, remote, inet6), path),
        call_ensures(PathStorage::local, (&path,), here),
        call_ensures(PathStorage::remote, (&path,), there),
        call_ensures(Address::same, (&one, &other), same),
    ensures
        here == local,
        there == remote,
        same <==> one == other,
{
    crate::path::law_addresses_round_trip(path.local, local, inet6);
    crate::path::law_addresses_round_trip(path.remote, remote, inet6);
}

/// An identifier is generated of exactly the bytes its source gives, where its length is one an
/// identifier may have, and otherwise refused with the source untouched.
pub proof fn law_an_identifier_is_generated_of_what_the_source_gives(
    source: &mut CountingEntropy,
    len: usize,
    made: Result<ConnectionId, Error>,
    alike: &mut CountingEntropy,
    dest: &mut [u8],
    filled: Result<(), Error>,
)
    requires
        call_ensures(ConnectionId::generate::<CountingEntropy>, (source, len), made),
        old(alike).upcoming() == old(source).upcoming() && old(alike).drawn()
            == old(source).drawn(),
        old(dest)@.len() == len,
        call_ensures(CountingEntropy::fill, (alike, dest), filled),
    ensures
        made is Ok <==> 1 <= len <= 20,
        made is Ok ==> made->Ok_0@ == final(dest)@ && final(source).upcoming()
            == final(alike).upcoming() && final(source).drawn() == final(alike).drawn(),
        made is Err ==> made->Err_0@.kind == ErrorKind::InvalidInput && *final(source)
            == *old(source),
{
    if 1 <= len <= 20 {
        assert((*final(source)).progress()[0] == final(alike).upcoming());
        assert((*final(source)).progress()[1] == final(alike).drawn());
        assert(made->Ok_0@ =~= final(dest)@);
    }
}

/// A challenge is answered with drawn bytes and success, or reported as a failed callback and
/// remembered.
pub proof fn law_a_challenge_is_drawn_or_failed<E: EntropySource>(
    ctx: &mut RandCtx<E>,
    dest: &mut [u8],
    code: i32,
    counting: &mut RandCtx<CountingEntropy>,
    challenge: &mut [u8],
    answer: i32,
    at: int,
)
    requires
        call_ensures(RandCtx::<E>::path_challenge, (ctx, dest), code),
        call_ensures(RandCtx::<CountingEntropy>::path_challenge, (counting, challenge), answer),
        0 <= at < old(challenge)@.len(),
    ensures
        final(dest)@.len() == old(dest)@.len(),
        code == 0 || code == -502,
        code == 0 ==> final(ctx).failed == old(ctx).failed,
        code == -502 ==> final(ctx).failed,
        answer == 0 && final(counting).failed == old(counting).failed,
        final(challenge)@[at] == (old(counting).source.upcoming() + at) % 256,
{
}

/// Random bytes that nothing can supply are zeroes. Those a counting source supplies are the
/// ones it counts.
pub proof fn law_randomness_comes_from_its_source(
    without: &mut [u8],
    ctx: &mut RandCtx<CountingEntropy>,
    dest: &mut [u8],
    at: int,
)
    requires
        call_ensures(
            crate::callbacks::rand::<CountingEntropy>,
            (None::<&mut RandCtx<CountingEntropy>>, without),
            (),
        ),
        call_ensures(RandCtx::<CountingEntropy>::rand, (ctx, dest), ()),
        0 <= at < old(dest)@.len(),
    ensures
        final(without)@.len() == old(without)@.len(),
        forall|i: int| 0 <= i < final(without)@.len() ==> #[trigger] final(without)@[i] == 0,
        final(dest)@.len() == old(dest)@.len(),
        final(dest)@[at] == (old(ctx).source.upcoming() + at) % 256,
        final(ctx).failed == old(ctx).failed,
{
}

/// A new identifier takes the next bytes of its source and its reset token the sixteen behind
/// them. Without a source there is none.
pub proof fn law_a_new_identifier_is_drawn_before_its_token(
    source: &mut CountingEntropy,
    len: usize,
    result: Result<(ConnectionId, Vec<u8>), i32>,
    nothing: Result<(ConnectionId, Vec<u8>), i32>,
    at: int,
    within: int,
)
    requires
        call_ensures(
            crate::callbacks::get_new_connection_id::<CountingEntropy>,
            (Some(source), len),
            result,
        ),
        call_ensures(
            crate::callbacks::get_new_connection_id::<CountingEntropy>,
            (None::<&mut CountingEntropy>, len),
            nothing,
        ),
        1 <= len <= 20,
        0 <= at < len,
        0 <= within < 16,
    ensures
        nothing is Err && nothing->Err_0 == -502,
        result is Ok,
        result->Ok_0.0@.len() == len && result->Ok_0.1@.len() == 16,
        result->Ok_0.0@[at] == (old(source).upcoming() + at) % 256,
        result->Ok_0.1@[within] == (old(source).upcoming() + len + within) % 256,
{
    let (cid, filled, between) = choose|
        cid: Seq<u8>,
        filled: Result<(), Error>,
        between: CountingEntropy,
    |
        {
            &&& #[trigger] (*old(source)).answers(
                crate::cid::blank(len as nat),
                cid,
                filled,
                between.progress(),
            )
            &&& match filled {
                Ok(()) => crate::callbacks::mints_token(
                    between,
                    cid,
                    result,
                    (*final(source)).progress(),
                ),
                Err(_) => result is Err && (*final(source)).progress() == between.progress(),
            }
        };
    assert(between.progress()[0] == (old(source).upcoming() + len) % 256);
}

/// A counting source says how much it gave.
pub proof fn law_a_counting_source_says_how_much_it_gave(
    fresh: CountingEntropy,
    any: CountingEntropy,
    count: usize,
)
    requires
        call_ensures(CountingEntropy::default, (), fresh),
        call_ensures(CountingEntropy::bytes_produced, (&any,), count),
    ensures
        fresh.upcoming() == 0 && fresh.drawn() == 0,
        count == any.drawn(),
{
}

} // verus!
