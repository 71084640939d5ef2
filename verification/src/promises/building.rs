//! What building a connection promises: that each thing asked for is what is set, that nothing
//! else is, and that what the engine could not bear is refused by name.

use vstd::prelude::*;

use crate::accept::InitialPacket;
use crate::cid::ConnectionId;
use crate::conn::{set_client_local_params, Blueprint, Conn, ConnBuilder};
use crate::endpoint::config::Config;
use crate::endpoint::error::CauseView;
use crate::endpoint::opening::{accept, accept_builder, dial, dial_builder, Surroundings};
use crate::error::{Error, ErrorKind};
use crate::params::{NativeTransportParams, TransportParams};
use crate::path::Address;
use crate::rand::EntropySource;
use crate::settings::{NativeSettings, Settings, TokenKind};
use crate::time::{Duration, Timestamp};
use crate::tls::{Backend, Role};
use crate::validate::{server_version, settings, transport_params_common, transport_params_role};

verus! {

/// Whether the engine can be given these settings: windows it can encode, datagrams at least as
/// large as QUIC's smallest, a packet number it can hold, and some round trip to start from.
pub open spec fn bearable(raw: NativeSettings) -> bool {
    &&& raw.max_window <= 0x3fff_ffff_ffff_ffff
    &&& raw.max_stream_window <= 0x3fff_ffff_ffff_ffff
    &&& raw.max_tx_udp_payload_size >= 1200
    &&& raw.initial_pkt_num <= 0x7fff_ffff
    &&& raw.initial_rtt > 0
}

/// Whether these parameters can be announced: two to eight identifiers, limits that can be
/// encoded, an acknowledgement delay that can be, and only what the role may say.
pub open spec fn announceable(raw: NativeTransportParams, server: bool) -> bool {
    &&& 2 <= raw.active_connection_id_limit <= 8
    &&& raw.initial_max_data <= 0x3fff_ffff_ffff_ffff
    &&& raw.initial_max_stream_data_bidi_local <= 0x3fff_ffff_ffff_ffff
    &&& raw.initial_max_stream_data_bidi_remote <= 0x3fff_ffff_ffff_ffff
    &&& raw.initial_max_stream_data_uni <= 0x3fff_ffff_ffff_ffff
    &&& raw.max_ack_delay < 16_384_000_000
    &&& !raw.initial_scid_present
    &&& server ==> raw.original_dcid is Some
    &&& !server ==> raw.original_dcid is None && raw.retry_scid is None
        && !raw.stateless_reset_token_present && !raw.preferred_addr_present
}

/// Settings are handed to the engine as they were made if it can bear them, and refused if not.
pub proof fn law_settings_are_built_if_bearable(
    made: Settings,
    built: Result<NativeSettings, Error>,
)
    requires
        call_ensures(Settings::build, (made,), built),
    ensures
        built is Ok <==> bearable(made@),
        built is Ok ==> built->Ok_0 == made@,
        built is Err ==> built->Err_0@.kind == ErrorKind::InvalidInput && built->Err_0@.native
            is None,
{
}

/// Parameters are announced as they were made if they can be, and refused if not.
pub proof fn law_parameters_are_built_if_announceable(
    params: TransportParams,
    server: bool,
    built: Result<NativeTransportParams, Error>,
)
    requires
        call_ensures(TransportParams::build, (params, server), built),
    ensures
        built is Ok <==> announceable(params@, server),
        built is Ok ==> built->Ok_0 == params@,
        built is Err ==> built->Err_0@.kind == ErrorKind::InvalidInput && built->Err_0@.native
            is None,
{
}

/// The single checks say what the whole does.
pub proof fn law_the_single_checks_say_what_the_whole_does(
    raw: NativeSettings,
    checked: Result<(), Error>,
    params: NativeTransportParams,
    common: Result<(), Error>,
    server: bool,
    role: Result<(), Error>,
    reserved: bool,
    version: Result<(), Error>,
)
    requires
        call_ensures(
            settings,
            (
                raw.max_window,
                raw.max_stream_window,
                raw.max_tx_udp_payload_size,
                raw.initial_pkt_num as u64,
                raw.initial_rtt,
            ),
            checked,
        ),
        call_ensures(
            transport_params_common,
            (
                params.active_connection_id_limit,
                params.initial_max_data,
                params.initial_max_stream_data_bidi_local,
                params.initial_max_stream_data_bidi_remote,
                params.initial_max_stream_data_uni,
                params.max_ack_delay,
            ),
            common,
        ),
        call_ensures(
            transport_params_role,
            (
                server,
                params.original_dcid is Some,
                params.initial_scid_present,
                params.stateless_reset_token_present,
                params.preferred_addr_present,
                params.retry_scid is Some,
            ),
            role,
        ),
        call_ensures(server_version, (server, reserved), version),
    ensures
        checked is Ok <==> bearable(raw),
        common is Ok && role is Ok <==> announceable(params, server),
        version is Ok <==> !(server && reserved),
        checked is Err ==> checked->Err_0@.kind == ErrorKind::InvalidInput,
        common is Err ==> common->Err_0@.kind == ErrorKind::InvalidInput,
        role is Err ==> role->Err_0@.kind == ErrorKind::InvalidInput,
        version is Err ==> version->Err_0@.kind == ErrorKind::InvalidInput,
{
}

/// Each setting that is set is the one named, and no other changes.
pub proof fn law_a_setting_sets_itself_alone(
    now: Timestamp,
    defaults: NativeSettings,
    fresh: Settings,
    before: Settings,
    duration: Duration,
    size: usize,
    bytes: u64,
    num: u32,
    flag: bool,
    token: Vec<u8>,
    kind: TokenKind,
    rtt: Settings,
    payload: Settings,
    window: Settings,
    stream_window: Settings,
    timeout: Settings,
    pkt_num: Settings,
    pmtud: Settings,
    tokened: Settings,
)
    requires
        call_ensures(Settings::new, (now, defaults), fresh),
        call_ensures(Settings::initial_rtt, (before, duration), rtt),
        call_ensures(Settings::max_tx_udp_payload_size, (before, size), payload),
        call_ensures(Settings::max_window, (before, bytes), window),
        call_ensures(Settings::max_stream_window, (before, bytes), stream_window),
        call_ensures(Settings::handshake_timeout, (before, duration), timeout),
        call_ensures(Settings::initial_pkt_num, (before, num), pkt_num),
        call_ensures(Settings::no_pmtud, (before, flag), pmtud),
        call_ensures(Settings::validated_token, (before, token, kind), tokened),
    ensures
        fresh@ == (NativeSettings { initial_ts: now@ as u64, ..defaults }),
        rtt@ == (NativeSettings { initial_rtt: duration@ as u64, ..before@ }),
        payload@ == (NativeSettings { max_tx_udp_payload_size: size, ..before@ }),
        window@ == (NativeSettings { max_window: bytes, ..before@ }),
        stream_window@ == (NativeSettings { max_stream_window: bytes, ..before@ }),
        timeout@ == (NativeSettings { handshake_timeout: duration@ as u64, ..before@ }),
        pkt_num@ == (NativeSettings { initial_pkt_num: num, ..before@ }),
        pmtud@ == (NativeSettings { no_pmtud: flag, ..before@ }),
        tokened@ == (NativeSettings { token, token_kind: Some(kind), ..before@ }),
{
}

/// Each parameter that is set is the one named, and no other changes.
pub proof fn law_a_parameter_sets_itself_alone(
    before: TransportParams,
    value: u64,
    duration: Duration,
    id: ConnectionId,
    bidi_local: TransportParams,
    bidi_remote: TransportParams,
    uni: TransportParams,
    data: TransportParams,
    streams_bidi: TransportParams,
    streams_uni: TransportParams,
    idle: TransportParams,
    ids: TransportParams,
    delay: TransportParams,
    original: TransportParams,
    retry: TransportParams,
)
    requires
        call_ensures(
            TransportParams::initial_max_stream_data_bidi_local,
            (before, value),
            bidi_local,
        ),
        call_ensures(
            TransportParams::initial_max_stream_data_bidi_remote,
            (before, value),
            bidi_remote,
        ),
        call_ensures(TransportParams::initial_max_stream_data_uni, (before, value), uni),
        call_ensures(TransportParams::initial_max_data, (before, value), data),
        call_ensures(TransportParams::initial_max_streams_bidi, (before, value), streams_bidi),
        call_ensures(TransportParams::initial_max_streams_uni, (before, value), streams_uni),
        call_ensures(TransportParams::max_idle_timeout, (before, duration), idle),
        call_ensures(TransportParams::active_connection_id_limit, (before, value), ids),
        call_ensures(TransportParams::max_ack_delay, (before, duration), delay),
        call_ensures(TransportParams::original_dcid, (before, &id), original),
        call_ensures(TransportParams::retry_scid, (before, &id), retry),
    ensures
        bidi_local@ == (NativeTransportParams {
            initial_max_stream_data_bidi_local: value,
            ..before@
        }),
        bidi_remote@ == (NativeTransportParams {
            initial_max_stream_data_bidi_remote: value,
            ..before@
        }),
        uni@ == (NativeTransportParams { initial_max_stream_data_uni: value, ..before@ }),
        data@ == (NativeTransportParams { initial_max_data: value, ..before@ }),
        streams_bidi@ == (NativeTransportParams { initial_max_streams_bidi: value, ..before@ }),
        streams_uni@ == (NativeTransportParams { initial_max_streams_uni: value, ..before@ }),
        idle@ == (NativeTransportParams { max_idle_timeout: duration@ as u64, ..before@ }),
        ids@ == (NativeTransportParams { active_connection_id_limit: value, ..before@ }),
        delay@ == (NativeTransportParams { max_ack_delay: duration@ as u64, ..before@ }),
        original@ == (NativeTransportParams { original_dcid: Some(id), ..before@ }),
        retry@ == (NativeTransportParams { retry_scid: Some(id), ..before@ }),
{
}

/// Parameters start as ones a connection can work with: streams, data and a timeout.
pub proof fn law_parameters_start_functional(
    defaults: NativeTransportParams,
    params: TransportParams,
)
    requires
        call_ensures(TransportParams::new, (defaults,), params),
    ensures
        params@ == (NativeTransportParams {
            initial_max_stream_data_bidi_local: 262_144,
            initial_max_stream_data_bidi_remote: 262_144,
            initial_max_stream_data_uni: 262_144,
            initial_max_data: 1_048_576,
            initial_max_streams_bidi: 100,
            initial_max_streams_uni: 100,
            max_idle_timeout: 30_000_000_000,
            ..defaults
        }),
{
}

/// A configuration starts with the same numbers, changes only in what it is told, and never
/// lets a pass read nothing.
pub proof fn law_a_configuration_is_what_it_is_told(
    fresh: Config,
    before: Config,
    datagrams: usize,
    bytes: u64,
    duration: Duration,
    per_pass: Config,
    stream_data: Config,
    data: Config,
    bidi: Config,
    uni: Config,
    idle: Config,
    rtt: Config,
    timeout: Config,
)
    requires
        call_ensures(Config::new, (), fresh),
        call_ensures(Config::datagrams_per_pass, (before, datagrams), per_pass),
        call_ensures(Config::initial_max_stream_data, (before, bytes), stream_data),
        call_ensures(Config::initial_max_data, (before, bytes), data),
        call_ensures(Config::max_streams_bidi, (before, bytes), bidi),
        call_ensures(Config::max_streams_uni, (before, bytes), uni),
        call_ensures(Config::max_idle_timeout, (before, duration), idle),
        call_ensures(Config::initial_rtt, (before, duration), rtt),
        call_ensures(Config::handshake_timeout, (before, duration), timeout),
    ensures
        fresh.datagrams_per_pass == 64 && fresh.initial_max_stream_data == 262_144,
        fresh.initial_max_data == 1_048_576 && fresh.max_streams_bidi == 100,
        fresh.max_streams_uni == 100 && fresh.max_idle_timeout@ == 30_000_000_000,
        fresh.initial_rtt is None && fresh.handshake_timeout is None,
        per_pass.datagrams_per_pass > 0,
        datagrams > 0 ==> per_pass.datagrams_per_pass == datagrams,
        datagrams == 0 ==> per_pass.datagrams_per_pass == 1,
        per_pass == (Config { datagrams_per_pass: per_pass.datagrams_per_pass, ..before }),
        stream_data == (Config { initial_max_stream_data: bytes, ..before }),
        data == (Config { initial_max_data: bytes, ..before }),
        bidi == (Config { max_streams_bidi: bytes, ..before }),
        uni == (Config { max_streams_uni: bytes, ..before }),
        idle == (Config { max_idle_timeout: duration, ..before }),
        rtt == (Config { initial_rtt: Some(duration), ..before }),
        timeout == (Config { handshake_timeout: Some(duration), ..before }),
{
}

/// A configuration announces what it holds, for streams of every kind alike, and sets what it
/// holds; whatever it leaves open stays as the engine has it.
pub proof fn law_a_configuration_announces_what_it_holds(
    config: Config,
    param_defaults: NativeTransportParams,
    params: TransportParams,
    now: Timestamp,
    defaults: NativeSettings,
    made: Settings,
)
    requires
        call_ensures(Config::transport_params, (&config, param_defaults), params),
        call_ensures(Config::settings, (&config, now, defaults), made),
    ensures
        params@ == (NativeTransportParams {
            initial_max_stream_data_bidi_local: config.initial_max_stream_data,
            initial_max_stream_data_bidi_remote: config.initial_max_stream_data,
            initial_max_stream_data_uni: config.initial_max_stream_data,
            initial_max_data: config.initial_max_data,
            initial_max_streams_bidi: config.max_streams_bidi,
            initial_max_streams_uni: config.max_streams_uni,
            max_idle_timeout: config.max_idle_timeout@ as u64,
            ..param_defaults
        }),
        made@.initial_ts == now@ as u64,
        config.initial_rtt matches Some(rtt) ==> made@.initial_rtt == rtt@ as u64,
        config.initial_rtt is None ==> made@.initial_rtt == defaults.initial_rtt,
        config.handshake_timeout matches Some(limit) ==> made@.handshake_timeout == limit@ as u64,
        config.handshake_timeout is None ==> made@.handshake_timeout == defaults.handshake_timeout,
        made@ == (NativeSettings {
            initial_ts: made@.initial_ts,
            initial_rtt: made@.initial_rtt,
            handshake_timeout: made@.handshake_timeout,
            ..defaults
        }),
{
}

/// A builder starts for the first version with identifiers of eight bytes to be drawn, and
/// changes only in what it is told.
pub proof fn law_a_builder_is_what_it_is_told<E: EntropySource, S>(
    role: Role,
    made: Settings,
    params: TransportParams,
    entropy: E,
    tls: S,
    local: Address,
    remote: Address,
    fresh: ConnBuilder<E, S>,
    before: ConnBuilder<E, S>,
    id: ConnectionId,
    version: u32,
    len: usize,
    dcid: ConnBuilder<E, S>,
    scid: ConnBuilder<E, S>,
    versioned: ConnBuilder<E, S>,
    sized: ConnBuilder<E, S>,
)
    requires
        call_ensures(
            ConnBuilder::<E, S>::new,
            (role, made, params, entropy, tls, local, remote),
            fresh,
        ),
        call_ensures(ConnBuilder::<E, S>::dcid, (before, id), dcid),
        call_ensures(ConnBuilder::<E, S>::scid, (before, id), scid),
        call_ensures(ConnBuilder::<E, S>::version, (before, version), versioned),
        call_ensures(ConnBuilder::<E, S>::cid_len, (before, len), sized),
    ensures
        fresh == (ConnBuilder {
            role,
            settings: made,
            params,
            entropy,
            tls,
            local,
            remote,
            dcid: None,
            scid: None,
            version: 1u32,
            cid_len: 8usize,
        }),
        dcid == (ConnBuilder { dcid: Some(id), ..before }),
        scid == (ConnBuilder { scid: Some(id), ..before }),
        versioned == (ConnBuilder { version, ..before }),
        sized == (ConnBuilder { cid_len: len, ..before }),
{
}

/// A connection is planned exactly when nothing in it would be refused: a server needs an
/// identifier to answer to and a version that is not reserved, identifiers that are drawn need
/// a length an identifier can have, and settings and parameters have to be bearable. Given its
/// identifiers, that is all there is to it.
pub proof fn law_a_connection_is_planned_if_nothing_is_wrong_with_it<E: EntropySource, S>(
    builder: ConnBuilder<E, S>,
    reserved: bool,
    result: Result<Blueprint<E, S>, Error>,
)
    requires
        call_ensures(ConnBuilder::<E, S>::build, (builder, reserved), result),
    ensures
        ({
            let server = builder.role == Role::Server;
            let given = builder.dcid is Some && builder.scid is Some;
            let sound = !(server && reserved) && (server ==> builder.dcid is Some) && (given || 1
                <= builder.cid_len <= 20) && bearable(builder.settings@) && announceable(
                builder.params@,
                server,
            );
            &&& result is Ok ==> sound
            &&& given && sound ==> result is Ok
            &&& server && (reserved || builder.dcid is None) ==> result is Err
                && result->Err_0@.kind == ErrorKind::InvalidInput
        }),
{
}

/// What is planned is what was asked for: the identifiers given, or fresh ones of the length
/// asked, and everything else as it was.
pub proof fn law_a_plan_is_what_was_asked_for<E: EntropySource, S>(
    builder: ConnBuilder<E, S>,
    reserved: bool,
    result: Result<Blueprint<E, S>, Error>,
)
    requires
        call_ensures(ConnBuilder::<E, S>::build, (builder, reserved), result),
        result is Ok,
    ensures
        ({
            let plan = result->Ok_0;
            &&& plan.role == builder.role && plan.version == builder.version
            &&& plan.settings == builder.settings@ && plan.params == builder.params@
            &&& plan.tls == builder.tls
            &&& plan.local == builder.local && plan.remote == builder.remote
            &&& builder.dcid is Some ==> builder.dcid == Some(plan.dcid)
            &&& builder.dcid is None ==> plan.dcid@.len() == builder.cid_len
            &&& builder.scid is Some ==> builder.scid == Some(plan.scid)
            &&& builder.scid is None ==> plan.scid@.len() == builder.cid_len
        }),
{
}

/// A connection exists once the engine made it and nothing it drew failed: holding nothing, with
/// nothing exchanged. A failed draw is never papered over.
pub proof fn law_a_connection_exists_once_the_engine_made_it<E, S>(
    plan: Blueprint<E, S>,
    rc: i32,
    entropy_failed: bool,
    result: Result<Conn<S>, Error>,
)
    requires
        call_ensures(Blueprint::<E, S>::constructed, (plan, rc, entropy_failed), result),
    ensures
        result is Ok <==> rc == 0 && !entropy_failed,
        rc != 0 ==> result->Err_0@.native == Some(rc as int),
        rc == 0 && entropy_failed ==> result->Err_0@.kind == ErrorKind::Internal
            && result->Err_0@.native is None,
        result matches Ok(conn) ==> {
            &&& conn.role == plan.role && conn.scid == plan.scid
            &&& conn.local == plan.local && conn.remote == plan.remote
            &&& conn.slot.session == plan.tls
            &&& forall|stream: int| !(#[trigger] conn.retained@.contains_key(stream))
            &&& !conn.slot.exchange.peer_taken && !conn.slot.exchange.local_yielded
            &&& !conn.slot.exchange.handshake_tx_installed
        },
{
}

/// A client's backend has to take the local parameters; a server's is given them later. They are
/// given only if they could be encoded and were taken.
pub proof fn law_a_client_is_bound_to_its_parameters<S>(
    conn: Conn<S>,
    rv: i32,
    result: Result<(), Error>,
    encoded: bool,
    taken: bool,
    code: i32,
)
    requires
        call_ensures(Conn::<S>::bind_tls, (&conn, rv), result),
        call_ensures(set_client_local_params, (encoded, taken), code),
    ensures
        conn.role == Role::Server ==> result is Ok,
        conn.role == Role::Client ==> (result is Ok <==> rv == 0),
        result is Err ==> result->Err_0@.native == Some(rv as int),
        code == 0 <==> encoded && taken,
        code == 0 || code == -502,
{
}

/// What a connection says of itself is what it was made with.
pub proof fn law_a_connection_says_what_it_was_made_with<S>(
    conn: Conn<S>,
    role: Role,
    scid: &ConnectionId,
    local: Address,
    remote: Address,
    session: &S,
    named: Role,
    server: bool,
)
    requires
        call_ensures(Conn::<S>::role, (&conn,), role),
        call_ensures(Conn::<S>::scid, (&conn,), scid),
        call_ensures(Conn::<S>::local_addr, (&conn,), local),
        call_ensures(Conn::<S>::remote_addr, (&conn,), remote),
        call_ensures(Conn::<S>::tls, (&conn,), session),
        call_ensures(Role::is_server, (named,), server),
    ensures
        role == conn.role,
        *scid == conn.scid,
        local == conn.local,
        remote == conn.remote,
        *session == conn.slot.session,
        server <==> named is Server,
{
}

/// A dial is built as a client for the address dialled, with what the configuration announces
/// and sets, and draws its own identifiers.
pub proof fn law_a_dial_is_built_as_configured<S, E: EntropySource>(
    session: S,
    local: Address,
    config: Config,
    around: Surroundings<E>,
    builder: ConnBuilder<E, S>,
    params: TransportParams,
    made: Settings,
)
    requires
        call_ensures(dial_builder::<S, E>, (session, local, &config, around), builder),
        call_ensures(Config::transport_params, (&config, around.params), params),
        call_ensures(Config::settings, (&config, around.now, around.settings), made),
    ensures
        builder.role == Role::Client && builder.tls == session,
        builder.local == local && builder.remote == around.remote,
        builder.settings@ == made@ && builder.params@ == params@,
        builder.entropy == around.entropy,
        builder.dcid is None && builder.scid is None,
        builder.version == 1 && builder.cid_len == 8,
{
}

/// A connection that is accepted is built as a server for whoever sent the packet, to the
/// identifier they call themselves by. What they first addressed is announced, and after a
/// retry so is the identifier the retry gave, along with the token that vouches for it.
pub proof fn law_an_accept_is_built_for_the_client<S, E: EntropySource>(
    session: S,
    local: Address,
    packet: InitialPacket,
    original: ConnectionId,
    retried: bool,
    config: Config,
    around: Surroundings<E>,
    builder: ConnBuilder<E, S>,
    params: TransportParams,
    made: Settings,
    token: Vec<u8>,
)
    requires
        call_ensures(
            accept_builder::<S, E>,
            (session, local, &packet, &original, retried, &config, around),
            builder,
        ),
        call_ensures(Config::transport_params, (&config, around.params), params),
        call_ensures(Config::settings, (&config, around.now, around.settings), made),
        call_ensures(crate::accept::InitialToken::bytes, (&packet.token,), token),
    ensures
        builder.role == Role::Server && builder.tls == session,
        builder.local == local && builder.remote == around.remote,
        builder.dcid == Some(packet.scid) && builder.scid is None,
        builder.entropy == around.entropy,
        builder.version == 1 && builder.cid_len == 8,
        builder.params@ == (NativeTransportParams {
            original_dcid: Some(original),
            retry_scid: if retried {
                Some(packet.dcid)
            } else {
                params@.retry_scid
            },
            ..params@
        }),
        !retried ==> builder.settings@ == made@,
        retried ==> {
            &&& builder.settings@.token_kind == Some(TokenKind::Retry)
            &&& builder.settings@.token@ == token@
            &&& builder.settings@ == (NativeSettings {
                token: builder.settings@.token,
                token_kind: builder.settings@.token_kind,
                ..made@
            })
        },
{
}

/// Nothing is opened or accepted without an address to do it from, and the socket is quoted on
/// why. What is planned is for the right role and the right peer, and bearable.
pub proof fn law_what_is_opened_is_for_the_right_peer<B: Backend, E: EntropySource>(
    backend: B,
    server_name: Option<&str>,
    config: Config,
    around: Surroundings<E>,
    dialled: Result<Blueprint<E, B::Session>, crate::endpoint::error::Error>,
    packet: InitialPacket,
    original: ConnectionId,
    retried: bool,
    accepted: Result<Blueprint<E, B::Session>, crate::endpoint::error::Error>,
    made: Settings,
    params: TransportParams,
)
    requires
        call_ensures(Config::transport_params, (&config, around.params), params),
        call_ensures(Config::settings, (&config, around.now, around.settings), made),
        call_ensures(dial::<B, E>, (&backend, server_name, &config, around), dialled),
        call_ensures(
            accept::<B, E>,
            (&backend, &packet, &original, retried, &config, around),
            accepted,
        ),
    ensures
        around.local matches Err(words) ==> {
            &&& dialled is Err && accepted is Err
            &&& dialled->Err_0@.kind == crate::endpoint::error::ErrorKind::Socket
            &&& accepted->Err_0@.kind == crate::endpoint::error::ErrorKind::Socket
            &&& dialled->Err_0@.cause == Some(CauseView::Socket(words@))
            &&& accepted->Err_0@.cause == Some(CauseView::Socket(words@))
        },
        around.local is Ok && dialled is Err ==> dialled->Err_0@.cause is Some
            && dialled->Err_0@.cause->Some_0 is Transport,
        around.local is Ok && accepted is Err ==> accepted->Err_0@.cause is Some
            && accepted->Err_0@.cause->Some_0 is Transport,
        dialled matches Ok(plan) ==> {
            &&& plan.role == Role::Client && plan.remote == around.remote && plan.version == 1
            &&& around.local == Ok::<Address, String>(plan.local)
            &&& plan.dcid@.len() == 8 && plan.scid@.len() == 8
            &&& bearable(plan.settings) && announceable(plan.params, false)
            &&& plan.params.original_dcid == around.params.original_dcid
            &&& plan.settings == made@ && plan.params == params@
            &&& plan.settings.initial_ts == around.now@ as u64
        },
        accepted matches Ok(plan) ==> {
            &&& plan.role == Role::Server && plan.remote == around.remote && plan.version == 1
            &&& around.local == Ok::<Address, String>(plan.local) && !around.reserved
            &&& plan.dcid == packet.scid && plan.scid@.len() == 8
            &&& bearable(plan.settings) && announceable(plan.params, true)
            &&& plan.params.original_dcid == Some(original)
            &&& retried ==> plan.params.retry_scid == Some(packet.dcid)
            &&& !retried ==> plan.settings == made@ && plan.params == (NativeTransportParams {
                original_dcid: Some(original),
                ..params@
            })
            &&& retried ==> plan.settings.token_kind == Some(TokenKind::Retry)
            &&& plan.settings.initial_ts == around.now@ as u64
        },
{
}

/// What a connection holds for the peer is what its streams hold.
pub proof fn law_a_connection_holds_what_its_streams_hold<S>(
    conn: Conn<S>,
    count: usize,
    held: usize,
)
    requires
        call_ensures(Conn::<S>::retained_bytes, (&conn,), count),
        call_ensures(crate::retain::Retained::bytes_held, (&conn.retained,), held),
    ensures
        count == held,
{
}

} // verus!
