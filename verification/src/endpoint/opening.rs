//! Planning the connections an endpoint opens and accepts.

use vstd::prelude::*;

use crate::accept::{InitialPacket, VERSION_V1};
use crate::cid::{ConnectionId, DEFAULT_LEN};
use crate::conn::{Blueprint, ConnBuilder};
use crate::endpoint::config::Config;
use crate::endpoint::error::{Error, ErrorView};
use crate::params::NativeTransportParams;
use crate::path::Address;
use crate::rand::EntropySource;
use crate::settings::{NativeSettings, TokenKind};
use crate::time::Timestamp;
use crate::tls::{Backend, Role};

verus! {

/// How a socket without an address is described.
pub const NO_ADDRESS: &'static str = "the socket has no address";

/// What the runtime brings to a new connection.
pub struct Surroundings<E> {
    /// Where the socket is bound, or why it could not say.
    pub local: Result<Address, String>,
    /// Where the peer is.
    pub remote: Address,
    /// The time.
    pub now: Timestamp,
    /// The engine's own settings.
    pub settings: NativeSettings,
    /// The engine's own transport parameters.
    pub params: NativeTransportParams,
    /// Where randomness comes from.
    pub entropy: E,
    /// Whether the engine reserves the version for exercising negotiation.
    pub reserved: bool,
}

/// The parameters a server announces for a connection it accepted.
///
/// The identifier the client first addressed is required of every server. After a Retry the
/// client also verifies that the identifier it was told to address really came from one.
pub open spec fn accepting_params(
    base: NativeTransportParams,
    packet: InitialPacket,
    original: ConnectionId,
    retried: bool,
) -> NativeTransportParams {
    NativeTransportParams {
        original_dcid: Some(original),
        retry_scid: if retried {
            Some(packet.dcid)
        } else {
            base.retry_scid
        },
        ..base
    }
}

/// Whether settings are the ones for a connection a server accepted: after a Retry they carry
/// the token that came back.
pub open spec fn accepting_settings(
    settings: NativeSettings,
    base: NativeSettings,
    packet: InitialPacket,
    retried: bool,
) -> bool {
    if retried {
        &&& settings == (NativeSettings {
            token: settings.token,
            token_kind: Some(TokenKind::Retry),
            ..base
        })
        &&& settings.token@ == packet.token.content()
    } else {
        settings == base
    }
}

/// Whether a builder is the one for a connection this endpoint initiates.
pub open spec fn dialling<S, E: EntropySource>(
    builder: ConnBuilder<E, S>,
    session: S,
    local: Address,
    config: Config,
    around: Surroundings<E>,
) -> bool {
    &&& builder.role == Role::Client
    &&& builder.settings@ == config.settings_over(around.now@, around.settings)
    &&& builder.params@ == config.params_over(around.params)
    &&& builder.entropy == around.entropy
    &&& builder.tls == session
    &&& builder.local == local
    &&& builder.remote == around.remote
    &&& builder.dcid is None
    &&& builder.scid is None
    &&& builder.version == VERSION_V1
    &&& builder.cid_len == DEFAULT_LEN
}

/// Everything a connection this endpoint initiates is built from, given the session its TLS
/// backend made. Both of its identifiers are still to be drawn.
pub fn dial_builder<S, E: EntropySource>(
    session: S,
    local: Address,
    config: &Config,
    around: Surroundings<E>,
) -> (builder: ConnBuilder<E, S>)
    ensures
        dialling(builder, session, local, *config, around),
{
    ConnBuilder::new(
        Role::Client,
        config.settings(around.now, around.settings),
        config.transport_params(around.params),
        around.entropy,
        session,
        local,
        around.remote,
    )
}

/// Whether building from `builder` can come to `result`: a failure is reported as the
/// transport's.
pub open spec fn planned<S, E: EntropySource>(
    builder: ConnBuilder<E, S>,
    reserved: bool,
    result: Result<Blueprint<E, S>, Error>,
) -> bool {
    exists|built: Result<Blueprint<E, S>, crate::error::Error>|
        {
            &&& #[trigger] builder.builds(reserved, built)
            &&& match built {
                Ok(plan) => result matches Ok(made) && made == plan,
                Err(error) => result matches Err(failure) && failure@ == ErrorView::transport(
                    error@,
                ),
            }
        }
}

/// Whether dialling with a session can come to `result`.
pub open spec fn dials<S, E: EntropySource>(
    session: S,
    local: Address,
    config: Config,
    around: Surroundings<E>,
    result: Result<Blueprint<E, S>, Error>,
) -> bool {
    exists|builder: ConnBuilder<E, S>|
        {
            &&& #[trigger] dialling(builder, session, local, config, around)
            &&& planned(builder, around.reserved, result)
        }
}

/// Plans a connection this endpoint initiates.
///
/// The backend is asked for a client session that verifies `server_name`. Where it makes one,
/// the connection is built around it; where it does not, its error is reported.
pub fn dial<B: Backend, E: EntropySource>(
    backend: &B,
    server_name: Option<&str>,
    config: &Config,
    around: Surroundings<E>,
) -> (result: Result<Blueprint<E, B::Session>, Error>)
    ensures
        around.local matches Err(words) ==> (result matches Err(failure) && failure@
            == ErrorView::socket(NO_ADDRESS@, words@)),
        around.local matches Ok(local) ==> exists|made: Result<B::Session, crate::error::Error>|
            {
                &&& #[trigger] backend.makes(Role::Client, server_name, made)
                &&& match made {
                    Ok(session) => dials(session, local, *config, around, result),
                    Err(error) => result matches Err(failure) && failure@ == ErrorView::transport(
                        error@,
                    ),
                }
            },
        result matches Ok(plan) ==> {
            &&& around.local == Ok::<Address, String>(plan.local)
            &&& plan.role == Role::Client
            &&& plan.remote == around.remote
            &&& plan.version == VERSION_V1
            &&& plan.settings == config.settings_over(around.now@, around.settings)
            &&& plan.params == config.params_over(around.params)
            &&& plan.settings.fault() is None
            &&& plan.params.fault(false) is None
            &&& plan.dcid@.len() == DEFAULT_LEN
            &&& plan.scid@.len() == DEFAULT_LEN
        },
{
    let ghost given = around;
    let mut around = around;
    let mut bound: Result<Address, String> = Ok(around.remote);
    std::mem::swap(&mut bound, &mut around.local);
    let local = match bound {
        Ok(local) => local,
        Err(words) => return Err(Error::socket(NO_ADDRESS, words)),
    };
    let made = backend.new_session(Role::Client, server_name);
    assert(backend.makes(Role::Client, server_name, made));
    let session = match made {
        Ok(session) => session,
        Err(error) => return Err(Error::from(error)),
    };
    let reserved: bool = around.reserved;
    let builder = dial_builder(session, local, config, around);
    let ghost settled = builder;
    assert(dialling(settled, session, local, *config, given));
    let built = builder.build(reserved);
    assert(settled.builds(reserved, built));
    match built {
        Ok(plan) => Ok(plan),
        Err(error) => Err(Error::from(error)),
    }
}

/// Whether a builder is the one for a connection a peer initiated.
pub open spec fn answering<S, E: EntropySource>(
    builder: ConnBuilder<E, S>,
    session: S,
    local: Address,
    packet: InitialPacket,
    original: ConnectionId,
    retried: bool,
    config: Config,
    around: Surroundings<E>,
) -> bool {
    &&& builder.role == Role::Server
    &&& accepting_settings(
        builder.settings@,
        config.settings_over(around.now@, around.settings),
        packet,
        retried,
    )
    &&& builder.params@ == accepting_params(
        config.params_over(around.params),
        packet,
        original,
        retried,
    )
    &&& builder.entropy == around.entropy
    &&& builder.tls == session
    &&& builder.local == local
    &&& builder.remote == around.remote
    &&& builder.dcid == Some(packet.scid)
    &&& builder.scid is None
    &&& builder.version == VERSION_V1
    &&& builder.cid_len == DEFAULT_LEN
}

/// Everything a connection a peer initiated is built from, given the session the TLS backend
/// made.
///
/// A server is addressed by the client's own identifier, and is told the one the client first
/// addressed: without it the engine cannot build a server at all. The identifier it is
/// addressed by is still to be drawn.
pub fn accept_builder<S, E: EntropySource>(
    session: S,
    local: Address,
    packet: &InitialPacket,
    original: &ConnectionId,
    retried: bool,
    config: &Config,
    around: Surroundings<E>,
) -> (builder: ConnBuilder<E, S>)
    ensures
        answering(builder, session, local, *packet, *original, retried, *config, around),
{
    let mut params = config.transport_params(around.params).original_dcid(original);
    let mut settings = config.settings(around.now, around.settings);
    if retried {
        params = params.retry_scid(&packet.dcid);
        settings = settings.validated_token(packet.token.bytes(), TokenKind::Retry);
    }
    ConnBuilder::new(
        Role::Server,
        settings,
        params,
        around.entropy,
        session,
        local,
        around.remote,
    ).dcid(packet.scid)
}

/// Whether accepting with a session can come to `result`.
pub open spec fn accepts<S, E: EntropySource>(
    session: S,
    local: Address,
    packet: InitialPacket,
    original: ConnectionId,
    retried: bool,
    config: Config,
    around: Surroundings<E>,
    result: Result<Blueprint<E, S>, Error>,
) -> bool {
    exists|builder: ConnBuilder<E, S>|
        {
            &&& #[trigger] answering(
                builder,
                session,
                local,
                packet,
                original,
                retried,
                config,
                around,
            )
            &&& planned(builder, around.reserved, result)
        }
}

/// Plans a connection a peer initiated.
///
/// The backend is asked for a server session. Where it makes one, the connection is built
/// around it; where it does not, its error is reported.
pub fn accept<B: Backend, E: EntropySource>(
    backend: &B,
    packet: &InitialPacket,
    original: &ConnectionId,
    retried: bool,
    config: &Config,
    around: Surroundings<E>,
) -> (result: Result<Blueprint<E, B::Session>, Error>)
    ensures
        around.local matches Err(words) ==> (result matches Err(failure) && failure@
            == ErrorView::socket(NO_ADDRESS@, words@)),
        around.local matches Ok(local) ==> exists|made: Result<B::Session, crate::error::Error>|
            {
                &&& #[trigger] backend.makes(Role::Server, None, made)
                &&& match made {
                    Ok(session) => accepts(
                        session,
                        local,
                        *packet,
                        *original,
                        retried,
                        *config,
                        around,
                        result,
                    ),
                    Err(error) => result matches Err(failure) && failure@ == ErrorView::transport(
                        error@,
                    ),
                }
            },
        result matches Ok(plan) ==> {
            &&& around.local == Ok::<Address, String>(plan.local)
            &&& !around.reserved
            &&& plan.role == Role::Server
            &&& plan.remote == around.remote
            &&& plan.version == VERSION_V1
            &&& accepting_settings(
                plan.settings,
                config.settings_over(around.now@, around.settings),
                *packet,
                retried,
            )
            &&& plan.params == accepting_params(
                config.params_over(around.params),
                *packet,
                *original,
                retried,
            )
            &&& plan.settings.fault() is None
            &&& plan.params.fault(true) is None
            &&& plan.dcid == packet.scid
            &&& plan.scid@.len() == DEFAULT_LEN
        },
{
    let ghost given = around;
    let mut around = around;
    let mut bound: Result<Address, String> = Ok(around.remote);
    std::mem::swap(&mut bound, &mut around.local);
    let local = match bound {
        Ok(local) => local,
        Err(words) => return Err(Error::socket(NO_ADDRESS, words)),
    };
    let made = backend.new_session(Role::Server, None);
    assert(backend.makes(Role::Server, None, made));
    let session = match made {
        Ok(session) => session,
        Err(error) => return Err(Error::from(error)),
    };
    let reserved: bool = around.reserved;
    let builder = accept_builder(session, local, packet, original, retried, config, around);
    let ghost settled = builder;
    assert(answering(settled, session, local, *packet, *original, retried, *config, given));
    let built = builder.build(reserved);
    assert(settled.builds(reserved, built));
    match built {
        Ok(plan) => Ok(plan),
        Err(error) => Err(Error::from(error)),
    }
}

} // verus!
