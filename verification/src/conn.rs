//! Building a connection, and what this crate keeps beside the engine's own state.

use vstd::prelude::*;

use crate::accept::VERSION_V1;
use crate::cid::{draws, permitted_len, ConnectionId, BAD_LENGTH, DEFAULT_LEN};
use crate::error::{Error, ErrorKind, ErrorView};
use crate::native;
use crate::params::{NativeTransportParams, TransportParams};
use crate::path::Address;
use crate::rand::EntropySource;
use crate::retain::{held_total, Retained, StreamView};
use crate::settings::{NativeSettings, Settings};
use crate::tls::Role;
use crate::tls_bridge::{Exchange, SessionSlot};
use crate::validate::{server_version, RESERVED_VERSION};

verus! {

/// Why a server without the client's identifier is refused.
pub const SERVER_NEEDS_DCID: &'static str =
    "a server must be given the client's source connection ID as its \
     destination; take it from `Inspection::Supported`";

/// What failed when the engine would not build a connection.
pub const CREATE_FAILED: &'static str = "could not create the connection";

/// Why a connection built on failed randomness is refused.
pub const ENTROPY_FAILED: &'static str =
    "the entropy source failed while the connection was being created";

/// What failed when a session would not take its parameters.
pub const BIND_FAILED: &'static str =
    "the TLS backend would not take the local transport parameters";

/// Everything a connection is built from.
pub struct ConnBuilder<E, S> {
    /// Which side of the connection this is.
    pub role: Role,
    /// The local half of the configuration.
    pub settings: Settings,
    /// The negotiated half.
    pub params: TransportParams,
    /// Where randomness comes from.
    pub entropy: E,
    /// The TLS session.
    pub tls: S,
    /// This endpoint's address.
    pub local: Address,
    /// The peer's address.
    pub remote: Address,
    /// The identifier to address the peer by.
    pub dcid: Option<ConnectionId>,
    /// The identifier to be addressed by.
    pub scid: Option<ConnectionId>,
    /// The QUIC version.
    pub version: u32,
    /// How long generated identifiers are.
    pub cid_len: usize,
}

/// A connection ready to be handed to the engine's constructor.
pub struct Blueprint<E, S> {
    /// Which side of the connection this is.
    pub role: Role,
    /// The validated settings.
    pub settings: NativeSettings,
    /// The validated parameters.
    pub params: NativeTransportParams,
    /// Where randomness comes from.
    pub entropy: E,
    /// The TLS session.
    pub tls: S,
    /// This endpoint's address.
    pub local: Address,
    /// The peer's address.
    pub remote: Address,
    /// The identifier to address the peer by.
    pub dcid: ConnectionId,
    /// The identifier to be addressed by.
    pub scid: ConnectionId,
    /// The QUIC version.
    pub version: u32,
}

impl<E: EntropySource, S> ConnBuilder<E, S> {
    /// Starts a connection of the primary version, with identifiers yet to be chosen.
    pub fn new(
        role: Role,
        settings: Settings,
        params: TransportParams,
        entropy: E,
        tls: S,
        local: Address,
        remote: Address,
    ) -> (builder: Self)
        ensures
            builder == (ConnBuilder {
                role,
                settings,
                params,
                entropy,
                tls,
                local,
                remote,
                dcid: None,
                scid: None,
                version: VERSION_V1,
                cid_len: DEFAULT_LEN,
            }),
    {
        Self {
            role,
            settings,
            params,
            entropy,
            tls,
            local,
            remote,
            dcid: None,
            scid: None,
            version: VERSION_V1,
            cid_len: DEFAULT_LEN,
        }
    }

    /// Sets the identifier to address the peer by.
    pub fn dcid(self, dcid: ConnectionId) -> (builder: Self)
        ensures
            builder == (ConnBuilder { dcid: Some(dcid), ..self }),
    {
        let mut builder = self;
        builder.dcid = Some(dcid);
        builder
    }

    /// Sets the identifier to be addressed by.
    pub fn scid(self, scid: ConnectionId) -> (builder: Self)
        ensures
            builder == (ConnBuilder { scid: Some(scid), ..self }),
    {
        let mut builder = self;
        builder.scid = Some(scid);
        builder
    }

    /// Sets the QUIC version.
    pub fn version(self, version: u32) -> (builder: Self)
        ensures
            builder == (ConnBuilder { version, ..self }),
    {
        let mut builder = self;
        builder.version = version;
        builder
    }

    /// Sets how long generated identifiers are.
    pub fn cid_len(self, len: usize) -> (builder: Self)
        ensures
            builder == (ConnBuilder { cid_len: len, ..self }),
    {
        let mut builder = self;
        builder.cid_len = len;
        builder
    }

    /// Why this connection is refused before any randomness is drawn, if it is.
    ///
    /// A server must be told the client's identifier: one it made up would name a connection
    /// the client has never heard of. An identifier of a length QUIC does not allow cannot
    /// be generated.
    pub open spec fn early_fault(self, reserved: bool) -> Option<Seq<char>> {
        if self.role == Role::Server && reserved {
            Some(RESERVED_VERSION@)
        } else if self.role == Role::Server && self.dcid is None {
            Some(SERVER_NEEDS_DCID@)
        } else if (self.dcid is None || self.scid is None) && !permitted_len(self.cid_len as int) {
            Some(BAD_LENGTH@)
        } else {
            None
        }
    }

    /// Why this connection is refused once its identifiers are settled, if it is.
    pub open spec fn late_fault(self) -> Option<Seq<char>> {
        if self.settings@.fault() is Some {
            self.settings@.fault()
        } else {
            self.params@.fault(self.role == Role::Server)
        }
    }

    /// Whether building can come to `result`.
    pub open spec fn builds(self, reserved: bool, result: Result<Blueprint<E, S>, Error>) -> bool {
        match self.early_fault(reserved) {
            Some(context) => result matches Err(error) && error@ == ErrorView::invalid_input(
                context,
            ),
            None => match self.dcid {
                Some(dcid) => self.addresses(dcid, self.entropy, result),
                None => exists|drawn: Result<ConnectionId, Error>, entropy: E|
                    {
                        &&& #[trigger] draws(
                            self.entropy,
                            self.cid_len as nat,
                            drawn,
                            entropy.progress(),
                        )
                        &&& match drawn {
                            Ok(dcid) => self.addresses(dcid, entropy, result),
                            Err(error) => result matches Err(failure) && failure == error,
                        }
                    },
            },
        }
    }

    /// Whether building can come to `result` once the identifier to address the peer by is
    /// settled and the source has got as far as `entropy`.
    pub open spec fn addresses(
        self,
        dcid: ConnectionId,
        entropy: E,
        result: Result<Blueprint<E, S>, Error>,
    ) -> bool {
        match self.scid {
            Some(scid) => self.concludes(dcid, scid, entropy.progress(), result),
            None => exists|drawn: Result<ConnectionId, Error>, after: Seq<nat>|
                {
                    &&& #[trigger] draws(entropy, self.cid_len as nat, drawn, after)
                    &&& match drawn {
                        Ok(scid) => self.concludes(dcid, scid, after, result),
                        Err(error) => result matches Err(failure) && failure == error,
                    }
                },
        }
    }

    /// Whether building comes to `result` once both identifiers are settled: the
    /// configuration decides.
    pub open spec fn concludes(
        self,
        dcid: ConnectionId,
        scid: ConnectionId,
        after: Seq<nat>,
        result: Result<Blueprint<E, S>, Error>,
    ) -> bool {
        match self.late_fault() {
            Some(context) => result matches Err(error) && error@ == ErrorView::invalid_input(
                context,
            ),
            None => {
                &&& result matches Ok(plan)
                &&& plan.role == self.role
                &&& plan.settings == self.settings@
                &&& plan.params == self.params@
                &&& plan.entropy.progress() == after
                &&& plan.tls == self.tls
                &&& plan.local == self.local
                &&& plan.remote == self.remote
                &&& plan.dcid == dcid
                &&& plan.scid == scid
                &&& plan.version == self.version
            },
        }
    }

    /// Settles the identifiers and validates the configuration.
    ///
    /// `reserved` says whether the engine reserves the version for exercising negotiation.
    /// Identifiers come first, because they may need randomness and a failure there should
    /// leave nothing half built. Where both are given none is drawn, and the outcome depends
    /// on the configuration alone; otherwise a source that fails is the one further way not
    /// to succeed, and its error is the one reported.
    pub fn build(self, reserved: bool) -> (result: Result<Blueprint<E, S>, Error>)
        ensures
            self.builds(reserved, result),
            self.early_fault(reserved) matches Some(context) ==> (result matches Err(error)
                && error@ == ErrorView::invalid_input(context)),
            self.early_fault(reserved) is None && self.dcid is Some && self.scid is Some ==> {
                &&& result is Ok <==> self.late_fault() is None
                &&& self.late_fault() matches Some(context) ==> (result matches Err(error)
                    && error@ == ErrorView::invalid_input(context))
            },
            result matches Ok(plan) ==> {
                &&& self.early_fault(reserved) is None
                &&& self.late_fault() is None
                &&& plan.role == self.role
                &&& plan.settings == self.settings@
                &&& plan.params == self.params@
                &&& plan.tls == self.tls
                &&& plan.local == self.local
                &&& plan.remote == self.remote
                &&& plan.version == self.version
                &&& match self.dcid {
                    Some(dcid) => plan.dcid == dcid,
                    None => plan.dcid@.len() == self.cid_len,
                }
                &&& match self.scid {
                    Some(scid) => plan.scid == scid,
                    None => plan.scid@.len() == self.cid_len,
                }
                &&& self.dcid is Some && self.scid is Some ==> plan.entropy == self.entropy
            },
    {
        let server: bool = self.role.is_server();
        match server_version(server, reserved) {
            Ok(()) => {},
            Err(error) => return Err(error),
        }
        let mut entropy = self.entropy;
        let dcid = match self.dcid {
            Some(dcid) => dcid,
            None => {
                if server {
                    return Err(Error::invalid_input(SERVER_NEEDS_DCID));
                }
                let drawn = ConnectionId::generate(&mut entropy, self.cid_len);
                assert(permitted_len(self.cid_len as int) ==> draws(
                    self.entropy,
                    self.cid_len as nat,
                    drawn,
                    entropy.progress(),
                ));
                match drawn {
                    Ok(dcid) => dcid,
                    Err(error) => return Err(error),
                }
            },
        };
        let ghost addressed = entropy;
        let scid = match self.scid {
            Some(scid) => scid,
            None => {
                let drawn = ConnectionId::generate(&mut entropy, self.cid_len);
                assert(permitted_len(self.cid_len as int) ==> draws(
                    addressed,
                    self.cid_len as nat,
                    drawn,
                    entropy.progress(),
                ));
                match drawn {
                    Ok(scid) => scid,
                    Err(error) => return Err(error),
                }
            },
        };
        let settings = match self.settings.build() {
            Ok(settings) => settings,
            Err(error) => return Err(error),
        };
        let params = match self.params.build(server) {
            Ok(params) => params,
            Err(error) => return Err(error),
        };
        Ok(
            Blueprint {
                role: self.role,
                settings,
                params,
                entropy,
                tls: self.tls,
                local: self.local,
                remote: self.remote,
                dcid,
                scid,
                version: self.version,
            },
        )
    }
}

/// What this crate keeps beside the engine's own connection.
pub struct Conn<S> {
    /// Which side of the connection this is.
    pub role: Role,
    /// The identifier this connection was built with.
    pub scid: ConnectionId,
    /// This endpoint's address.
    pub local: Address,
    /// The peer's address.
    pub remote: Address,
    /// Sent stream data the peer has not acknowledged.
    pub retained: Retained,
    /// The TLS session, and how far its exchange has got.
    pub slot: SessionSlot<S>,
}

impl<E, S> Blueprint<E, S> {
    /// What the engine's constructor came to.
    ///
    /// The engine cannot be told that randomness failed while it was building, and uses the
    /// buffer regardless. Such a connection is refused afterwards, so that its predictable
    /// bytes never reach the wire.
    pub fn constructed(self, rc: i32, entropy_failed: bool) -> (result: Result<Conn<S>, Error>)
        ensures
            match result {
                Ok(conn) => {
                    &&& rc == 0 && !entropy_failed
                    &&& conn.role == self.role
                    &&& conn.scid == self.scid
                    &&& conn.local == self.local
                    &&& conn.remote == self.remote
                    &&& conn.retained@ == Map::<int, StreamView>::empty()
                    &&& conn.retained.wf()
                    &&& conn.slot.session == self.tls
                    &&& conn.slot.exchange.untouched()
                    &&& conn.slot.exchange.wf()
                },
                Err(error) => if rc != 0 {
                    error@ == ErrorView::from_native(rc as int, CREATE_FAILED@)
                } else {
                    entropy_failed && error@ == (ErrorView {
                        kind: ErrorKind::Internal,
                        native: None,
                        context: ENTROPY_FAILED@,
                        unusable: false,
                    })
                },
            },
    {
        if rc != 0 {
            return Err(Error::native(rc, CREATE_FAILED));
        }
        if entropy_failed {
            return Err(Error::with_kind(ErrorKind::Internal, ENTROPY_FAILED));
        }
        Ok(
            Conn {
                role: self.role,
                scid: self.scid,
                local: self.local,
                remote: self.remote,
                retained: Retained::new(),
                slot: SessionSlot { session: self.tls, exchange: Exchange::default() },
            },
        )
    }
}

/// What handing a client its transport parameters is answered with: they have to be encoded
/// and the session has to take them.
pub fn set_client_local_params(encoded: bool, taken: bool) -> (code: i32)
    ensures
        code == (if encoded && taken {
            0
        } else {
            native::ERR_CALLBACK_FAILURE
        }),
{
    if encoded && taken {
        0
    } else {
        native::ERR_CALLBACK_FAILURE
    }
}

impl<S> Conn<S> {
    /// What binding the TLS session came to.
    ///
    /// A client's parameters travel in its very first message and are handed over now. A
    /// server's are not yet knowable, and it obtains them during the handshake instead.
    pub fn bind_tls(&self, rv: i32) -> (result: Result<(), Error>)
        ensures
            match result {
                Ok(()) => self.role == Role::Server || rv == 0,
                Err(error) => {
                    &&& self.role == Role::Client && rv != 0
                    &&& error@ == ErrorView::from_native(rv as int, BIND_FAILED@)
                },
            },
    {
        if self.role == Role::Client && rv != 0 {
            return Err(Error::native(rv, BIND_FAILED));
        }
        Ok(())
    }

    /// Which side of the connection this is.
    pub fn role(&self) -> (role: Role)
        ensures
            role == self.role,
    {
        self.role
    }

    /// The identifier this connection was built with.
    pub fn scid(&self) -> (scid: &ConnectionId)
        ensures
            *scid == self.scid,
    {
        &self.scid
    }

    /// This endpoint's address.
    pub fn local_addr(&self) -> (address: Address)
        ensures
            address == self.local,
    {
        self.local
    }

    /// The peer's address.
    pub fn remote_addr(&self) -> (address: Address)
        ensures
            address == self.remote,
    {
        self.remote
    }

    /// The TLS session.
    pub fn tls(&self) -> (session: &S)
        ensures
            *session == self.slot.session,
    {
        &self.slot.session
    }

    /// Bytes of sent stream data currently held for retransmission.
    pub fn retained_bytes(&self) -> (count: usize)
        requires
            held_total(self.retained@) <= usize::MAX,
        ensures
            count == held_total(self.retained@),
    {
        self.retained.bytes_held()
    }
}

} // verus!
