//! Deciding whether a first packet has earned a connection.
//!
//! The policy half of address validation; the cryptography belongs to the TLS helpers. What
//! lives here is what a server *does* with a first packet, and the two things that make doing
//! it safe: never committing per-connection state before an address is validated, and never
//! answering an unmatched datagram without limit.

use vstd::prelude::*;

use crate::accept::{InitialPacket, InitialToken};
use crate::cid::{draws, ConnectionId, DEFAULT_LEN};
use crate::error::Error;
use crate::rand::EntropySource;
use crate::time::{Duration, Timestamp};

verus! {

/// How long a Retry token stays valid, in nanoseconds, unless overridden.
///
/// Long enough for a client on a slow path to come back, short enough that a captured token
/// is not a lasting credential.
pub const DEFAULT_TOKEN_LIFETIME: u64 = 10_000_000_000;

/// How many stateless resets may be sent in a burst, unless overridden.
pub const DEFAULT_RESET_BURST: u32 = 100;

/// How long it takes the reset budget to refill, in nanoseconds.
pub const REFILL_AFTER: u64 = 1_000_000_000;

/// A server's address-validation configuration, around whatever secret its tokens rest on.
#[derive(Debug)]
pub struct Validation<S> {
    /// The secret.
    pub secret: S,
    /// How long a token stays valid.
    pub lifetime: Duration,
    /// Stateless resets still permitted in this burst.
    pub reset_budget: u32,
    /// The size of the burst, restored as time passes.
    pub reset_burst: u32,
    /// When the budget was last refilled.
    pub refilled_at: Option<Timestamp>,
}

/// What to do with a first packet.
#[derive(Debug)]
pub enum Decision {
    /// Build a connection, using this as the identifier the client first addressed.
    Accept(ConnectionId),
    /// Answer with a Retry carrying this token, sent from this identifier.
    Retry {
        /// The identifier the server puts in the Retry as its source.
        scid: ConnectionId,
        /// The token to carry.
        token: Vec<u8>,
    },
    /// Answer with nothing.
    Ignore,
}

/// What a first packet has earned so far.
#[derive(Debug)]
pub enum Verdict {
    /// It proved its address.
    Accept(ConnectionId),
    /// It is to be sent a Retry from this identifier, once a token has been issued for it.
    Issue(ConnectionId),
    /// It is to be ignored.
    Ignore,
}

/// Whether a token says it came from a Retry, which is the only kind that can prove anything
/// about where its bearer is.
pub open spec fn claims_retry(packet: InitialPacket) -> bool {
    packet.token is Retry
}

/// The token to verify before deciding, where a packet carries one that claims to have come
/// from a Retry.
pub fn presented(packet: &InitialPacket) -> (token: Option<&[u8]>)
    ensures
        token is Some <==> claims_retry(*packet),
        token matches Some(bytes) ==> bytes@ == packet.token.content(),
{
    match &packet.token {
        InitialToken::Retry(bytes) => Some(bytes.as_slice()),
        _ => None,
    }
}

/// What a first packet has earned: a connection, where its token verified, and otherwise a
/// Retry where an identifier could be drawn for one.
pub open spec fn verdict_of(
    packet: InitialPacket,
    verified: Option<ConnectionId>,
    drawn: Result<ConnectionId, Error>,
) -> Verdict {
    if claims_retry(packet) && verified is Some {
        Verdict::Accept(verified->Some_0)
    } else {
        match drawn {
            Ok(scid) => Verdict::Issue(scid),
            Err(_) => Verdict::Ignore,
        }
    }
}

/// The decision a verdict comes to, where a Retry that is due still needs its token.
pub open spec fn decision_of(verdict: Verdict, issued: Result<Vec<u8>, Error>) -> Decision {
    match verdict {
        Verdict::Accept(original) => Decision::Accept(original),
        Verdict::Issue(scid) => match issued {
            Ok(token) => Decision::Retry { scid, token },
            Err(_) => Decision::Ignore,
        },
        Verdict::Ignore => Decision::Ignore,
    }
}

/// What a first packet has earned, given what verifying its token came to and the identifier
/// drawn for a Retry.
///
/// A token that does not verify is treated as no token at all: the client gets a fresh Retry
/// rather than an error, because the usual cause is a token that simply expired.
pub fn judge(
    packet: &InitialPacket,
    verified: Option<ConnectionId>,
    drawn: Result<ConnectionId, Error>,
) -> (verdict: Verdict)
    ensures
        verdict == verdict_of(*packet, verified, drawn),
{
    if let InitialToken::Retry(_) = &packet.token {
        if let Some(original) = verified {
            return Verdict::Accept(original);
        }
    }
    match drawn {
        Ok(scid) => Verdict::Issue(scid),
        Err(_) => Verdict::Ignore,
    }
}

/// Turns a verdict into a decision, given the token issued where one was asked for.
pub fn conclude(verdict: Verdict, issued: Result<Vec<u8>, Error>) -> (decision: Decision)
    ensures
        decision == decision_of(verdict, issued),
{
    match verdict {
        Verdict::Accept(original) => Decision::Accept(original),
        Verdict::Issue(scid) => match issued {
            Ok(token) => Decision::Retry { scid, token },
            Err(_) => Decision::Ignore,
        },
        Verdict::Ignore => Decision::Ignore,
    }
}

impl<S> Validation<S> {
    /// Builds a validating policy.
    pub fn new(secret: S) -> (policy: Self)
        ensures
            policy.secret == secret,
            policy.lifetime@ == DEFAULT_TOKEN_LIFETIME,
            policy.reset_budget == DEFAULT_RESET_BURST,
            policy.reset_burst == DEFAULT_RESET_BURST,
            policy.refilled_at is None,
    {
        Self {
            secret,
            lifetime: Duration::from_nanos(DEFAULT_TOKEN_LIFETIME),
            reset_budget: DEFAULT_RESET_BURST,
            reset_burst: DEFAULT_RESET_BURST,
            refilled_at: None,
        }
    }

    /// Sets how long a token stays valid.
    pub fn lifetime(&mut self, lifetime: Duration)
        ensures
            *final(self) == (Validation { lifetime, ..*old(self) }),
    {
        self.lifetime = lifetime;
    }

    /// Sets the stateless reset burst, and fills the budget to it.
    pub fn reset_burst(&mut self, burst: u32)
        ensures
            *final(self) == (Validation {
                reset_burst: burst,
                reset_budget: burst,
                ..*old(self)
            }),
    {
        self.reset_burst = burst;
        self.reset_budget = burst;
    }

    /// Decides what a first packet has earned, given what verifying its token came to.
    ///
    /// The policy itself never changes: a Retry is computed from the packet and the secret
    /// and then forgotten, which is what makes it cheap enough to answer a flood with. An
    /// identifier is drawn only where a Retry is due, and a source that yields one is answered
    /// with a Retry from it.
    pub fn decide<E: EntropySource>(
        &self,
        packet: &InitialPacket,
        verified: Option<ConnectionId>,
        entropy: &mut E,
    ) -> (verdict: Verdict)
        ensures
            claims_retry(*packet) && verified is Some ==> {
                &&& verdict == Verdict::Accept(verified->Some_0)
                &&& *final(entropy) == *old(entropy)
            },
            !(claims_retry(*packet) && verified is Some) ==> {
                &&& exists|drawn: Result<ConnectionId, Error>|
                    {
                        &&& #[trigger] draws(
                            *old(entropy),
                            DEFAULT_LEN as nat,
                            drawn,
                            (*final(entropy)).progress(),
                        )
                        &&& verdict == verdict_of(*packet, verified, drawn)
                    }
                &&& verdict matches Verdict::Issue(scid) ==> scid@.len() == DEFAULT_LEN
            },
    {
        if let InitialToken::Retry(_) = &packet.token {
            if let Some(original) = verified {
                return Verdict::Accept(original);
            }
        }
        let drawn = ConnectionId::generate(entropy, DEFAULT_LEN);
        assert(draws(*old(entropy), DEFAULT_LEN as nat, drawn, (*entropy).progress()));
        judge(packet, verified, drawn)
    }

    /// Whether the budget is due to be refilled.
    pub open spec fn refill_due(&self, now: nat) -> bool {
        self.refilled_at matches Some(at) && now - at@ >= REFILL_AFTER
    }

    /// The budget there is to draw on.
    pub open spec fn available(&self, now: nat) -> u32 {
        if self.refill_due(now) {
            self.reset_burst
        } else {
            self.reset_budget
        }
    }

    /// Whether there is a reset left to take.
    pub open spec fn permits(&self, now: Timestamp) -> bool {
        self.available(now@) > 0
    }

    /// This policy once a reset has been asked for.
    pub open spec fn after_asking(self, now: Timestamp) -> Self {
        Validation {
            reset_budget: if self.permits(now) {
                (self.available(now@) - 1) as u32
            } else {
                0
            },
            refilled_at: if self.refilled_at is None || self.refill_due(now@) {
                Some(now)
            } else {
                self.refilled_at
            },
            ..self
        }
    }

    /// Takes one stateless reset from the budget, refilling it as time passes.
    ///
    /// Says whether there was one to take; where there was not, the datagram draws silence.
    /// The budget refills all at once: it exists to bound a flood, not to shape traffic.
    pub fn take_reset_budget(&mut self, now: Timestamp) -> (permitted: bool)
        ensures
            permitted == old(self).permits(now),
            *final(self) == old(self).after_asking(now),
    {
        match self.refilled_at {
            Some(at) => {
                if now.as_nanos().saturating_sub(at.as_nanos()) >= REFILL_AFTER {
                    self.reset_budget = self.reset_burst;
                    self.refilled_at = Some(now);
                }
            },
            None => {
                self.refilled_at = Some(now);
            },
        }
        if self.reset_budget == 0 {
            return false;
        }
        self.reset_budget = self.reset_budget - 1;
        true
    }

    /// The secret, for deriving reset tokens.
    pub fn secret(&self) -> (secret: &S)
        ensures
            *secret == self.secret,
    {
        &self.secret
    }
}

/// A policy once a reset has been asked for at each of some times in turn.
pub open spec fn after_asking_all<S>(policy: Validation<S>, times: Seq<Timestamp>) -> Validation<S>
    decreases times.len(),
{
    if times.len() == 0 {
        policy
    } else {
        after_asking_all(policy, times.drop_last()).after_asking(times.last())
    }
}

/// How many resets are sent when one is asked for at each of some times in turn.
pub open spec fn granted<S>(policy: Validation<S>, times: Seq<Timestamp>) -> nat
    decreases times.len(),
{
    if times.len() == 0 {
        0
    } else {
        granted(policy, times.drop_last()) + if after_asking_all(policy, times.drop_last()).permits(
            times.last(),
        ) {
            1nat
        } else {
            0nat
        }
    }
}

/// However many datagrams arrive before the budget refills, no more resets are sent than
/// there were in it.
pub proof fn law_a_flood_is_answered_within_the_budget<S>(
    policy: Validation<S>,
    since: Timestamp,
    times: Seq<Timestamp>,
)
    requires
        policy.refilled_at == Some(since),
        forall|i: int| 0 <= i < times.len() ==> (#[trigger] times[i])@ - since@ < REFILL_AFTER,
    ensures
        granted(policy, times) + after_asking_all(policy, times).reset_budget
            == policy.reset_budget,
        granted(policy, times) <= policy.reset_budget,
        after_asking_all(policy, times).refilled_at == Some(since),
    decreases times.len(),
{
    if times.len() > 0 {
        let front = times.drop_last();
        assert(times[times.len() - 1]@ - since@ < REFILL_AFTER);
        assert forall|i: int| 0 <= i < front.len() implies (#[trigger] front[i])@ - since@
            < REFILL_AFTER by {
            assert(front[i] == times[i]);
        }
        law_a_flood_is_answered_within_the_budget(policy, since, front);
    }
}

/// A spent budget is full again once enough time has passed, so one burst does not silence
/// the endpoint for good.
pub proof fn law_the_budget_refills<S>(policy: Validation<S>, now: Timestamp)
    requires
        policy.refill_due(now@),
        policy.reset_burst > 0,
    ensures
        policy.permits(now),
        policy.after_asking(now).reset_budget == policy.reset_burst - 1,
        policy.after_asking(now).refilled_at == Some(now),
{
}

/// Only a token that says it came from a Retry and verifies earns a connection. Anything else
/// draws a Retry, or silence where none could be made.
pub proof fn law_only_a_verified_retry_token_is_accepted(
    packet: InitialPacket,
    verified: Option<ConnectionId>,
    drawn: Result<ConnectionId, Error>,
    issued: Result<Vec<u8>, Error>,
)
    ensures
        decision_of(verdict_of(packet, verified, drawn), issued) is Accept <==> claims_retry(packet)
            && verified is Some,
        decision_of(verdict_of(packet, verified, drawn), issued) is Retry <==> !(claims_retry(
            packet,
        ) && verified is Some) && drawn is Ok && issued is Ok,
{
}

} // verus!
