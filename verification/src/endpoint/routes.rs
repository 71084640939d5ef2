//! Which connection each identifier routes to.
//!
//! Keyed by connection identifier, never by source address: QUIC connections survive an
//! address change, and a table keyed on the address would lose one the moment a NAT rebound.

use std::collections::VecDeque;

use vstd::prelude::*;

use crate::cid::{same_bytes, ConnectionId};
use crate::endpoint::shared::RouteUpdate;

verus! {

/// The routing table.
#[derive(Debug)]
pub struct Routes {
    entries: Vec<(ConnectionId, u64)>,
}

/// The table a list of entries describes.
pub closed spec fn tabled(entries: Seq<(ConnectionId, u64)>) -> Map<Seq<u8>, u64>
    decreases entries.len(),
{
    if entries.len() == 0 {
        Map::empty()
    } else {
        tabled(entries.drop_last()).insert(entries.last().0@, entries.last().1)
    }
}

impl View for Routes {
    type V = Map<Seq<u8>, u64>;

    closed spec fn view(&self) -> Map<Seq<u8>, u64> {
        tabled(self.entries@)
    }
}

/// Whether every identifier occurs once.
spec fn distinct(entries: Seq<(ConnectionId, u64)>) -> bool {
    forall|i: int, j: int|
        0 <= i < j < entries.len() ==> (#[trigger] entries[i]).0@ != (#[trigger] entries[j]).0@
}

/// A table without the routes to one connection.
pub open spec fn without_target(routes: Map<Seq<u8>, u64>, target: u64) -> Map<Seq<u8>, u64> {
    Map::new(
        |id: Seq<u8>| routes.contains_key(id) && routes[id] != target,
        |id: Seq<u8>| routes[id],
    )
}

/// A table with one identifier change applied to it, for the connection it belongs to.
pub open spec fn updated(routes: Map<Seq<u8>, u64>, update: RouteUpdate, target: u64) -> Map<
    Seq<u8>,
    u64,
> {
    match update {
        RouteUpdate::Minted(id) => routes.insert(id@, target),
        RouteUpdate::Retired(id) => routes.remove(id@),
    }
}

/// A table with a run of identifier changes applied to it, in order.
pub open spec fn updated_all(
    routes: Map<Seq<u8>, u64>,
    updates: Seq<RouteUpdate>,
    target: u64,
) -> Map<Seq<u8>, u64>
    decreases updates.len(),
{
    if updates.len() == 0 {
        routes
    } else {
        updated(updated_all(routes, updates.drop_last(), target), updates.last(), target)
    }
}

/// A table with every one of some identifiers routing to one connection.
pub open spec fn routed_all(
    routes: Map<Seq<u8>, u64>,
    ids: Seq<ConnectionId>,
    target: u64,
) -> Map<Seq<u8>, u64>
    decreases ids.len(),
{
    if ids.len() == 0 {
        routes
    } else {
        routed_all(routes, ids.drop_last(), target).insert(ids.last()@, target)
    }
}

proof fn lemma_tabled(entries: Seq<(ConnectionId, u64)>)
    requires
        distinct(entries),
    ensures
        forall|i: int|
            0 <= i < entries.len() ==> tabled(entries).contains_key((#[trigger] entries[i]).0@)
                && tabled(entries)[entries[i].0@] == entries[i].1,
        forall|id: Seq<u8>| #[trigger]
            tabled(entries).contains_key(id) ==> exists|i: int|
                0 <= i < entries.len() && (#[trigger] entries[i]).0@ == id,
    decreases entries.len(),
{
    if entries.len() > 0 {
        let front = entries.drop_last();
        assert(distinct(front));
        lemma_tabled(front);
        assert forall|i: int| 0 <= i < entries.len() implies tabled(entries).contains_key(
            (#[trigger] entries[i]).0@,
        ) && tabled(entries)[entries[i].0@] == entries[i].1 by {
            if i < entries.len() - 1 {
                assert(front[i] == entries[i]);
                assert(entries[i].0@ != entries[entries.len() - 1].0@);
            }
        }
        assert forall|id: Seq<u8>| #[trigger] tabled(entries).contains_key(id) implies exists|
            i: int,
        |
            0 <= i < entries.len() && (#[trigger] entries[i]).0@ == id by {
            if id == entries.last().0@ {
                assert(entries[entries.len() - 1].0@ == id);
            } else {
                assert(tabled(front).contains_key(id));
                let i = choose|i: int| 0 <= i < front.len() && (#[trigger] front[i]).0@ == id;
                assert(entries[i] == front[i]);
            }
        }
    }
}

impl Routes {
    /// Every identifier routes to one connection.
    pub closed spec fn wf(&self) -> bool {
        distinct(self.entries@)
    }

    /// A table that routes nothing.
    pub fn new() -> (routes: Self)
        ensures
            routes.wf(),
            routes@ == Map::<Seq<u8>, u64>::empty(),
    {
        Self { entries: Vec::new() }
    }

    /// Which connection an identifier routes to.
    pub fn get(&self, id: &[u8]) -> (target: Option<u64>)
        requires
            self.wf(),
        ensures
            target == (if self@.contains_key(id@) {
                Some(self@[id@])
            } else {
                None
            }),
    {
        proof {
            lemma_tabled(self.entries@);
        }
        let mut at: usize = 0;
        while at < self.entries.len()
            invariant
                at <= self.entries@.len(),
                distinct(self.entries@),
                forall|i: int| 0 <= i < at ==> (#[trigger] self.entries@[i]).0@ != id@,
                forall|i: int|
                    0 <= i < self.entries@.len() ==> tabled(self.entries@).contains_key(
                        (#[trigger] self.entries@[i]).0@,
                    ) && tabled(self.entries@)[self.entries@[i].0@] == self.entries@[i].1,
            decreases self.entries.len() - at,
        {
            if same_bytes(self.entries[at].0.as_bytes(), id) {
                assert(self.entries@[at as int].0@ == id@);
                return Some(self.entries[at].1);
            }
            at += 1;
        }
        None
    }

    /// Stops an identifier routing anywhere.
    pub fn remove(&mut self, id: &[u8])
        requires
            old(self).wf(),
        ensures
            final(self).wf(),
            final(self)@ == old(self)@.remove(id@),
    {
        let ghost before = self.entries@;
        let mut kept: Vec<(ConnectionId, u64)> = Vec::new();
        let mut at: usize = 0;
        assert(before.take(0) =~= Seq::empty());
        assert(tabled(Seq::empty()).remove(id@) =~= tabled(Seq::empty()));
        while at < self.entries.len()
            invariant
                at <= before.len(),
                before == self.entries@,
                distinct(before),
                distinct(kept@),
                forall|k: int|
                    0 <= k < kept@.len() ==> exists|i: int|
                        0 <= i < at && (#[trigger] before[i]).0@ == (#[trigger] kept@[k]).0@,
                forall|k: int| 0 <= k < kept@.len() ==> (#[trigger] kept@[k]).0@ != id@,
                tabled(kept@) == tabled(before.take(at as int)).remove(id@),
            decreases before.len() - at,
        {
            let entry = self.entries[at];
            assert(before.take(at + 1).drop_last() =~= before.take(at as int));
            assert(before.take(at + 1).last() == entry);
            let ghost held = kept@;
            if !same_bytes(entry.0.as_bytes(), id) {
                kept.push(entry);
                proof {
                    assert(kept@.drop_last() =~= held);
                    assert(tabled(kept@) =~= tabled(before.take(at + 1)).remove(id@));
                    assert forall|i: int, j: int| 0 <= i < j < kept@.len() implies (
                    #[trigger] kept@[i]).0@ != (#[trigger] kept@[j]).0@ by {
                        if j == kept@.len() - 1 {
                            assert(kept@[i] == held[i]);
                            let k = choose|k: int|
                                0 <= k < at && (#[trigger] before[k]).0@ == held[i].0@;
                            assert(before[k].0@ != before[at as int].0@);
                        } else {
                            assert(kept@[i] == held[i] && kept@[j] == held[j]);
                        }
                    }
                    assert forall|k: int| 0 <= k < kept@.len() implies exists|i: int|
                        0 <= i < at + 1 && (#[trigger] before[i]).0@ == (
                        #[trigger] kept@[k]).0@ by {
                        if k == kept@.len() - 1 {
                            assert(before[at as int].0@ == kept@[k].0@);
                        } else {
                            assert(kept@[k] == held[k]);
                            let i = choose|i: int|
                                0 <= i < at && (#[trigger] before[i]).0@ == held[k].0@;
                            assert(before[i].0@ == kept@[k].0@);
                        }
                    }
                }
            } else {
                proof {
                    assert(tabled(before.take(at + 1)).remove(id@) =~= tabled(
                        before.take(at as int),
                    ).remove(id@));
                    assert forall|k: int| 0 <= k < kept@.len() implies exists|i: int|
                        0 <= i < at + 1 && (#[trigger] before[i]).0@ == (
                        #[trigger] kept@[k]).0@ by {
                        let i = choose|i: int|
                            0 <= i < at && (#[trigger] before[i]).0@ == kept@[k].0@;
                        assert(before[i].0@ == kept@[k].0@);
                    }
                }
            }
            at += 1;
        }
        assert(before.take(at as int) =~= before);
        self.entries = kept;
    }

    /// Routes an identifier to a connection, whatever it routed to before.
    pub fn insert(&mut self, id: ConnectionId, target: u64)
        requires
            old(self).wf(),
        ensures
            final(self).wf(),
            final(self)@ == old(self)@.insert(id@, target),
    {
        self.remove(id.as_bytes());
        proof {
            lemma_tabled(self.entries@);
        }
        let ghost before = self.entries@;
        self.entries.push((id, target));
        proof {
            assert(self.entries@.drop_last() =~= before);
            assert(self@ =~= old(self)@.insert(id@, target));
            assert forall|i: int, j: int| 0 <= i < j < self.entries@.len() implies (
            #[trigger] self.entries@[i]).0@ != (#[trigger] self.entries@[j]).0@ by {
                assert(self.entries@[i] == before[i]);
                if j < before.len() {
                    assert(self.entries@[j] == before[j]);
                } else {
                    assert(tabled(before).contains_key(before[i].0@));
                }
            }
        }
    }

    /// Stops anything routing to a connection.
    pub fn release(&mut self, target: u64)
        requires
            old(self).wf(),
        ensures
            final(self).wf(),
            final(self)@ == without_target(old(self)@, target),
    {
        let ghost before = self.entries@;
        let mut kept: Vec<(ConnectionId, u64)> = Vec::new();
        let mut at: usize = 0;
        assert(before.take(0) =~= Seq::empty());
        assert(without_target(tabled(Seq::empty()), target) =~= tabled(Seq::empty()));
        while at < self.entries.len()
            invariant
                at <= before.len(),
                before == self.entries@,
                distinct(before),
                distinct(kept@),
                forall|k: int|
                    0 <= k < kept@.len() ==> exists|i: int|
                        0 <= i < at && (#[trigger] before[i]).0@ == (#[trigger] kept@[k]).0@,
                tabled(kept@) == without_target(tabled(before.take(at as int)), target),
            decreases before.len() - at,
        {
            let entry = self.entries[at];
            let ghost held = kept@;
            proof {
                let seen = before.take(at as int);
                assert(before.take(at + 1).drop_last() =~= seen);
                assert(before.take(at + 1).last() == entry);
                assert(distinct(seen));
                lemma_tabled(seen);
                if tabled(seen).contains_key(entry.0@) {
                    let i = choose|i: int|
                        0 <= i < seen.len() && (#[trigger] seen[i]).0@ == entry.0@;
                    assert(before[i].0@ != before[at as int].0@);
                }
            }
            if entry.1 != target {
                kept.push(entry);
                proof {
                    assert(kept@.drop_last() =~= held);
                    assert(tabled(kept@) =~= without_target(tabled(before.take(at + 1)), target));
                    assert forall|i: int, j: int| 0 <= i < j < kept@.len() implies (
                    #[trigger] kept@[i]).0@ != (#[trigger] kept@[j]).0@ by {
                        assert(kept@[i] == held[i]);
                        if j == kept@.len() - 1 {
                            let k = choose|k: int|
                                0 <= k < at && (#[trigger] before[k]).0@ == held[i].0@;
                            assert(before[k].0@ != before[at as int].0@);
                        } else {
                            assert(kept@[j] == held[j]);
                        }
                    }
                    assert forall|k: int| 0 <= k < kept@.len() implies exists|i: int|
                        0 <= i < at + 1 && (#[trigger] before[i]).0@ == (
                        #[trigger] kept@[k]).0@ by {
                        if k == kept@.len() - 1 {
                            assert(before[at as int].0@ == kept@[k].0@);
                        } else {
                            assert(kept@[k] == held[k]);
                            let i = choose|i: int|
                                0 <= i < at && (#[trigger] before[i]).0@ == held[k].0@;
                            assert(before[i].0@ == kept@[k].0@);
                        }
                    }
                }
            } else {
                proof {
                    assert(without_target(tabled(before.take(at + 1)), target) =~= without_target(
                        tabled(before.take(at as int)),
                        target,
                    ));
                    assert forall|k: int| 0 <= k < kept@.len() implies exists|i: int|
                        0 <= i < at + 1 && (#[trigger] before[i]).0@ == (
                        #[trigger] kept@[k]).0@ by {
                        let i = choose|i: int|
                            0 <= i < at && (#[trigger] before[i]).0@ == kept@[k].0@;
                        assert(before[i].0@ == kept@[k].0@);
                    }
                }
            }
            at += 1;
        }
        assert(before.take(at as int) =~= before);
        self.entries = kept;
    }

    /// Applies a connection's identifier changes, in order.
    pub fn apply(&mut self, updates: VecDeque<RouteUpdate>, target: u64)
        requires
            old(self).wf(),
        ensures
            final(self).wf(),
            final(self)@ == updated_all(old(self)@, updates@, target),
    {
        let mut at: usize = 0;
        assert(updates@.take(0) =~= Seq::empty());
        while at < updates.len()
            invariant
                at <= updates@.len(),
                self.wf(),
                self@ == updated_all(old(self)@, updates@.take(at as int), target),
            decreases updates.len() - at,
        {
            proof {
                assert(updates@.take(at + 1).drop_last() =~= updates@.take(at as int));
            }
            match updates[at] {
                RouteUpdate::Minted(id) => self.insert(id, target),
                RouteUpdate::Retired(id) => self.remove(id.as_bytes()),
            }
            at += 1;
        }
        assert(updates@.take(at as int) =~= updates@);
    }

    /// Routes every one of some identifiers to a connection.
    pub fn install(&mut self, ids: &Vec<ConnectionId>, target: u64)
        requires
            old(self).wf(),
        ensures
            final(self).wf(),
            final(self)@ == routed_all(old(self)@, ids@, target),
    {
        let mut at: usize = 0;
        assert(ids@.take(0) =~= Seq::empty());
        while at < ids.len()
            invariant
                at <= ids@.len(),
                self.wf(),
                self@ == routed_all(old(self)@, ids@.take(at as int), target),
            decreases ids.len() - at,
        {
            proof {
                assert(ids@.take(at + 1).drop_last() =~= ids@.take(at as int));
            }
            self.insert(ids[at], target);
            at += 1;
        }
        assert(ids@.take(at as int) =~= ids@);
    }
}

/// Whether one of some changes is about an identifier.
pub open spec fn mentions(updates: Seq<RouteUpdate>, at: int, id: Seq<u8>) -> bool {
    0 <= at < updates.len() && match updates[at] {
        RouteUpdate::Minted(changed) => changed@ == id,
        RouteUpdate::Retired(changed) => changed@ == id,
    }
}

/// Whether one of some changes is the last about an identifier.
pub open spec fn settles(updates: Seq<RouteUpdate>, at: int, id: Seq<u8>) -> bool {
    mentions(updates, at, id) && forall|i: int| i > at ==> !mentions(updates, i, id)
}

/// After a run of identifier changes a connection is reachable under exactly the identifiers
/// whose last change said so. An identifier no change mentions routes as it did before.
pub proof fn law_a_connection_follows_its_identifiers(
    routes: Map<Seq<u8>, u64>,
    updates: Seq<RouteUpdate>,
    target: u64,
    id: Seq<u8>,
)
    ensures
        ({
            let after = updated_all(routes, updates, target);
            &&& (forall|i: int| !mentions(updates, i, id)) ==> {
                &&& after.contains_key(id) == routes.contains_key(id)
                &&& routes.contains_key(id) ==> after[id] == routes[id]
            }
            &&& forall|last: int| #[trigger]
                settles(updates, last, id) ==> (if updates[last] is Minted {
                    after.contains_key(id) && after[id] == target
                } else {
                    !after.contains_key(id)
                })
        }),
    decreases updates.len(),
{
    if updates.len() > 0 {
        let front = updates.drop_last();
        let end = updates.len() - 1;
        law_a_connection_follows_its_identifiers(routes, front, target, id);
        assert forall|i: int| #[trigger]
            mentions(front, i, id) == (mentions(updates, i, id) && i < end) by {
            if 0 <= i < end {
                assert(front[i] == updates[i]);
            }
        }
        let after = updated_all(routes, updates, target);
        assert forall|last: int| #[trigger] settles(updates, last, id) implies (
        if updates[last] is Minted {
            after.contains_key(id) && after[id] == target
        } else {
            !after.contains_key(id)
        }) by {
            if last < end {
                assert(!mentions(updates, end, id));
                assert(mentions(front, last, id));
                assert(settles(front, last, id));
                assert(front[last] == updates[last]);
            }
        }
        if forall|i: int| !mentions(updates, i, id) {
            assert(!mentions(updates, end, id));
            assert(forall|i: int| !mentions(front, i, id));
        }
    }
}

} // verus!
