//! The coordinator's cross-operation guarantees, each proved from the spec
//! state that the operations' contracts pin down.
//!
//! Every lemma's hypotheses are exactly what some operation's `ensures`
//! states about the step it took, so together with those contracts the
//! lemmas cover whole call sequences.

use vstd::prelude::*;

use crate::master::GfsMaster;

verus! {

/// Registration identifiers are strictly increasing starting at one: on an
/// empty master the first `register` returns 1 (its `ensures` pins the
/// result to one past the prior server count), and across two consecutive
/// registrations the second identifier is strictly greater than the first;
/// both stay valid afterwards.
pub proof fn lemma_register_ids_strictly_increasing(
    m0: GfsMaster,
    m1: GfsMaster,
    m2: GfsMaster,
    a1: Seq<char>,
    a2: Seq<char>,
    id1: u64,
    id2: u64,
)
    requires
        m1.servers() == m0.servers().push(a1),
        id1 as int == m0.servers().len() + 1,
        m2.servers() == m1.servers().push(a2),
        id2 as int == m1.servers().len() + 1,
    ensures
        1 <= id1 < id2,
        m0.servers().len() == 0 ==> id1 == 1,
        m2.valid_id(id1) && m2.valid_id(id2),
{
}

/// An identifier once assigned stays valid under every later operation:
/// `register` grows the server list and `insert`, `remove`, `lookup` leave
/// it unchanged, so the list never shrinks — and `insert` (a report)
/// succeeds exactly on valid identifiers, so a report with a previously
/// returned identifier always succeeds.
pub proof fn lemma_assigned_id_stays_valid(m0: GfsMaster, m1: GfsMaster, id: u64)
    requires
        m0.valid_id(id),
        m1.servers().len() >= m0.servers().len(),
    ensures
        m1.valid_id(id),
{
}

/// An object identifier never reported stays unknown: whatever step an
/// operation takes — leaving the locations unchanged, recording some other
/// object, or removing an object — a key absent before is absent after, so
/// `lookup` keeps failing with `NotFound`.
pub proof fn lemma_never_reported_stays_not_found(
    m0: GfsMaster,
    m1: GfsMaster,
    x: Seq<char>,
    y: Seq<char>,
    id: u64,
)
    requires
        !m0.locations().contains_key(x),
        m1.locations() == m0.locations() || (y != x && m1.locations() == m0.locations().insert(
            y,
            id,
        )) || m1.locations() == m0.locations().remove(y),
    ensures
        !m1.locations().contains_key(x),
{
}

/// After a successful `report(id, x)` the registry maps `x` to `id`, so
/// `lookup(x)` returns the address registered for `id`.
pub proof fn lemma_report_then_lookup(m0: GfsMaster, m1: GfsMaster, id: u64, x: Seq<char>)
    requires
        m0.valid_id(id),
        m1.servers() == m0.servers(),
        m1.locations() == m0.locations().insert(x, id),
    ensures
        m1.locations().contains_key(x),
        m1.locations()[x] == id,
        m1.valid_id(id),
{
}

/// A recorded location persists until a different report or a forget names
/// the same object: registration, a report for another object, a forget of
/// another object, and a failed report all leave `x`'s owner as it was.
pub proof fn lemma_location_persists(
    m0: GfsMaster,
    m1: GfsMaster,
    x: Seq<char>,
    id: u64,
    y: Seq<char>,
    other: u64,
)
    requires
        m0.locations().contains_key(x) && m0.locations()[x] == id,
        m1.locations() == m0.locations() || (y != x && m1.locations() == m0.locations().insert(
            y,
            other,
        )) || (y != x && m1.locations() == m0.locations().remove(y)),
    ensures
        m1.locations().contains_key(x),
        m1.locations()[x] == id,
{
}

/// A store write is observed by the next read of the same identifier:
/// `set(x, Some(p))` leaves the store mapping `x` to `p`, so `get(x)`
/// returns `p`; `set(x, None)` removes `x`, so `get(x)` fails with
/// `NotFound`.
pub proof fn lemma_set_then_get(m: Map<Seq<char>, Seq<u8>>, x: Seq<char>, p: Seq<u8>)
    ensures
        m.insert(x, p).contains_key(x) && m.insert(x, p)[x] == p,
        !m.remove(x).contains_key(x),
{
}

/// The round trip of two writes: after `set(x, p1)` the store maps `x` to
/// `p1`, which is exactly the previous value the second `set(x, p2)` hands
/// back, and a final `get(x)` returns `p2`.
pub proof fn lemma_set_round_trip(m: Map<Seq<char>, Seq<u8>>, x: Seq<char>, p1: Seq<u8>, p2: Seq<u8>)
    ensures
        m.insert(x, p1).contains_key(x) && m.insert(x, p1)[x] == p1,
        m.insert(x, p1).insert(x, p2).contains_key(x) && m.insert(x, p1).insert(x, p2)[x] == p2,
{
}

/// Two reports for the same object from two registered servers leave the
/// registry exactly in the state of whichever mutation was applied last:
/// the final state is what a single report by the later server would have
/// produced, so no intermediate or corrupted state remains observable.
pub proof fn lemma_last_report_wins(
    m0: GfsMaster,
    m1: GfsMaster,
    m2: GfsMaster,
    x: Seq<char>,
    id_a: u64,
    id_b: u64,
)
    requires
        m0.valid_id(id_a),
        m0.valid_id(id_b),
        m1.servers() == m0.servers(),
        m1.locations() == m0.locations().insert(x, id_a),
        m2.servers() == m1.servers(),
        m2.locations() == m1.locations().insert(x, id_b),
    ensures
        m2.locations().contains_key(x),
        m2.locations()[x] == id_b,
        m2.locations() == m0.locations().insert(x, id_b),
{
    assert(m0.locations().insert(x, id_a).insert(x, id_b) =~= m0.locations().insert(x, id_b));
}

} // verus!
