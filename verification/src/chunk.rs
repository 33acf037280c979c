//! The chunk server: a storage node that owns a [`ChunkStore`], carries the
//! identifier the master assigned to it at registration, and enumerates its
//! inventory for the periodic synchronization push.
//!
//! Network transport stays outside the library: the surrounding process
//! registers with the master, hands the assigned identifier to
//! [`ChunkServer::new`], and on every sync tick walks [`ChunkServer::inventory`]
//! and reports each identifier to the master.

use vstd::prelude::*;

use crate::GfsError;
use crate::store::ChunkStore;

verus! {

/// A chunk server in its registered state: it holds the identifier the
/// master assigned to it and its local object store.
///
/// An identifier of zero never denotes a registered server, so a value of
/// this type always carries an identifier of at least one; until the
/// surrounding process completes registration it has no `ChunkServer` and
/// accepts no client traffic.
pub struct ChunkServer {
    store: ChunkStore,
    my_id: u64,
}

impl View for ChunkServer {
    type V = Map<Seq<char>, Seq<u8>>;

    /// The objects this server currently stores.
    closed spec fn view(&self) -> Map<Seq<char>, Seq<u8>> {
        self.store@
    }
}

impl ChunkServer {
    /// The identifier the master assigned to this server at registration.
    pub closed spec fn id(self) -> u64 {
        self.my_id
    }

    /// A freshly registered chunk server with an empty store.
    pub fn new(my_id: u64) -> (r: Self)
        requires
            1 <= my_id,
        ensures
            r.id() == my_id,
            r@ == Map::<Seq<char>, Seq<u8>>::empty(),
    {
        ChunkServer { store: ChunkStore::new(), my_id }
    }

    /// The identifier the master assigned to this server.
    pub fn server_id(&self) -> (r: u64)
        ensures
            r == self.id(),
    {
        self.my_id
    }

    /// The payload stored under `url`; fails with `NotFound` when the object
    /// is absent. A pure read with no side effect.
    pub fn get(&self, url: &String) -> (r: Result<&Vec<u8>, GfsError>)
        ensures
            match r {
                Ok(v) => self@.contains_key(url@) && v@ == self@[url@],
                Err(e) => e == GfsError::NotFound && !self@.contains_key(url@),
            },
    {
        match self.store.get(url) {
            Some(v) => Ok(v),
            None => Err(GfsError::NotFound),
        }
    }

    /// `Some(payload)` stores or overwrites; `None` deletes. Hands back
    /// whatever was previously stored, so a caller can tell an insert from
    /// an update or a delete.
    ///
    /// The master is deliberately not told here: the periodic inventory sync
    /// propagates the change, accepting a bounded staleness window in the
    /// location registry in exchange for less traffic.
    pub fn set(&mut self, url: String, chunk: Option<Vec<u8>>) -> (prev: Option<Vec<u8>>)
        ensures
            final(self).id() == old(self).id(),
            final(self)@ == match chunk {
                Some(payload) => old(self)@.insert(url@, payload@),
                None => old(self)@.remove(url@),
            },
            match prev {
                Some(p) => old(self)@.contains_key(url@) && p@ == old(self)@[url@],
                None => !old(self)@.contains_key(url@),
            },
    {
        match chunk {
            Some(payload) => self.store.set(url, payload),
            None => self.store.delete(&url),
        }
    }

    /// Every object identifier this server currently stores, each exactly
    /// once: the inventory the periodic sync reports to the master.
    pub fn inventory(&self) -> (r: Vec<String>)
        ensures
            forall|i: int| 0 <= i < r@.len() ==> self@.contains_key((#[trigger] r@[i])@),
            forall|k: Seq<char>|
                self@.contains_key(k) ==> exists|i: int|
                    0 <= i < r@.len() && (#[trigger] r@[i])@ == k,
            forall|i: int, j: int|
                0 <= i < j < r@.len() ==> (#[trigger] r@[i])@ != (#[trigger] r@[j])@,
    {
        self.store.object_ids()
    }
}

} // verus!
