//! The per-chunk-server in-memory store: a mapping from object identifier to
//! payload bytes, with get, set and delete.
//!
//! The store is local to one chunk server and is authoritative for the
//! physical existence of the data; the master's location registry is only a
//! cache of the last known location.

use vstd::prelude::*;

use crate::assoc::AssocMap;

verus! {

/// The byte sequences a payload map denotes.
pub(crate) open spec fn payload_views(m: Map<Seq<char>, Vec<u8>>) -> Map<Seq<char>, Seq<u8>> {
    m.map_values(|v: Vec<u8>| v@)
}

proof fn lemma_payload_views_insert(m: Map<Seq<char>, Vec<u8>>, k: Seq<char>, v: Vec<u8>)
    ensures
        payload_views(m.insert(k, v)) == payload_views(m).insert(k, v@),
{
    assert(payload_views(m.insert(k, v)) =~= payload_views(m).insert(k, v@));
}

proof fn lemma_payload_views_remove(m: Map<Seq<char>, Vec<u8>>, k: Seq<char>)
    ensures
        payload_views(m.remove(k)) == payload_views(m).remove(k),
{
    assert(payload_views(m.remove(k)) =~= payload_views(m).remove(k));
}

/// A chunk server's local object store, seen as a map from object-identifier
/// characters to payload bytes.
pub struct ChunkStore {
    chunks: AssocMap<Vec<u8>>,
}

impl View for ChunkStore {
    type V = Map<Seq<char>, Seq<u8>>;

    closed spec fn view(&self) -> Map<Seq<char>, Seq<u8>> {
        payload_views(self.chunks@)
    }
}

impl ChunkStore {
    /// An empty store.
    pub fn new() -> (r: Self)
        ensures
            r@ == Map::<Seq<char>, Seq<u8>>::empty(),
    {
        ChunkStore { chunks: AssocMap::new() }
    }

    /// The payload stored under `object_id`, if any.
    pub fn get(&self, object_id: &String) -> (r: Option<&Vec<u8>>)
        ensures
            match r {
                Some(v) => self@.contains_key(object_id@) && v@ == self@[object_id@],
                None => !self@.contains_key(object_id@),
            },
    {
        self.chunks.get(object_id)
    }

    /// Stores `payload` under `object_id`, handing back the payload
    /// previously stored there, if any.
    pub fn set(&mut self, object_id: String, payload: Vec<u8>) -> (prev: Option<Vec<u8>>)
        ensures
            final(self)@ == old(self)@.insert(object_id@, payload@),
            match prev {
                Some(p) => old(self)@.contains_key(object_id@) && p@ == old(self)@[object_id@],
                None => !old(self)@.contains_key(object_id@),
            },
    {
        let ghost m0: Map<Seq<char>, Vec<u8>> = self.chunks@;
        let ghost k: Seq<char> = object_id@;
        let prev = self.chunks.insert(object_id, payload);
        proof {
            lemma_payload_views_insert(m0, k, self.chunks@[k]);
        }
        prev
    }

    /// Removes the payload stored under `object_id`, handing it back, if any.
    pub fn delete(&mut self, object_id: &String) -> (prev: Option<Vec<u8>>)
        ensures
            final(self)@ == old(self)@.remove(object_id@),
            match prev {
                Some(p) => old(self)@.contains_key(object_id@) && p@ == old(self)@[object_id@],
                None => !old(self)@.contains_key(object_id@),
            },
    {
        let ghost m0: Map<Seq<char>, Vec<u8>> = self.chunks@;
        let prev = self.chunks.remove(object_id);
        proof {
            lemma_payload_views_remove(m0, object_id@);
        }
        prev
    }

    /// Every object identifier currently stored, each exactly once.
    pub fn object_ids(&self) -> (r: Vec<String>)
        ensures
            forall|i: int| 0 <= i < r@.len() ==> self@.contains_key((#[trigger] r@[i])@),
            forall|k: Seq<char>|
                self@.contains_key(k) ==> exists|i: int|
                    0 <= i < r@.len() && (#[trigger] r@[i])@ == k,
            forall|i: int, j: int|
                0 <= i < j < r@.len() ==> (#[trigger] r@[i])@ != (#[trigger] r@[j])@,
    {
        self.chunks.keys()
    }
}

} // verus!
