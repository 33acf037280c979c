//! The master-side location registry: the set of registered chunk servers
//! and the mapping from object identifier to the server last reported to
//! hold it.
//!
//! Identifiers are assigned in strictly increasing order starting at one,
//! the server list never shrinks, and every recorded location refers to a
//! registered server — the registry's standing invariant.

use vstd::prelude::*;

use crate::GfsError;
use crate::assoc::AssocMap;

verus! {

/// One registered chunk server: the identifier the master assigned and the
/// network address the server registered under, as an opaque string. Created
/// at registration and never mutated or removed afterwards.
#[derive(Debug)]
pub struct ChunkServerRecord {
    pub id: u64,
    pub address: String,
}

/// The master's mapping from object identifier to the chunk server that
/// last reported holding it, together with the list of registered servers.
pub struct LocationRegistry {
    /// The address each registered server gave; the server with identifier
    /// `i` sits at index `i - 1` and the list never shrinks.
    servers: Vec<String>,
    /// Object identifier to the identifier of the server last reported to
    /// hold the object.
    locations: AssocMap<u64>,
}

impl LocationRegistry {
    /// The registered addresses; the server with identifier `i` (counting
    /// from one) registered the address at index `i - 1`.
    pub closed spec fn servers(self) -> Seq<Seq<char>> {
        self.servers@.map_values(|s: String| s@)
    }

    /// The recorded locations: object identifier to owning server.
    pub closed spec fn locations(self) -> Map<Seq<char>, u64> {
        self.locations@
    }

    /// True of exactly the identifiers some `register` call has returned.
    pub open spec fn valid_id(self, id: u64) -> bool {
        1 <= id && id as int <= self.servers().len()
    }

    /// Every recorded location refers to a registered server.
    #[verifier::type_invariant]
    spec fn wf(self) -> bool {
        forall|k: Seq<char>|
            self.locations@.contains_key(k) ==> self.valid_id(#[trigger] self.locations@[k])
    }

    /// An empty registry: no servers, no locations.
    pub fn new() -> (r: Self)
        ensures
            r.servers() == Seq::<Seq<char>>::empty(),
            r.locations() == Map::<Seq<char>, u64>::empty(),
    {
        LocationRegistry { servers: Vec::new(), locations: AssocMap::new() }
    }

    /// Appends a new server record and returns its assigned identifier:
    /// one more than the count of servers registered before, so identifiers
    /// are strictly increasing starting at one. Never fails; registering
    /// the same address twice yields two distinct identifiers by design.
    pub fn register(&mut self, address: String) -> (id: u64)
        ensures
            final(self).servers() == old(self).servers().push(address@),
            final(self).locations() == old(self).locations(),
            id as int == old(self).servers().len() + 1,
            final(self).valid_id(id),
            forall|p: u64| old(self).valid_id(p) ==> p < id && final(self).valid_id(p),
    {
        proof {
            use_type_invariant(&*self);
        }
        let mut locations: AssocMap<u64> = AssocMap::new();
        core::mem::swap(&mut locations, &mut self.locations);
        let mut servers: Vec<String> = Vec::new();
        core::mem::swap(&mut servers, &mut self.servers);
        servers.push(address);
        let id: u64 = servers.len() as u64;
        self.servers = servers;
        self.locations = locations;
        id
    }

    /// The last-reported owner of `object_id`: its identifier and address.
    /// Fails with `NotFound` exactly when the identifier was never reported
    /// (or has been forgotten since).
    pub fn lookup(&self, object_id: &String) -> (r: Result<ChunkServerRecord, GfsError>)
        ensures
            match r {
                Ok(rec) => self.locations().contains_key(object_id@)
                    && rec.id == self.locations()[object_id@]
                    && self.valid_id(rec.id)
                    && rec.address@ == self.servers()[rec.id as int - 1],
                Err(e) => e == GfsError::NotFound && !self.locations().contains_key(object_id@),
            },
    {
        proof {
            use_type_invariant(&*self);
        }
        match self.locations.get(object_id) {
            Some(id_ref) => {
                let id: u64 = *id_ref;
                let n: usize = self.servers.len();
                proof {
                    assert(self.valid_id(self.locations@[object_id@]));
                    assert(id as int - 1 < n as int);
                }
                let idx: usize = (id - 1) as usize;
                let address = self.servers[idx].clone();
                Ok(ChunkServerRecord { id, address })
            },
            None => Err(GfsError::NotFound),
        }
    }

    /// Records that server `server_id` currently holds `object_id`,
    /// overwriting any prior owner. Fails with `UnknownServer`, leaving the
    /// registry unchanged, exactly when `server_id` was never assigned;
    /// reporting with an assigned identifier always succeeds.
    pub fn report(&mut self, server_id: u64, object_id: String) -> (r: Result<(), GfsError>)
        ensures
            final(self).servers() == old(self).servers(),
            match r {
                Ok(()) => old(self).valid_id(server_id)
                    && final(self).locations() == old(self).locations().insert(
                    object_id@,
                    server_id,
                ),
                Err(e) => e == GfsError::UnknownServer && !old(self).valid_id(server_id)
                    && final(self).locations() == old(self).locations(),
            },
    {
        proof {
            use_type_invariant(&*self);
        }
        if 1 <= server_id && server_id <= self.servers.len() as u64 {
            let mut locations: AssocMap<u64> = AssocMap::new();
            core::mem::swap(&mut locations, &mut self.locations);
            locations.insert(object_id, server_id);
            self.locations = locations;
            Ok(())
        } else {
            Err(GfsError::UnknownServer)
        }
    }

    /// Removes the recorded location for `object_id` if present; a no-op
    /// otherwise. Never fails.
    pub fn forget(&mut self, object_id: &String)
        ensures
            final(self).servers() == old(self).servers(),
            final(self).locations() == old(self).locations().remove(object_id@),
    {
        proof {
            use_type_invariant(&*self);
        }
        let mut locations: AssocMap<u64> = AssocMap::new();
        core::mem::swap(&mut locations, &mut self.locations);
        locations.remove(object_id);
        self.locations = locations;
    }

    /// How many servers have registered so far.
    pub fn server_count(&self) -> (n: u64)
        ensures
            n as int == self.servers().len(),
    {
        self.servers.len() as u64
    }
}

} // verus!
