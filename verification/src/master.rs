//! The master: the coordinator that owns the [`LocationRegistry`] and
//! exposes registration, lookup, insert-notification and remove over it.
//!
//! It serves two audiences: chunk servers register and push their inventory
//! through `register`, `insert` and `remove`; external clients ask `lookup`
//! where an object lives before contacting that chunk server directly. The
//! surrounding process guards one `GfsMaster` with a reader/writer lock and
//! carries requests and responses over the wire; every failure here is a
//! typed result handed back to the caller, never a process abort.

use vstd::prelude::*;

use crate::GfsError;
use crate::registry::LocationRegistry;

verus! {

/// The master server's state: a location registry behind the two RPC-facing
/// surfaces (chunk servers and clients).
pub struct GfsMaster {
    registry: LocationRegistry,
}

impl GfsMaster {
    /// The registered addresses; the server with identifier `i` (counting
    /// from one) registered the address at index `i - 1`.
    pub closed spec fn servers(self) -> Seq<Seq<char>> {
        self.registry.servers()
    }

    /// The recorded locations: object identifier to owning server.
    pub closed spec fn locations(self) -> Map<Seq<char>, u64> {
        self.registry.locations()
    }

    /// True of exactly the identifiers some `register` call has returned.
    pub open spec fn valid_id(self, id: u64) -> bool {
        1 <= id && id as int <= self.servers().len()
    }

    /// A master with no registered servers and no recorded locations.
    pub fn new() -> (r: Self)
        ensures
            r.servers() == Seq::<Seq<char>>::empty(),
            r.locations() == Map::<Seq<char>, u64>::empty(),
    {
        GfsMaster { registry: LocationRegistry::new() }
    }

    /// Registers a new chunk server and returns its assigned identifier,
    /// strictly greater than every identifier assigned before.
    pub fn register(&mut self, socket_addr: String) -> (id: u64)
        ensures
            final(self).servers() == old(self).servers().push(socket_addr@),
            final(self).locations() == old(self).locations(),
            id as int == old(self).servers().len() + 1,
            final(self).valid_id(id),
            forall|p: u64| old(self).valid_id(p) ==> p < id && final(self).valid_id(p),
    {
        self.registry.register(socket_addr)
    }

    /// The address of the chunk server last reported to hold `url`; fails
    /// with `NotFound` exactly when `url` was never reported or has been
    /// removed since.
    pub fn lookup(&self, url: &String) -> (r: Result<String, GfsError>)
        ensures
            match r {
                Ok(addr) => self.locations().contains_key(url@) && self.valid_id(
                    self.locations()[url@],
                ) && addr@ == self.servers()[self.locations()[url@] as int - 1],
                Err(e) => e == GfsError::NotFound && !self.locations().contains_key(url@),
            },
    {
        match self.registry.lookup(url) {
            Ok(rec) => Ok(rec.address),
            Err(e) => Err(e),
        }
    }

    /// Records that the sending chunk server now holds `url`, overwriting
    /// any prior owner. Fails with `UnknownServer`, leaving the registry
    /// unchanged, exactly when `sender` was never assigned; a sender that
    /// did register always succeeds.
    pub fn insert(&mut self, sender: u64, url: String) -> (r: Result<(), GfsError>)
        ensures
            final(self).servers() == old(self).servers(),
            match r {
                Ok(()) => old(self).valid_id(sender)
                    && final(self).locations() == old(self).locations().insert(url@, sender),
                Err(e) => e == GfsError::UnknownServer && !old(self).valid_id(sender)
                    && final(self).locations() == old(self).locations(),
            },
    {
        self.registry.report(sender, url)
    }

    /// Removes the recorded location for `url` if present; a no-op
    /// otherwise. Never fails.
    pub fn remove(&mut self, url: &String)
        ensures
            final(self).servers() == old(self).servers(),
            final(self).locations() == old(self).locations().remove(url@),
    {
        self.registry.forget(url)
    }

    /// How many servers have registered so far.
    pub fn server_count(&self) -> (n: u64)
        ensures
            n as int == self.servers().len(),
    {
        self.registry.server_count()
    }
}

impl Default for GfsMaster {
    /// A master with no registered servers and no recorded locations.
    fn default() -> (r: Self)
        ensures
            r.servers() == Seq::<Seq<char>>::empty(),
            r.locations() == Map::<Seq<char>, u64>::empty(),
    {
        GfsMaster::new()
    }
}

} // verus!
