//! A minimal distributed-storage coordinator: a single master tracks which
//! chunk server holds each named data object, and chunk servers store and
//! serve the payload bytes themselves.
//!
//! The crate verifies the metadata-consistency core: registration, location
//! lookup, location updates, and inventory synchronization. Network transport
//! and process bootstrap live outside the library and only carry plain values
//! in and out.

use vstd::prelude::*;

mod assoc;
pub mod store;
pub mod chunk;
pub mod registry;
pub mod master;
pub mod laws;

verus! {

/// The recoverable failures the coordinator core can return.
///
/// Transport-level failures (a peer that cannot be reached) are the
/// caller's concern and never arise inside the core.
#[derive(Clone, Copy, Debug, PartialEq, Eq, Structural)]
pub enum GfsError {
    /// The requested object identifier is not present.
    NotFound,
    /// An inventory report named a chunk-server id that was never assigned.
    UnknownServer,
}

} // verus!
