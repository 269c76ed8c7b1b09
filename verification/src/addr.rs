//! Addresses of the surrounding ledger: the identity of a caller, a
//! record, or a represented asset. The runtime authenticates callers
//! and hands each operation a verified address; the core only stores
//! and compares these identities, so an address is modelled as a plain
//! numeric identifier.

use vstd::prelude::*;

verus! {

/// An opaque ledger address. Only identity (equality) is ever read.
#[derive(Clone, Copy, PartialEq, Eq, Structural, Debug)]
pub struct Addr {
    pub id: u64,
}

impl Addr {
    /// The all-zero address, used as the default owner of a record
    /// that has been reset to its empty state.
    pub fn zero() -> (a: Addr)
        ensures
            a == (Addr { id: 0u64 }),
    {
        Addr { id: 0 }
    }
}

} // verus!
