use vstd::prelude::*;

verus! {

/// A deterministic account address.
///
/// The host runtime derives one address per record from a fixed seed tuple
/// (record kind, owning token and, for per-actor records, the actor key) and
/// verifies the signature of the caller it hands to an operation. The core
/// never derives addresses itself and only compares them for equality, so an
/// address is carried as a single opaque machine word.
#[derive(Clone, Copy, Debug, PartialEq, Eq, Structural)]
pub struct Address {
    pub value: u64,
}

impl Address {
    /// The all-zero address that a freshly allocated, not yet initialized
    /// record carries.
    pub fn zero() -> (r: Address)
        ensures
            r.value == 0,
    {
        Address { value: 0 }
    }
}

} // verus!
