use vstd::prelude::*;

verus! {

/// An external account or signer reference, as the ledger substrate names
/// one. The accounting core only stores and compares such references; it
/// never looks inside one, so a plain integer id carries it here. The caller
/// that talks to the substrate keeps the mapping between real account keys
/// and these ids.
#[derive(Clone, Copy, Debug, PartialEq, Eq, Structural)]
pub struct Identity {
    pub id: u64,
}

} // verus!
