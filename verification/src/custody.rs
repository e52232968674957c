use vstd::prelude::*;

verus! {

/// The protocol discriminant mixed into every custody derivation, so that
/// custody addresses never collide with any other address family.
pub const CUSTODY_TAG: u64 = 0x7661_756c_74;

/// A custody address: a deterministic, non-human-controlled address scoped
/// to one asset. No signing key exists for it; control is proven by
/// re-deriving the address from its public inputs.
#[derive(Clone, Copy, Debug, PartialEq, Eq, Hash, Structural)]
pub struct CustodyAddress {
    /// The protocol discriminant the address was derived under.
    pub tag: u64,
    /// The asset this address holds in custody.
    pub asset_id: u64,
}

/// The address the protocol's derivation function yields for `asset_id`.
pub open spec fn spec_derive(asset_id: u64) -> CustodyAddress {
    CustodyAddress { tag: CUSTODY_TAG, asset_id }
}

/// Derives the custody address for an asset. Derivation is a pure function
/// of its inputs: deriving twice for the same asset yields the same address.
pub fn derive_custody_address(asset_id: u64) -> (a: CustodyAddress)
    ensures
        a == spec_derive(asset_id),
{
    CustodyAddress { tag: CUSTODY_TAG, asset_id }
}

/// The verification routine the transfer capability runs: a caller may act
/// as `addr` for `asset_id` exactly when `addr` re-derives from `asset_id`.
pub fn verify_custody_authority(addr: &CustodyAddress, asset_id: u64) -> (ok: bool)
    ensures
        ok == (*addr == spec_derive(asset_id)),
{
    addr.tag == CUSTODY_TAG && addr.asset_id == asset_id
}

/// Derivation is injective and idempotent: two derivations agree exactly
/// when they were made for the same asset.
pub proof fn lemma_derivation_deterministic(asset_a: u64, asset_b: u64)
    ensures
        (spec_derive(asset_a) == spec_derive(asset_b)) <==> asset_a == asset_b,
{
}

} // verus!
