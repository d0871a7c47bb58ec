//! The derived custodial authority.
//!
//! An escrowed token is held by an address that no party controls: the
//! address is computed deterministically from the asset's identifier, so
//! anyone holding the identifier can reproduce it, yet no private key for it
//! exists. Addresses are tagged values here, so a derived address can never
//! coincide with an externally controlled one, and two distinct assets never
//! share a derived authority. Only the marketplace operations re-derive the
//! authority, and only inside the single atomic operation that also checks
//! it against the recorded custody holder.

use vstd::prelude::*;

verus! {

/// An address on the ledger: either an ordinary, externally controlled
/// identity (a party holding its own key), or the key-less custodial
/// authority derived from an asset identifier.
#[derive(PartialEq, Eq, Structural, Clone, Copy, Debug)]
pub enum Address {
    External(u64),
    Derived(u64),
}

/// The derived authority that holds custody of `asset` while it is escrowed.
pub open spec fn authority_for(asset: u64) -> Address {
    Address::Derived(asset)
}

/// Recompute the custodial authority for an asset. Anyone holding the asset
/// identifier obtains the same address; the purchase and withdrawal paths
/// re-derive it and compare it to the recorded custody holder before moving
/// a token out of custody.
pub fn derive_authority(asset: u64) -> (r: Address)
    ensures
        r == authority_for(asset),
{
    Address::Derived(asset)
}

/// The derivation never collides: two distinct assets never share a derived
/// authority, and a derived authority never coincides with an externally
/// controlled address.
pub proof fn lemma_authority_distinct(asset_a: u64, asset_b: u64, id: u64)
    ensures
        asset_a != asset_b ==> authority_for(asset_a) != authority_for(asset_b),
        authority_for(asset_a) != Address::External(id),
{
}

} // verus!
