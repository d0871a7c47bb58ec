//! The marketplace state and its invariant.
//!
//! Four pieces of ledger state matter to the escrow protocol, each a map
//! keyed by an identifier: which address holds the single unit of each
//! minted asset (custody), the descriptive record attached to each asset at
//! minting, the live `Sale` record of each escrowed asset, and the
//! native-currency balance of each identity. A `Sale` record exists for an
//! asset exactly while the asset's unit is held by its derived authority,
//! and every live record carries a strictly positive price; [`MarketView::wf`]
//! states this invariant and every operation preserves it.

use vstd::prelude::*;

use crate::authority::{authority_for, Address};

verus! {

broadcast use vstd::std_specs::hash::group_hash_axioms;

/// The persistent escrow record for one listed asset: who is entitled to the
/// payment (or to reclaim the token), and the price in the smallest currency
/// unit. The asset's identifier is not stored: the record is keyed by it.
#[derive(PartialEq, Eq, Structural, Clone, Copy, Debug)]
pub struct Sale {
    pub seller: u64,
    pub price: u64,
}

/// The descriptive record attached to an asset when it is minted. A
/// collection is itself a minted asset; an asset minted into a collection
/// carries that collection's identifier.
#[derive(PartialEq, Eq, Debug)]
pub struct TokenMetadata {
    pub name: String,
    pub symbol: String,
    pub uri: String,
    pub collection: Option<u64>,
}

/// Every way an operation can fail. Each operation either applies all of its
/// effects or returns one of these and changes nothing.
#[derive(PartialEq, Eq, Structural, Clone, Copy, Debug)]
pub enum ErrorCode {
    /// Minting an asset whose identifier is already taken.
    AssetExists,
    /// Listing with a price of zero, which is rejected outright: a zero
    /// price would later be indistinguishable from a retired record.
    ZeroPrice,
    /// Listing an asset the caller's custody slot does not hold.
    AssetNotOwned,
    /// Listing an asset that already has a live sale record.
    AlreadyListed,
    /// Purchase or withdrawal of an asset with no live sale record.
    NoSaleRecord,
    /// Withdrawal of a record whose price reads zero: the token was already
    /// sold or the record already retired.
    NftAlreadySold,
    /// Withdrawal requested by an identity other than the record's seller.
    SellerMismatch,
    /// The recorded custody holder does not match the re-derived authority.
    AuthorityMismatch,
    /// The buyer's balance does not cover the price.
    InsufficientFunds,
    /// Crediting the payee would overflow the representable balance.
    BalanceOverflow,
}

/// The mathematical value of a [`Marketplace`]: the four ledger maps.
#[verifier::ext_equal]
pub struct MarketView {
    /// Which address holds the single unit of each minted asset. An asset
    /// exists exactly when it has a custody entry.
    pub custody: Map<u64, Address>,
    /// The descriptive record attached to each minted asset.
    pub metadata: Map<u64, TokenMetadata>,
    /// The live sale record of each escrowed asset.
    pub sales: Map<u64, Sale>,
    /// Native-currency balances; an identity without an entry holds nothing.
    pub balances: Map<u64, u64>,
}

/// The balance of `id`, taking a missing entry as zero.
pub open spec fn balance_of(balances: Map<u64, u64>, id: u64) -> u64 {
    if balances.contains_key(id) {
        balances[id]
    } else {
        0
    }
}

impl MarketView {
    /// The state invariant. A sale record exists iff the asset's unit sits
    /// in the custody slot of the matching derived authority; every live
    /// record has a strictly positive price; derived custody never strays
    /// (a unit held by a derived authority is the unit of exactly the asset
    /// that authority was derived from, and is listed); and every minted
    /// asset carries its descriptive record.
    pub open spec fn wf(self) -> bool {
        &&& forall|asset: u64| #[trigger] self.sales.contains_key(asset) ==> {
            &&& self.sales[asset].price > 0
            &&& self.custody.contains_key(asset)
            &&& self.custody[asset] == authority_for(asset)
        }
        &&& forall|asset: u64| #[trigger] self.custody.contains_key(asset)
            && self.custody[asset] is Derived ==> {
            &&& self.custody[asset] == authority_for(asset)
            &&& self.sales.contains_key(asset)
        }
        &&& self.metadata.dom() == self.custody.dom()
    }

    /// An asset is live on the market exactly when it has a sale record.
    pub open spec fn listed(self, asset: u64) -> bool {
        self.sales.contains_key(asset)
    }
}

/// The marketplace ledger. All mutation goes through the operations in
/// [`crate::ops`], each of which preserves [`MarketView::wf`].
pub struct Marketplace {
    pub(crate) custody: std::collections::HashMap<u64, Address>,
    pub(crate) metadata: std::collections::HashMap<u64, TokenMetadata>,
    pub(crate) sales: std::collections::HashMap<u64, Sale>,
    pub(crate) balances: std::collections::HashMap<u64, u64>,
}

impl View for Marketplace {
    type V = MarketView;

    open(crate) spec fn view(&self) -> MarketView {
        MarketView {
            custody: self.custody@,
            metadata: self.metadata@,
            sales: self.sales@,
            balances: self.balances@,
        }
    }
}

impl Marketplace {
    /// An empty ledger: nothing minted, nothing listed, nothing owed.
    pub fn new() -> (m: Marketplace)
        ensures
            m@.wf(),
            m@.custody == Map::<u64, Address>::empty(),
            m@.metadata == Map::<u64, TokenMetadata>::empty(),
            m@.sales == Map::<u64, Sale>::empty(),
            m@.balances == Map::<u64, u64>::empty(),
    {
        Marketplace {
            custody: std::collections::HashMap::new(),
            metadata: std::collections::HashMap::new(),
            sales: std::collections::HashMap::new(),
            balances: std::collections::HashMap::new(),
        }
    }
}

} // verus!
