//! The operations as mathematical transitions.
//!
//! For each operation there is a pair of spec functions: `..._result` gives
//! the exact outcome (success, or which error) on any state, and `..._post`
//! gives the state after a successful call. The executable operations in
//! [`crate::ops`] promise to return exactly `..._result`, to land exactly on
//! `..._post` on success, and to leave the state untouched on failure. The
//! lemmas here show that every successful transition preserves the state
//! invariant [`MarketView::wf`].

use vstd::prelude::*;

use crate::authority::{authority_for, Address};
use crate::state::{balance_of, ErrorCode, MarketView, Sale, TokenMetadata};

verus! {

/// Outcome of minting: the identifier must be free. Minting is
/// exclusive-create, never an overwrite.
pub open spec fn mint_result(v: MarketView, creator: u64, asset: u64) -> Result<(), ErrorCode> {
    if v.custody.contains_key(asset) {
        Err(ErrorCode::AssetExists)
    } else {
        Ok(())
    }
}

/// State after a successful mint: the creator's custody slot holds the new
/// unit and the descriptive record is attached. Sales and balances are
/// untouched.
pub open spec fn mint_post(v: MarketView, creator: u64, asset: u64, meta: TokenMetadata) -> MarketView {
    MarketView {
        custody: v.custody.insert(asset, Address::External(creator)),
        metadata: v.metadata.insert(asset, meta),
        ..v
    }
}

/// Outcome of crediting native currency to an identity.
pub open spec fn fund_result(v: MarketView, id: u64, amount: u64) -> Result<(), ErrorCode> {
    if balance_of(v.balances, id) + amount > u64::MAX {
        Err(ErrorCode::BalanceOverflow)
    } else {
        Ok(())
    }
}

/// State after a successful credit.
pub open spec fn fund_post(v: MarketView, id: u64, amount: u64) -> MarketView {
    MarketView {
        balances: v.balances.insert(id, (balance_of(v.balances, id) + amount) as u64),
        ..v
    }
}

/// Outcome of listing. A zero price is rejected outright: a live record's
/// strictly positive price is what distinguishes it from a retired one. The
/// record slot must be free — listing is exclusive-create and never
/// overwrites a live record, checked before anything else about the asset —
/// and the seller's custody slot must hold the unit.
pub open spec fn list_result(v: MarketView, seller: u64, asset: u64, price: u64) -> Result<
    (),
    ErrorCode,
> {
    if price == 0 {
        Err(ErrorCode::ZeroPrice)
    } else if v.sales.contains_key(asset) {
        Err(ErrorCode::AlreadyListed)
    } else if !(v.custody.contains_key(asset) && v.custody[asset] == Address::External(seller)) {
        Err(ErrorCode::AssetNotOwned)
    } else {
        Ok(())
    }
}

/// State after a successful listing: the unit moves into the custody of the
/// asset's derived authority and the sale record is created, atomically.
pub open spec fn list_post(v: MarketView, seller: u64, asset: u64, price: u64) -> MarketView {
    MarketView {
        custody: v.custody.insert(asset, authority_for(asset)),
        sales: v.sales.insert(asset, Sale { seller, price }),
        ..v
    }
}

/// Both balances after `amount` moves from `from` to `to`. Debit first, then
/// credit on the debited map, so paying oneself is a no-op rather than a
/// double count.
pub open spec fn pay(balances: Map<u64, u64>, from: u64, to: u64, amount: u64) -> Map<u64, u64> {
    let debited = balances.insert(from, (balance_of(balances, from) - amount) as u64);
    debited.insert(to, (balance_of(debited, to) + amount) as u64)
}

/// Outcome of a purchase. There must be a live record; the recorded custody
/// holder must equal the re-derived authority (the mismatch arm can never
/// fire on a well-formed state, but the operation re-checks it rather than
/// assume it); the buyer must cover the price; and the seller's balance must
/// be able to take the payment.
pub open spec fn purchase_result(v: MarketView, buyer: u64, asset: u64) -> Result<(), ErrorCode> {
    if !v.sales.contains_key(asset) {
        Err(ErrorCode::NoSaleRecord)
    } else if !(v.custody.contains_key(asset) && v.custody[asset] == authority_for(asset)) {
        Err(ErrorCode::AuthorityMismatch)
    } else if balance_of(v.balances, buyer) < v.sales[asset].price {
        Err(ErrorCode::InsufficientFunds)
    } else if balance_of(
        v.balances.insert(buyer, (balance_of(v.balances, buyer) - v.sales[asset].price) as u64),
        v.sales[asset].seller,
    ) + v.sales[asset].price > u64::MAX {
        Err(ErrorCode::BalanceOverflow)
    } else {
        Ok(())
    }
}

/// State after a successful purchase: the unit leaves derived custody for
/// the buyer, exactly the recorded price moves from buyer to seller, and the
/// sale record is destroyed — one indivisible step.
pub open spec fn purchase_post(v: MarketView, buyer: u64, asset: u64) -> MarketView {
    let sale = v.sales[asset];
    MarketView {
        custody: v.custody.insert(asset, Address::External(buyer)),
        sales: v.sales.remove(asset),
        balances: pay(v.balances, buyer, sale.seller, sale.price),
        ..v
    }
}

/// Outcome of a withdrawal. There must be a live record; a price reading
/// zero means the record was already retired ("already sold") and is
/// reported as such, never silently treated as withdrawable; only the
/// recorded seller may withdraw; and the custody holder must equal the
/// re-derived authority, re-checked as in a purchase.
pub open spec fn withdraw_result(v: MarketView, caller: u64, asset: u64) -> Result<(), ErrorCode> {
    if !v.sales.contains_key(asset) {
        Err(ErrorCode::NoSaleRecord)
    } else if v.sales[asset].price == 0 {
        Err(ErrorCode::NftAlreadySold)
    } else if v.sales[asset].seller != caller {
        Err(ErrorCode::SellerMismatch)
    } else if !(v.custody.contains_key(asset) && v.custody[asset] == authority_for(asset)) {
        Err(ErrorCode::AuthorityMismatch)
    } else {
        Ok(())
    }
}

/// State after a successful withdrawal: the unit returns to the seller and
/// the sale record is destroyed, atomically. Balances are untouched.
pub open spec fn withdraw_post(v: MarketView, caller: u64, asset: u64) -> MarketView {
    MarketView {
        custody: v.custody.insert(asset, Address::External(caller)),
        sales: v.sales.remove(asset),
        ..v
    }
}

/// A successful mint preserves the state invariant.
pub proof fn lemma_mint_preserves_wf(v: MarketView, creator: u64, asset: u64, meta: TokenMetadata)
    requires
        v.wf(),
        mint_result(v, creator, asset) is Ok,
    ensures
        mint_post(v, creator, asset, meta).wf(),
{
    let post = mint_post(v, creator, asset, meta);
    assert(post.metadata.dom() =~= post.custody.dom());
}

/// A successful credit preserves the state invariant.
pub proof fn lemma_fund_preserves_wf(v: MarketView, id: u64, amount: u64)
    requires
        v.wf(),
    ensures
        fund_post(v, id, amount).wf(),
{
}

/// A successful listing preserves the state invariant.
pub proof fn lemma_list_preserves_wf(v: MarketView, seller: u64, asset: u64, price: u64)
    requires
        v.wf(),
        list_result(v, seller, asset, price) is Ok,
    ensures
        list_post(v, seller, asset, price).wf(),
{
    let post = list_post(v, seller, asset, price);
    assert(post.metadata.dom() =~= post.custody.dom());
}

/// A successful purchase preserves the state invariant.
pub proof fn lemma_purchase_preserves_wf(v: MarketView, buyer: u64, asset: u64)
    requires
        v.wf(),
        purchase_result(v, buyer, asset) is Ok,
    ensures
        purchase_post(v, buyer, asset).wf(),
{
    let post = purchase_post(v, buyer, asset);
    assert(post.metadata.dom() =~= post.custody.dom());
}

/// A successful withdrawal preserves the state invariant.
pub proof fn lemma_withdraw_preserves_wf(v: MarketView, caller: u64, asset: u64)
    requires
        v.wf(),
        withdraw_result(v, caller, asset) is Ok,
    ensures
        withdraw_post(v, caller, asset).wf(),
{
    let post = withdraw_post(v, caller, asset);
    assert(post.metadata.dom() =~= post.custody.dom());
}

} // verus!
