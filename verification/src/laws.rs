//! The lifecycle guarantees, proved once and for all.
//!
//! Each lemma here states a law of the escrow protocol over the transition
//! spec functions that the operations' own contracts are written in, so each
//! holds of every reachable ledger state. The "fails and mutates nothing"
//! half of the failure laws is carried by the operations' contracts
//! themselves: a returned error always comes with an unchanged state.

use vstd::prelude::*;

use crate::authority::Address;
use crate::state::{balance_of, ErrorCode, MarketView};
use crate::transitions::{
    list_post, list_result, pay, purchase_post, purchase_result, withdraw_post, withdraw_result,
};

verus! {

/// Listing and then withdrawing an asset is a complete round trip: the
/// withdrawal is owed to the seller, the unit is back in the seller's
/// custody slot, no sale record is left, and balances and descriptive
/// records are exactly as before.
pub proof fn lemma_list_then_withdraw(v: MarketView, seller: u64, asset: u64, price: u64)
    requires
        v.wf(),
        list_result(v, seller, asset, price) is Ok,
    ensures
        ({
            let listed = list_post(v, seller, asset, price);
            let w = withdraw_post(listed, seller, asset);
            &&& withdraw_result(listed, seller, asset) is Ok
            &&& !w.sales.contains_key(asset)
            &&& w.custody[asset] == Address::External(seller)
            &&& w == v
        }),
{
    let listed = list_post(v, seller, asset, price);
    let w = withdraw_post(listed, seller, asset);
    assert(w.custody =~= v.custody);
    assert(w.sales =~= v.sales);
    assert(w =~= v);
}

/// Listing and then purchasing transfers the unit to any sufficiently funded
/// buyer: the purchase is owed, the buyer ends up holding the unit, no sale
/// record is left, and exactly `price` currency units move from the buyer to
/// the seller — no more, no less, and nobody else's balance moves.
pub proof fn lemma_list_then_purchase(
    v: MarketView,
    seller: u64,
    asset: u64,
    price: u64,
    buyer: u64,
)
    requires
        v.wf(),
        list_result(v, seller, asset, price) is Ok,
        balance_of(v.balances, buyer) >= price,
        buyer == seller || balance_of(v.balances, seller) + price <= u64::MAX,
    ensures
        ({
            let listed = list_post(v, seller, asset, price);
            let p = purchase_post(listed, buyer, asset);
            &&& purchase_result(listed, buyer, asset) is Ok
            &&& !p.sales.contains_key(asset)
            &&& p.sales == v.sales
            &&& p.custody == v.custody.insert(asset, Address::External(buyer))
            &&& p.metadata == v.metadata
            &&& p.balances == pay(v.balances, buyer, seller, price)
            &&& buyer != seller ==> balance_of(p.balances, buyer) == balance_of(
                v.balances,
                buyer,
            ) - price
            &&& buyer != seller ==> balance_of(p.balances, seller) == balance_of(
                v.balances,
                seller,
            ) + price
            &&& buyer == seller ==> balance_of(p.balances, buyer) == balance_of(v.balances, buyer)
            &&& forall|other: u64|
                other != buyer && other != seller ==> balance_of(p.balances, other) == balance_of(
                    v.balances,
                    other,
                )
        }),
{
    let listed = list_post(v, seller, asset, price);
    let p = purchase_post(listed, buyer, asset);
    assert(p.sales =~= v.sales);
    assert(p.custody =~= v.custody.insert(asset, Address::External(buyer)));
}

/// An asset with no live sale record can be neither bought nor withdrawn:
/// both operations report that there is nothing there. Their contracts add
/// that a failed call leaves the state untouched.
pub proof fn lemma_no_record_fails(v: MarketView, caller: u64, asset: u64)
    requires
        !v.sales.contains_key(asset),
    ensures
        purchase_result(v, caller, asset) == Err::<(), ErrorCode>(ErrorCode::NoSaleRecord),
        withdraw_result(v, caller, asset) == Err::<(), ErrorCode>(ErrorCode::NoSaleRecord),
{
}

/// Nobody but the recorded seller can ever withdraw a listed asset.
pub proof fn lemma_withdraw_foreign_caller_fails(v: MarketView, caller: u64, asset: u64)
    requires
        v.sales.contains_key(asset),
        caller != v.sales[asset].seller,
    ensures
        withdraw_result(v, caller, asset) is Err,
{
}

/// A token cannot be double-sold. Of two purchase requests for the same
/// asset, admitted one after the other by the ordering layer, the first to
/// commit wins: the second finds no sale record and fails cleanly, and the
/// unit sits with exactly the first buyer.
pub proof fn lemma_second_purchase_fails(v: MarketView, first: u64, second: u64, asset: u64)
    requires
        v.wf(),
        purchase_result(v, first, asset) is Ok,
    ensures
        ({
            let p = purchase_post(v, first, asset);
            &&& p.custody[asset] == Address::External(first)
            &&& purchase_result(p, second, asset) == Err::<(), ErrorCode>(ErrorCode::NoSaleRecord)
        }),
{
}

/// Listing an asset that already has a live sale record always fails, for
/// every caller and price: record creation is exclusive. The operation's
/// contract adds that the existing record is left exactly as it was.
pub proof fn lemma_double_listing_fails(v: MarketView, seller: u64, asset: u64, price: u64)
    requires
        v.sales.contains_key(asset),
    ensures
        list_result(v, seller, asset, price) is Err,
        price != 0 ==> list_result(v, seller, asset, price) == Err::<(), ErrorCode>(
            ErrorCode::AlreadyListed,
        ),
{
}

/// A price of zero is rejected at listing time, explicitly and always.
pub proof fn lemma_zero_price_listing_rejected(v: MarketView, seller: u64, asset: u64)
    ensures
        list_result(v, seller, asset, 0) == Err::<(), ErrorCode>(ErrorCode::ZeroPrice),
{
}

/// On a well-formed ledger the "already sold" signal never fires: every live
/// record carries a strictly positive price precisely because zero-price
/// listings are rejected at the door, so a withdrawal can never silently
/// treat a live listing as already sold.
pub proof fn lemma_no_silent_already_sold(v: MarketView, caller: u64, asset: u64)
    requires
        v.wf(),
    ensures
        withdraw_result(v, caller, asset) != Err::<(), ErrorCode>(ErrorCode::NftAlreadySold),
{
}

} // verus!
