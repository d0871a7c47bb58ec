//! The executable marketplace operations.
//!
//! Each operation is one atomic unit: it validates everything first and
//! mutates nothing until no check can fail any more, so a failed call
//! returns an [`ErrorCode`] and leaves the state exactly as it was. Each
//! contract says that the returned result is exactly the one given by the
//! corresponding spec function in [`crate::transitions`], and that a
//! successful call lands exactly on the corresponding post-state.
//!
//! Caller identities arrive already authenticated: on the ledger every
//! operation is co-signed, so an identity argument here stands for a caller
//! whose signature the ordering layer has checked.

use vstd::prelude::*;

use crate::authority::{derive_authority, Address};
use crate::state::{balance_of, ErrorCode, Marketplace, Sale, TokenMetadata};
use crate::transitions::{
    fund_post, fund_result, lemma_fund_preserves_wf, lemma_list_preserves_wf,
    lemma_mint_preserves_wf, lemma_purchase_preserves_wf, lemma_withdraw_preserves_wf, list_post,
    list_result, mint_post, mint_result, purchase_post, purchase_result, withdraw_post,
    withdraw_result,
};

verus! {

broadcast use vstd::std_specs::hash::group_hash_axioms;

impl Marketplace {
    /// The native-currency balance of an identity; an identity the ledger
    /// has never seen holds nothing.
    pub fn balance(&self, id: u64) -> (r: u64)
        ensures
            r == balance_of(self@.balances, id),
    {
        match self.balances.get(&id) {
            Some(b) => *b,
            None => 0,
        }
    }

    /// Who currently holds the single unit of an asset, or `None` if no such
    /// asset was ever minted.
    pub fn owner_of(&self, asset: u64) -> (r: Option<Address>)
        ensures
            r == if self@.custody.contains_key(asset) {
                Some(self@.custody[asset])
            } else {
                None::<Address>
            },
    {
        match self.custody.get(&asset) {
            Some(holder) => Some(*holder),
            None => None,
        }
    }

    /// The live sale record of an asset, or `None` if it is not listed.
    pub fn sale_of(&self, asset: u64) -> (r: Option<Sale>)
        ensures
            r == if self@.sales.contains_key(asset) {
                Some(self@.sales[asset])
            } else {
                None::<Sale>
            },
    {
        match self.sales.get(&asset) {
            Some(sale) => Some(*sale),
            None => None,
        }
    }

    /// Whether an asset currently has a live sale record.
    pub fn is_listed(&self, asset: u64) -> (r: bool)
        ensures
            r == self@.listed(asset),
    {
        self.sales.contains_key(&asset)
    }

    /// The descriptive record attached to an asset at minting, or `None` if
    /// no such asset was ever minted.
    pub fn token_metadata(&self, asset: u64) -> (r: Option<&TokenMetadata>)
        ensures
            match r {
                Some(meta) => self@.metadata.contains_key(asset) && *meta == self@.metadata[asset],
                None => !self@.metadata.contains_key(asset),
            },
    {
        self.metadata.get(&asset)
    }

    /// Credit native currency to an identity. This is the ledger's funding
    /// edge: purchases only ever move balances that entered through here.
    pub fn fund(&mut self, id: u64, amount: u64) -> (r: Result<(), ErrorCode>)
        requires
            old(self)@.wf(),
        ensures
            final(self)@.wf(),
            r == fund_result(old(self)@, id, amount),
            r is Ok ==> final(self)@ == fund_post(old(self)@, id, amount),
            r is Err ==> final(self)@ == old(self)@,
    {
        let bal: u64 = self.balance(id);
        if amount > u64::MAX - bal {
            return Err(ErrorCode::BalanceOverflow);
        }
        self.balances.insert(id, bal + amount);
        proof {
            lemma_fund_preserves_wf(old(self)@, id, amount);
            assert(self@ =~= fund_post(old(self)@, id, amount));
        }
        Ok(())
    }

    /// Create a new asset unit owned by `creator`, with its descriptive
    /// record attached. Creation is exclusive: an identifier already in use
    /// is refused, never overwritten.
    fn mint_token(&mut self, creator: u64, asset: u64, meta: TokenMetadata) -> (r: Result<
        (),
        ErrorCode,
    >)
        requires
            old(self)@.wf(),
        ensures
            final(self)@.wf(),
            r == mint_result(old(self)@, creator, asset),
            r is Ok ==> final(self)@ == mint_post(old(self)@, creator, asset, meta),
            r is Err ==> final(self)@ == old(self)@,
    {
        if self.custody.contains_key(&asset) {
            return Err(ErrorCode::AssetExists);
        }
        self.custody.insert(asset, Address::External(creator));
        self.metadata.insert(asset, meta);
        proof {
            lemma_mint_preserves_wf(old(self)@, creator, asset, meta);
            assert(self@ =~= mint_post(old(self)@, creator, asset, meta));
        }
        Ok(())
    }

    /// Mint a collection: an indivisible token of its own, minted to the
    /// creator with the given descriptive fields and no parent collection.
    pub fn mint_collection(
        &mut self,
        creator: u64,
        asset: u64,
        collection_name: String,
        collection_symbol: String,
        collection_uri: String,
    ) -> (r: Result<(), ErrorCode>)
        requires
            old(self)@.wf(),
        ensures
            final(self)@.wf(),
            r == mint_result(old(self)@, creator, asset),
            r is Ok ==> final(self)@ == mint_post(
                old(self)@,
                creator,
                asset,
                TokenMetadata {
                    name: collection_name,
                    symbol: collection_symbol,
                    uri: collection_uri,
                    collection: None,
                },
            ),
            r is Err ==> final(self)@ == old(self)@,
    {
        self.mint_token(
            creator,
            asset,
            TokenMetadata {
                name: collection_name,
                symbol: collection_symbol,
                uri: collection_uri,
                collection: None,
            },
        )
    }

    /// Mint an indivisible token to the creator, recording the collection it
    /// claims to belong to alongside its descriptive fields.
    pub fn mint_nft(
        &mut self,
        creator: u64,
        asset: u64,
        nft_name: String,
        nft_symbol: String,
        nft_uri: String,
        collection_address: u64,
    ) -> (r: Result<(), ErrorCode>)
        requires
            old(self)@.wf(),
        ensures
            final(self)@.wf(),
            r == mint_result(old(self)@, creator, asset),
            r is Ok ==> final(self)@ == mint_post(
                old(self)@,
                creator,
                asset,
                TokenMetadata {
                    name: nft_name,
                    symbol: nft_symbol,
                    uri: nft_uri,
                    collection: Some(collection_address),
                },
            ),
            r is Err ==> final(self)@ == old(self)@,
    {
        self.mint_token(
            creator,
            asset,
            TokenMetadata {
                name: nft_name,
                symbol: nft_symbol,
                uri: nft_uri,
                collection: Some(collection_address),
            },
        )
    }

    /// List an asset for sale: move its unit from the seller's custody slot
    /// into the slot of the asset's derived authority and create the sale
    /// record, as one atomic step. Fails if the price is zero, if a live
    /// record already exists for the asset, or if the seller's slot does not
    /// hold the unit.
    pub fn list_nft_for_sale(&mut self, seller: u64, asset: u64, price: u64) -> (r: Result<
        (),
        ErrorCode,
    >)
        requires
            old(self)@.wf(),
        ensures
            final(self)@.wf(),
            r == list_result(old(self)@, seller, asset, price),
            r is Ok ==> final(self)@ == list_post(old(self)@, seller, asset, price),
            r is Err ==> final(self)@ == old(self)@,
    {
        if price == 0 {
            return Err(ErrorCode::ZeroPrice);
        }
        if self.sales.contains_key(&asset) {
            return Err(ErrorCode::AlreadyListed);
        }
        let owned = match self.custody.get(&asset) {
            Some(holder) => *holder == Address::External(seller),
            None => false,
        };
        if !owned {
            return Err(ErrorCode::AssetNotOwned);
        }
        let authority = derive_authority(asset);
        self.custody.insert(asset, authority);
        self.sales.insert(asset, Sale { seller, price });
        proof {
            lemma_list_preserves_wf(old(self)@, seller, asset, price);
            assert(self@ =~= list_post(old(self)@, seller, asset, price));
        }
        Ok(())
    }

    /// Purchase a listed asset: re-derive the custodial authority and check
    /// it against the recorded holder, move the unit to the buyer, move
    /// exactly the recorded price from buyer to seller, and destroy the sale
    /// record — all one atomic step, or nothing on any failure.
    pub fn buy_nft(&mut self, buyer: u64, asset: u64) -> (r: Result<(), ErrorCode>)
        requires
            old(self)@.wf(),
        ensures
            final(self)@.wf(),
            r == purchase_result(old(self)@, buyer, asset),
            r is Ok ==> final(self)@ == purchase_post(old(self)@, buyer, asset),
            r is Err ==> final(self)@ == old(self)@,
    {
        let sale: Sale = match self.sales.get(&asset) {
            Some(s) => *s,
            None => {
                return Err(ErrorCode::NoSaleRecord);
            },
        };
        let authority = derive_authority(asset);
        let holder_matches = match self.custody.get(&asset) {
            Some(holder) => *holder == authority,
            None => false,
        };
        if !holder_matches {
            return Err(ErrorCode::AuthorityMismatch);
        }
        let buyer_funds: u64 = self.balance(buyer);
        if buyer_funds < sale.price {
            return Err(ErrorCode::InsufficientFunds);
        }
        let debited: u64 = buyer_funds - sale.price;
        let seller_funds: u64 = if sale.seller == buyer {
            debited
        } else {
            self.balance(sale.seller)
        };
        if sale.price > u64::MAX - seller_funds {
            return Err(ErrorCode::BalanceOverflow);
        }
        self.balances.insert(buyer, debited);
        self.balances.insert(sale.seller, seller_funds + sale.price);
        self.custody.insert(asset, Address::External(buyer));
        self.sales.remove(&asset);
        proof {
            lemma_purchase_preserves_wf(old(self)@, buyer, asset);
            assert(self@ =~= purchase_post(old(self)@, buyer, asset));
        }
        Ok(())
    }

    /// Withdraw an unsold asset: only the recorded seller may reclaim it.
    /// The unit returns from derived custody to the seller and the sale
    /// record is destroyed, atomically; balances are untouched. A record
    /// whose price reads zero is reported as already sold, never withdrawn.
    pub fn withdraw_nft(&mut self, seller: u64, asset: u64) -> (r: Result<(), ErrorCode>)
        requires
            old(self)@.wf(),
        ensures
            final(self)@.wf(),
            r == withdraw_result(old(self)@, seller, asset),
            r is Ok ==> final(self)@ == withdraw_post(old(self)@, seller, asset),
            r is Err ==> final(self)@ == old(self)@,
    {
        let sale: Sale = match self.sales.get(&asset) {
            Some(s) => *s,
            None => {
                return Err(ErrorCode::NoSaleRecord);
            },
        };
        if sale.price == 0 {
            return Err(ErrorCode::NftAlreadySold);
        }
        if sale.seller != seller {
            return Err(ErrorCode::SellerMismatch);
        }
        let authority = derive_authority(asset);
        let holder_matches = match self.custody.get(&asset) {
            Some(holder) => *holder == authority,
            None => false,
        };
        if !holder_matches {
            return Err(ErrorCode::AuthorityMismatch);
        }
        self.custody.insert(asset, Address::External(seller));
        self.sales.remove(&asset);
        proof {
            lemma_withdraw_preserves_wf(old(self)@, seller, asset);
            assert(self@ =~= withdraw_post(old(self)@, seller, asset));
        }
        Ok(())
    }
}

} // verus!
