use marketplace::{Address, ErrorCode, Marketplace, Sale};

const SELLER: u64 = 1;
const BUYER: u64 = 2;
const STRANGER: u64 = 3;
const COLLECTION: u64 = 10;
const ASSET: u64 = 11;

fn market_with_listed_asset(price: u64) -> Marketplace {
    let mut m = Marketplace::new();
    m.mint_collection(
        SELLER,
        COLLECTION,
        "Gallery".to_string(),
        "GAL".to_string(),
        "ipfs://gallery".to_string(),
    )
    .unwrap();
    m.mint_nft(
        SELLER,
        ASSET,
        "Piece".to_string(),
        "PCE".to_string(),
        "ipfs://piece".to_string(),
        COLLECTION,
    )
    .unwrap();
    m.list_nft_for_sale(SELLER, ASSET, price).unwrap();
    m
}

#[test]
fn list_then_withdraw_returns_asset() {
    let mut m = market_with_listed_asset(100);
    assert_eq!(m.withdraw_nft(SELLER, ASSET), Ok(()));
    assert_eq!(m.owner_of(ASSET), Some(Address::External(SELLER)));
    assert!(!m.is_listed(ASSET));
    assert_eq!(m.sale_of(ASSET), None);
}

#[test]
fn list_then_purchase_transfers_asset_and_payment() {
    let mut m = market_with_listed_asset(100);
    m.fund(BUYER, 150).unwrap();
    assert_eq!(m.buy_nft(BUYER, ASSET), Ok(()));
    assert_eq!(m.owner_of(ASSET), Some(Address::External(BUYER)));
    assert!(!m.is_listed(ASSET));
    assert_eq!(m.balance(SELLER), 100);
    assert_eq!(m.balance(BUYER), 50);
}

#[test]
fn round_trip_moves_exactly_the_price() {
    let mut m = Marketplace::new();
    m.fund(SELLER, 7).unwrap();
    m.fund(BUYER, 100).unwrap();
    m.mint_nft(
        SELLER,
        ASSET,
        "Piece".to_string(),
        "PCE".to_string(),
        "ipfs://piece".to_string(),
        COLLECTION,
    )
    .unwrap();
    m.list_nft_for_sale(SELLER, ASSET, 100).unwrap();
    m.buy_nft(BUYER, ASSET).unwrap();
    assert_eq!(m.balance(BUYER), 0);
    assert_eq!(m.balance(SELLER), 107);
    assert_eq!(m.owner_of(ASSET), Some(Address::External(BUYER)));
}

#[test]
fn purchase_without_record_fails_without_effect() {
    let mut m = Marketplace::new();
    m.fund(BUYER, 100).unwrap();
    m.mint_nft(
        SELLER,
        ASSET,
        "Piece".to_string(),
        "PCE".to_string(),
        "ipfs://piece".to_string(),
        COLLECTION,
    )
    .unwrap();
    assert_eq!(m.buy_nft(BUYER, ASSET), Err(ErrorCode::NoSaleRecord));
    assert_eq!(m.owner_of(ASSET), Some(Address::External(SELLER)));
    assert_eq!(m.balance(BUYER), 100);
    assert_eq!(m.balance(SELLER), 0);
}

#[test]
fn withdraw_without_record_fails_without_effect() {
    let mut m = Marketplace::new();
    m.mint_nft(
        SELLER,
        ASSET,
        "Piece".to_string(),
        "PCE".to_string(),
        "ipfs://piece".to_string(),
        COLLECTION,
    )
    .unwrap();
    assert_eq!(m.withdraw_nft(SELLER, ASSET), Err(ErrorCode::NoSaleRecord));
    assert_eq!(m.owner_of(ASSET), Some(Address::External(SELLER)));
}

#[test]
fn withdraw_by_stranger_fails() {
    let mut m = market_with_listed_asset(100);
    assert_eq!(m.withdraw_nft(STRANGER, ASSET), Err(ErrorCode::SellerMismatch));
    assert!(m.is_listed(ASSET));
    assert_eq!(m.owner_of(ASSET), Some(Address::Derived(ASSET)));
}

#[test]
fn second_purchase_fails_cleanly() {
    let mut m = market_with_listed_asset(100);
    m.fund(BUYER, 100).unwrap();
    m.fund(STRANGER, 100).unwrap();
    assert_eq!(m.buy_nft(BUYER, ASSET), Ok(()));
    assert_eq!(m.buy_nft(STRANGER, ASSET), Err(ErrorCode::NoSaleRecord));
    assert_eq!(m.owner_of(ASSET), Some(Address::External(BUYER)));
    assert_eq!(m.balance(STRANGER), 100);
    assert_eq!(m.balance(SELLER), 100);
}

#[test]
fn double_listing_fails_and_keeps_record() {
    let mut m = market_with_listed_asset(100);
    assert_eq!(
        m.list_nft_for_sale(STRANGER, ASSET, 5),
        Err(ErrorCode::AlreadyListed)
    );
    assert_eq!(
        m.sale_of(ASSET),
        Some(Sale { seller: SELLER, price: 100 })
    );
}

#[test]
fn zero_price_listing_is_rejected() {
    let mut m = Marketplace::new();
    m.mint_nft(
        SELLER,
        ASSET,
        "Piece".to_string(),
        "PCE".to_string(),
        "ipfs://piece".to_string(),
        COLLECTION,
    )
    .unwrap();
    assert_eq!(
        m.list_nft_for_sale(SELLER, ASSET, 0),
        Err(ErrorCode::ZeroPrice)
    );
    // Nothing was listed, so the later withdrawal reports a missing record,
    // never "already sold".
    assert_eq!(m.withdraw_nft(SELLER, ASSET), Err(ErrorCode::NoSaleRecord));
    assert_eq!(m.owner_of(ASSET), Some(Address::External(SELLER)));
}

#[test]
fn underfunded_buyer_is_refused() {
    let mut m = market_with_listed_asset(100);
    m.fund(BUYER, 99).unwrap();
    assert_eq!(m.buy_nft(BUYER, ASSET), Err(ErrorCode::InsufficientFunds));
    assert!(m.is_listed(ASSET));
    assert_eq!(m.balance(BUYER), 99);
}

#[test]
fn listing_an_asset_you_do_not_hold_fails() {
    let mut m = Marketplace::new();
    assert_eq!(
        m.list_nft_for_sale(SELLER, ASSET, 100),
        Err(ErrorCode::AssetNotOwned)
    );
    m.mint_nft(
        SELLER,
        ASSET,
        "Piece".to_string(),
        "PCE".to_string(),
        "ipfs://piece".to_string(),
        COLLECTION,
    )
    .unwrap();
    assert_eq!(
        m.list_nft_for_sale(STRANGER, ASSET, 100),
        Err(ErrorCode::AssetNotOwned)
    );
}

#[test]
fn listing_twice_by_the_seller_reports_already_listed() {
    let mut m = market_with_listed_asset(100);
    assert_eq!(
        m.list_nft_for_sale(SELLER, ASSET, 200),
        Err(ErrorCode::AlreadyListed)
    );
    assert_eq!(
        m.sale_of(ASSET),
        Some(Sale { seller: SELLER, price: 100 })
    );
}

#[test]
fn seller_credit_overflow_aborts_purchase() {
    let mut m = market_with_listed_asset(100);
    m.fund(SELLER, u64::MAX).unwrap();
    m.fund(BUYER, 100).unwrap();
    assert_eq!(m.buy_nft(BUYER, ASSET), Err(ErrorCode::BalanceOverflow));
    assert!(m.is_listed(ASSET));
    assert_eq!(m.balance(BUYER), 100);
    assert_eq!(m.balance(SELLER), u64::MAX);
}

#[test]
fn funding_overflow_is_refused() {
    let mut m = Marketplace::new();
    m.fund(BUYER, u64::MAX).unwrap();
    assert_eq!(m.fund(BUYER, 1), Err(ErrorCode::BalanceOverflow));
    assert_eq!(m.balance(BUYER), u64::MAX);
}

#[test]
fn seller_buying_their_own_listing_nets_to_zero() {
    let mut m = market_with_listed_asset(100);
    m.fund(SELLER, 100).unwrap();
    assert_eq!(m.buy_nft(SELLER, ASSET), Ok(()));
    assert_eq!(m.balance(SELLER), 100);
    assert_eq!(m.owner_of(ASSET), Some(Address::External(SELLER)));
    assert!(!m.is_listed(ASSET));
}
