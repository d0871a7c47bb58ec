use marketplace::{Address, ErrorCode, Marketplace};

#[test]
fn minting_attaches_the_descriptive_record() {
    let mut m = Marketplace::new();
    m.mint_collection(
        5,
        40,
        "Gallery".to_string(),
        "GAL".to_string(),
        "ipfs://gallery".to_string(),
    )
    .unwrap();
    m.mint_nft(
        5,
        41,
        "Piece".to_string(),
        "PCE".to_string(),
        "ipfs://piece".to_string(),
        40,
    )
    .unwrap();

    let collection_meta = m.token_metadata(40).unwrap();
    assert_eq!(collection_meta.name, "Gallery");
    assert_eq!(collection_meta.symbol, "GAL");
    assert_eq!(collection_meta.uri, "ipfs://gallery");
    assert_eq!(collection_meta.collection, None);

    let nft_meta = m.token_metadata(41).unwrap();
    assert_eq!(nft_meta.name, "Piece");
    assert_eq!(nft_meta.symbol, "PCE");
    assert_eq!(nft_meta.uri, "ipfs://piece");
    assert_eq!(nft_meta.collection, Some(40));

    assert_eq!(m.owner_of(40), Some(Address::External(5)));
    assert_eq!(m.owner_of(41), Some(Address::External(5)));
}

#[test]
fn minting_is_exclusive_create() {
    let mut m = Marketplace::new();
    m.mint_nft(
        5,
        41,
        "Piece".to_string(),
        "PCE".to_string(),
        "ipfs://piece".to_string(),
        40,
    )
    .unwrap();
    assert_eq!(
        m.mint_nft(
            6,
            41,
            "Imitation".to_string(),
            "IMI".to_string(),
            "ipfs://imitation".to_string(),
            40,
        ),
        Err(ErrorCode::AssetExists)
    );
    // The original unit and record are untouched.
    assert_eq!(m.owner_of(41), Some(Address::External(5)));
    assert_eq!(m.token_metadata(41).unwrap().name, "Piece");
}

#[test]
fn unminted_assets_are_unknown() {
    let m = Marketplace::new();
    assert_eq!(m.owner_of(41), None);
    assert_eq!(m.token_metadata(41), None);
    assert_eq!(m.sale_of(41), None);
    assert_eq!(m.balance(5), 0);
}

#[test]
fn funding_accumulates() {
    let mut m = Marketplace::new();
    m.fund(5, 30).unwrap();
    m.fund(5, 12).unwrap();
    assert_eq!(m.balance(5), 42);
}
