use anchor_lang::prelude::Pubkey;
use anchor_lang::solana_program::hash::hash;
use anchor_lang::AnchorSerialize;
use nft_market_place::state::AccountDataError;
use nft_market_place::{Key, SellerVault, WhitelistedCollection};

fn key(b: u8) -> Key {
    Key::new([b; 32])
}

fn disc(name: &str) -> Vec<u8> {
    hash(format!("account:{}", name).as_bytes()).to_bytes()[..8].to_vec()
}

#[test]
fn discriminators_are_hashes_of_type_names() {
    assert_eq!(SellerVault::discriminator(), disc("SellerVault"));
    assert_eq!(WhitelistedCollection::discriminator(), disc("WhitelistedCollection"));
    assert_ne!(SellerVault::discriminator(), WhitelistedCollection::discriminator());
}

#[test]
fn seller_vault_layout_matches_borsh() {
    let v = SellerVault { owner: key(1), mint_address: key(2), price: 0x0102_0304_0506_0708, first_creator: key(3) };
    let data = v.try_serialize();
    assert_eq!(data.len(), SellerVault::LEN);
    let mut expected = disc("SellerVault");
    (
        Pubkey::new_from_array([1; 32]),
        Pubkey::new_from_array([2; 32]),
        0x0102_0304_0506_0708u64,
        Pubkey::new_from_array([3; 32]),
    )
        .serialize(&mut expected)
        .unwrap();
    assert_eq!(data, expected);
    assert_eq!(data[72..80], [8, 7, 6, 5, 4, 3, 2, 1]);
}

#[test]
fn seller_vault_round_trip() {
    let v = SellerVault { owner: key(1), mint_address: key(2), price: u64::MAX, first_creator: key(3) };
    let mut data = v.try_serialize();
    assert_eq!(SellerVault::try_deserialize(&data), Ok(v));
    data.extend_from_slice(&[9, 9, 9]);
    assert_eq!(SellerVault::try_deserialize(&data), Ok(v));
}

#[test]
fn seller_vault_read_errors() {
    let v = SellerVault { owner: key(1), mint_address: key(2), price: 3, first_creator: key(3) };
    let data = v.try_serialize();
    assert_eq!(SellerVault::try_deserialize(&data[..7]), Err(AccountDataError::DiscriminatorNotFound));
    let mut other = data.clone();
    other[0] ^= 1;
    assert_eq!(SellerVault::try_deserialize(&other), Err(AccountDataError::DiscriminatorMismatch));
    assert_eq!(SellerVault::try_deserialize(&data[..111]), Err(AccountDataError::DidNotDeserialize));
    assert_eq!(SellerVault::try_deserialize(&data[..8]), Err(AccountDataError::DidNotDeserialize));
}

#[test]
fn collection_layout_matches_borsh() {
    let c = WhitelistedCollection { first_creator: key(5), collection_name: "Mönke".to_string() };
    let data = c.try_serialize().unwrap();
    let mut expected = disc("WhitelistedCollection");
    (Pubkey::new_from_array([5; 32]), "Mönke".to_string()).serialize(&mut expected).unwrap();
    assert_eq!(data, expected);
    assert_eq!(data.len(), 44 + 6);
    assert_eq!(WhitelistedCollection::try_deserialize(&data), Ok(c));
}

#[test]
fn collection_store_fits_names_up_to_32_bytes() {
    let name32 = "a".repeat(32);
    let c = WhitelistedCollection { first_creator: key(5), collection_name: name32.clone() };
    let data = c.store().unwrap();
    assert_eq!(data.len(), WhitelistedCollection::LEN);
    assert_eq!(WhitelistedCollection::try_deserialize(&data), Ok(c));
    let short = WhitelistedCollection { first_creator: key(5), collection_name: "ab".to_string() };
    let data = short.store().unwrap();
    assert_eq!(data.len(), 76);
    assert!(data[46..].iter().all(|b| *b == 0));
    assert_eq!(WhitelistedCollection::try_deserialize(&data), Ok(short));
    let long = WhitelistedCollection { first_creator: key(5), collection_name: "a".repeat(33) };
    assert_eq!(long.store(), Err(AccountDataError::DidNotSerialize));
    assert!(long.try_serialize().is_ok());
}

#[test]
fn collection_read_errors() {
    let c = WhitelistedCollection { first_creator: key(5), collection_name: "abc".to_string() };
    let data = c.try_serialize().unwrap();
    assert_eq!(WhitelistedCollection::try_deserialize(&data[..3]), Err(AccountDataError::DiscriminatorNotFound));
    let mut other = data.clone();
    other[7] ^= 0x80;
    assert_eq!(WhitelistedCollection::try_deserialize(&other), Err(AccountDataError::DiscriminatorMismatch));
    assert_eq!(WhitelistedCollection::try_deserialize(&data[..43]), Err(AccountDataError::DidNotDeserialize));
    assert_eq!(WhitelistedCollection::try_deserialize(&data[..46]), Err(AccountDataError::DidNotDeserialize));
    let mut bad_utf8 = data.clone();
    bad_utf8[44] = 0xff;
    assert_eq!(WhitelistedCollection::try_deserialize(&bad_utf8), Err(AccountDataError::DidNotDeserialize));
}
