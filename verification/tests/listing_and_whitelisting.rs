use anchor_lang::prelude::{ProgramError, Pubkey};
use anchor_spl::associated_token::get_associated_token_address;
use mpl_token_metadata::error::MetadataError;
use mpl_token_metadata::state::{Creator as MetaCreator, Data, Key as MetaKey, Metadata, MAX_METADATA_LEN};
use nft_market_place::external::Creator;
use nft_market_place::instructions::list_nft::{self, check_first_creator, ListNFT, MetadataAccount};
use nft_market_place::instructions::whitelist_collection::{self, WhitelistCollection};
use nft_market_place::nft_market_place::{list_nft, whitelist_collection};
use nft_market_place::{HandlerError, Key, NFTMatketPlaceProgramError, SellerVault, WhitelistedCollection};

fn key(b: u8) -> Key {
    Key::new([b; 32])
}

fn pk(k: &Key) -> Pubkey {
    Pubkey::new_from_array(k.bytes)
}

fn metadata_bytes(mint: &Key, creators: Option<Vec<MetaCreator>>) -> Vec<u8> {
    let md = Metadata {
        key: MetaKey::MetadataV1,
        update_authority: pk(&key(40)),
        mint: pk(mint),
        data: Data {
            name: "Monke #1".to_string(),
            symbol: "MNK".to_string(),
            uri: "https://example.com/1.json".to_string(),
            seller_fee_basis_points: 500,
            creators,
        },
        primary_sale_happened: false,
        is_mutable: true,
        edition_nonce: None,
        token_standard: None,
        collection: None,
        uses: None,
        collection_details: None,
        programmable_config: None,
    };
    let mut buf = vec![0u8; MAX_METADATA_LEN];
    md.save(&mut buf).unwrap();
    buf
}

fn creator(address: &Key, verified: bool) -> MetaCreator {
    MetaCreator { address: pk(address), verified, share: 100 }
}

fn listing_with(program: Key, creators: Option<Vec<MetaCreator>>) -> (ListNFT, Key) {
    let mint = key(1);
    let seller = key(2);
    let vault_key = key(4);
    let metadata_key = Pubkey::find_program_address(
        &[b"metadata", program.bytes.as_ref(), mint.bytes.as_ref()],
        &pk(&program),
    )
    .0;
    let ctx = ListNFT {
        whitelisted_collection: WhitelistedCollection {
            first_creator: key(30),
            collection_name: "Monkes".to_string(),
        },
        seller_vault: SellerVault { owner: key(0), mint_address: key(0), price: 0, first_creator: key(0) },
        seller_vault_key: vault_key,
        seller_vault_nft_token_account: Key::new(get_associated_token_address(&pk(&vault_key), &pk(&mint)).to_bytes()),
        seller,
        seller_nft_token_account: Key::new(get_associated_token_address(&pk(&seller), &pk(&mint)).to_bytes()),
        seller_nft_token_account_mint: mint,
        metadata_account: MetadataAccount {
            key: Key::new(metadata_key.to_bytes()),
            owner: program,
            data: metadata_bytes(&mint, creators),
        },
        token_metadata_program: program,
    };
    (ctx, mint)
}

fn listing() -> (ListNFT, Key) {
    listing_with(Key::new(mpl_token_metadata::ID.to_bytes()), Some(vec![creator(&key(30), true), creator(&key(31), false)]))
}

const REFUSED: HandlerError = HandlerError::MarketPlace(NFTMatketPlaceProgramError::UndefinedError);

#[test]
fn list_records_listing_and_moves_token_into_vault() {
    let (mut ctx, mint) = listing();
    let before = ctx.clone();
    let t = list_nft::handler(&mut ctx, &mint, &key(30), 7, 2_000_000_000).unwrap();
    assert_eq!(
        ctx.seller_vault,
        SellerVault { owner: key(2), mint_address: mint, price: 2_000_000_000, first_creator: key(30) }
    );
    assert_eq!(t.from, before.seller_nft_token_account);
    assert_eq!(t.to, before.seller_vault_nft_token_account);
    assert_eq!(t.authority, key(2));
    assert_eq!(t.amount, 1);
    assert!(t.signer_seeds.is_empty());
    let mut expected = before;
    expected.seller_vault = ctx.seller_vault;
    assert_eq!(ctx, expected);
}

#[test]
fn list_nft_instruction_forwards_to_handler() {
    let (mut ctx, mint) = listing();
    assert!(list_nft(&mut ctx, mint, key(30), 0, 5).is_ok());
    assert_eq!(ctx.seller_vault.price, 5);
    let (mut ctx, mint) = listing();
    ctx.token_metadata_program = key(50);
    let before = ctx.clone();
    assert_eq!(list_nft(&mut ctx, mint, key(30), 0, 5), Err(REFUSED));
    assert_eq!(ctx, before);
}

#[test]
fn list_refuses_metadata_not_owned_by_metadata_program() {
    let (mut ctx, mint) = listing();
    ctx.metadata_account.owner = key(51);
    let before = ctx.clone();
    assert_eq!(list_nft::handler(&mut ctx, &mint, &key(30), 0, 1), Err(REFUSED));
    assert_eq!(ctx, before);
}

#[test]
fn list_refuses_metadata_at_another_address() {
    let (mut ctx, mint) = listing();
    ctx.metadata_account.key = ctx.seller_nft_token_account_mint;
    assert_eq!(list_nft::handler(&mut ctx, &mint, &key(30), 0, 1), Err(REFUSED));
    let (mut ctx, mint) = listing();
    ctx.seller_nft_token_account_mint = key(77);
    assert_eq!(list_nft::handler(&mut ctx, &mint, &key(30), 0, 1), Err(REFUSED));
}

#[test]
fn list_refuses_empty_metadata() {
    let (mut ctx, mint) = listing();
    ctx.metadata_account.data = Vec::new();
    assert_eq!(list_nft::handler(&mut ctx, &mint, &key(30), 0, 1), Err(REFUSED));
}

#[test]
fn list_reports_unreadable_metadata() {
    let (mut ctx, mint) = listing();
    ctx.metadata_account.data[0] = 1;
    let code = u64::from(ProgramError::from(MetadataError::DataTypeMismatch));
    assert_eq!(list_nft::handler(&mut ctx, &mint, &key(30), 0, 1), Err(HandlerError::Metadata(code)));
}

#[test]
fn list_reports_metadata_of_another_program() {
    let (mut ctx, mint) = listing_with(key(60), Some(vec![creator(&key(30), true)]));
    let code = u64::from(ProgramError::from(MetadataError::IncorrectOwner));
    assert_eq!(list_nft::handler(&mut ctx, &mint, &key(30), 0, 1), Err(HandlerError::Metadata(code)));
}

#[test]
fn list_aborts_without_creators() {
    let (mut ctx, mint) = listing_with(Key::new(mpl_token_metadata::ID.to_bytes()), None);
    assert_eq!(list_nft::handler(&mut ctx, &mint, &key(30), 0, 1), Err(HandlerError::Aborted));
    let (mut ctx, mint) = listing_with(Key::new(mpl_token_metadata::ID.to_bytes()), Some(vec![]));
    assert_eq!(list_nft::handler(&mut ctx, &mint, &key(30), 0, 1), Err(HandlerError::Aborted));
}

#[test]
fn list_refuses_unverified_or_foreign_first_creator() {
    let program = Key::new(mpl_token_metadata::ID.to_bytes());
    let (mut ctx, mint) = listing_with(program, Some(vec![creator(&key(30), false)]));
    assert_eq!(list_nft::handler(&mut ctx, &mint, &key(30), 0, 1), Err(REFUSED));
    let (mut ctx, mint) = listing_with(program, Some(vec![creator(&key(31), true), creator(&key(30), true)]));
    assert_eq!(list_nft::handler(&mut ctx, &mint, &key(30), 0, 1), Err(REFUSED));
}

#[test]
fn list_refuses_foreign_vault_token_account() {
    let (mut ctx, mint) = listing();
    ctx.seller_vault_nft_token_account = ctx.seller_vault_key;
    assert_eq!(list_nft::handler(&mut ctx, &mint, &key(30), 0, 1), Err(REFUSED));
    let (mut ctx, _) = listing();
    assert_eq!(list_nft::handler(&mut ctx, &key(78), &key(30), 0, 1), Err(REFUSED));
}

#[test]
fn first_creator_checks_on_given_reads() {
    let good = Creator { address: key(30), verified: true, share: 100 };
    assert_eq!(check_first_creator(&Ok(Some(vec![good])), &key(30)), Ok(()));
    assert_eq!(check_first_creator(&Ok(Some(vec![good])), &key(31)), Err(REFUSED));
    let unverified = Creator { verified: false, ..good };
    assert_eq!(check_first_creator(&Ok(Some(vec![unverified, good])), &key(30)), Err(REFUSED));
    assert_eq!(check_first_creator(&Ok(Some(vec![])), &key(30)), Err(HandlerError::Aborted));
    assert_eq!(check_first_creator(&Ok(None), &key(30)), Err(HandlerError::Aborted));
    assert_eq!(check_first_creator(&Err(9), &key(30)), Err(HandlerError::Metadata(9)));
}

#[test]
fn whitelisting_records_creator_and_name() {
    let mut ctx = WhitelistCollection {
        whitelisted_collection: WhitelistedCollection { first_creator: key(0), collection_name: String::new() },
        payer: key(3),
    };
    assert_eq!(whitelist_collection::handler(&mut ctx, key(30), "Monkes".to_string()), Ok(()));
    assert_eq!(ctx.whitelisted_collection.first_creator, key(30));
    assert_eq!(ctx.whitelisted_collection.collection_name, "Monkes");
    assert_eq!(ctx.payer, key(3));
    assert_eq!(whitelist_collection(&mut ctx, key(31), "Degens".to_string()), Ok(()));
    assert_eq!(ctx.whitelisted_collection.first_creator, key(31));
    assert_eq!(ctx.whitelisted_collection.collection_name, "Degens");
}
