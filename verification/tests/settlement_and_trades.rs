use anchor_lang::prelude::Pubkey;
use anchor_spl::associated_token::get_associated_token_address;
use nft_market_place::instructions::buy_nft::{self, purchase_settlement, BuyNFT};
use nft_market_place::instructions::settlement::{Action, Event, Stage};
use nft_market_place::instructions::unlist_nft::{self, withdrawal_settlement, UnlistNFT};
use nft_market_place::associated_token::{associated_token_address, associated_token_program_key, token_program_key};
use nft_market_place::{HandlerError, Key, NFTMatketPlaceProgramError, SellerVault};

const REFUSED: HandlerError = HandlerError::MarketPlace(NFTMatketPlaceProgramError::UndefinedError);

fn key(b: u8) -> Key {
    Key::new([b; 32])
}

fn ata(wallet: &Key, mint: &Key) -> Key {
    let a = get_associated_token_address(
        &Pubkey::new_from_array(wallet.bytes),
        &Pubkey::new_from_array(mint.bytes),
    );
    Key::new(a.to_bytes())
}

fn seeds(mint: &Key, seller: &Key, bump: u8) -> Vec<Vec<u8>> {
    vec![b"seller_vault".to_vec(), mint.bytes.to_vec(), seller.bytes.to_vec(), vec![bump]]
}

fn vault(owner: Key, mint: Key, price: u64) -> SellerVault {
    SellerVault { owner, mint_address: mint, price, first_creator: key(9) }
}

fn purchase() -> (BuyNFT, Key) {
    let mint = key(1);
    let seller = key(2);
    let buyer = key(3);
    let vault_key = key(4);
    let ctx = BuyNFT {
        seller_vault: vault(seller, mint, 1_500_000_000),
        seller_vault_key: vault_key,
        seller_vault_nft_token_account: ata(&vault_key, &mint),
        seller,
        buyer,
        buyer_nft_token_account: ata(&buyer, &mint),
    };
    (ctx, mint)
}

fn withdrawal() -> (UnlistNFT, Key) {
    let mint = key(1);
    let seller = key(2);
    let vault_key = key(4);
    let ctx = UnlistNFT {
        seller_vault: vault(seller, mint, 10),
        seller_vault_key: vault_key,
        seller_vault_nft_token_account: ata(&vault_key, &mint),
        seller,
        seller_nft_token_account: ata(&seller, &mint),
    };
    (ctx, mint)
}

#[test]
fn key_comparison_and_bytes() {
    let mut bytes = [7u8; 32];
    assert!(key(7).same(&Key::new(bytes)));
    bytes[31] = 8;
    assert!(!key(7).same(&Key::new(bytes)));
    assert_eq!(Key::new(bytes).to_vec(), bytes.to_vec());
}

#[test]
fn buy_accepts_matching_accounts() {
    let (ctx, mint) = purchase();
    let s = buy_nft::handler(&ctx, &mint, &key(9), 254, 253).unwrap();
    assert_eq!(s.stage, Stage::Start);
    let payment = s.payment.unwrap();
    assert_eq!(payment.from, ctx.buyer);
    assert_eq!(payment.to, ctx.seller);
    assert_eq!(payment.lamports, 1_500_000_000);
    assert_eq!(s.transfer.from, ctx.seller_vault_nft_token_account);
    assert_eq!(s.transfer.to, ctx.buyer_nft_token_account);
    assert_eq!(s.transfer.authority, ctx.seller_vault_key);
    assert_eq!(s.transfer.amount, 1);
    assert_eq!(s.transfer.signer_seeds, seeds(&mint, &ctx.seller, 253));
    assert!(!s.transfer_result_ignored);
    assert_eq!(s.close.account, ctx.seller_vault_nft_token_account);
    assert_eq!(s.close.destination, ctx.seller);
    assert_eq!(s.close.authority, ctx.seller_vault_key);
    assert_eq!(s.close.signer_seeds, seeds(&mint, &ctx.seller, 253));
    assert_eq!(purchase_settlement(&ctx, &mint, 253), s);
}

#[test]
fn buy_refuses_seller_who_did_not_list() {
    let (mut ctx, mint) = purchase();
    ctx.seller = key(5);
    assert_eq!(
        buy_nft::handler(&ctx, &mint, &key(9), 0, 0),
        Err(REFUSED)
    );
}

#[test]
fn buy_refuses_foreign_vault_token_account() {
    let (mut ctx, mint) = purchase();
    ctx.seller_vault_nft_token_account = ctx.seller_vault_key;
    assert_eq!(
        buy_nft::handler(&ctx, &mint, &key(9), 0, 0),
        Err(REFUSED)
    );
}

#[test]
fn buy_refuses_foreign_buyer_token_account() {
    let (mut ctx, mint) = purchase();
    ctx.buyer_nft_token_account = ctx.buyer;
    assert_eq!(
        buy_nft::handler(&ctx, &mint, &key(9), 0, 0),
        Err(REFUSED)
    );
    let (mut ctx, _) = purchase();
    ctx.buyer_nft_token_account = ata(&ctx.buyer, &key(6));
    assert!(buy_nft::handler(&ctx, &mint, &key(9), 0, 0).is_err());
}

#[test]
fn buy_settlement_full_run_closes_empty_vault() {
    let (ctx, mint) = purchase();
    let mut s = buy_nft::handler(&ctx, &mint, &key(9), 0, 255).unwrap();
    assert_eq!(s.step(Event::Proceed), Action::TransferLamports);
    assert_eq!(s.step(Event::Succeeded), Action::TransferTokens);
    assert_eq!(s.step(Event::Succeeded), Action::ReloadTokenAccount);
    assert_eq!(s.step(Event::Reloaded(0)), Action::CloseTokenAccount);
    assert_eq!(s.step(Event::Succeeded), Action::Finish);
    assert_eq!(s.stage, Stage::Finished);
    assert_eq!(s.step(Event::Failed), Action::Finish);
}

#[test]
fn buy_settlement_keeps_non_empty_vault_open() {
    let (ctx, mint) = purchase();
    let mut s = buy_nft::handler(&ctx, &mint, &key(9), 0, 255).unwrap();
    s.step(Event::Proceed);
    s.step(Event::Succeeded);
    s.step(Event::Succeeded);
    assert_eq!(s.step(Event::Reloaded(3)), Action::Finish);
    assert_eq!(s.stage, Stage::Finished);
}

#[test]
fn buy_settlement_stops_when_payment_fails() {
    let (ctx, mint) = purchase();
    let mut s = buy_nft::handler(&ctx, &mint, &key(9), 0, 255).unwrap();
    assert_eq!(s.step(Event::Proceed), Action::TransferLamports);
    assert_eq!(s.step(Event::Failed), Action::Fail);
    assert_eq!(s.stage, Stage::Failed);
    assert_eq!(s.step(Event::Succeeded), Action::Fail);
}

#[test]
fn buy_settlement_fails_on_failed_transfer_reload_or_close() {
    for failing_step in 1..4 {
        let (ctx, mint) = purchase();
        let mut s = buy_nft::handler(&ctx, &mint, &key(9), 0, 255).unwrap();
        let good = [Event::Proceed, Event::Succeeded, Event::Succeeded, Event::Reloaded(0), Event::Succeeded];
        for e in good.iter().take(failing_step + 1) {
            s.step(*e);
        }
        assert_eq!(s.step(Event::Failed), Action::Fail);
        assert_eq!(s.stage, Stage::Failed);
    }
}

#[test]
fn unlist_returns_token_to_seller() {
    let (ctx, mint) = withdrawal();
    let s = unlist_nft::handler(&ctx, &mint, &key(9), 1, 2).unwrap();
    assert!(s.payment.is_none());
    assert_eq!(s.transfer.from, ctx.seller_vault_nft_token_account);
    assert_eq!(s.transfer.to, ctx.seller_nft_token_account);
    assert_eq!(s.transfer.authority, ctx.seller_vault_key);
    assert_eq!(s.transfer.amount, 1);
    assert_eq!(s.transfer.signer_seeds, seeds(&mint, &ctx.seller, 2));
    assert!(s.transfer_result_ignored);
    assert_eq!(s.close.destination, ctx.seller);
    assert_eq!(withdrawal_settlement(&ctx, &mint, 2), s);
}

#[test]
fn unlist_refuses_other_seller_and_foreign_accounts() {
    let (mut ctx, mint) = withdrawal();
    ctx.seller = key(5);
    ctx.seller_nft_token_account = ata(&ctx.seller, &mint);
    assert_eq!(
        unlist_nft::handler(&ctx, &mint, &key(9), 0, 0),
        Err(REFUSED)
    );
    let (mut ctx, mint) = withdrawal();
    ctx.seller_nft_token_account = ctx.seller;
    assert!(unlist_nft::handler(&ctx, &mint, &key(9), 0, 0).is_err());
    let (mut ctx, mint) = withdrawal();
    ctx.seller_vault_nft_token_account = ctx.seller_vault_key;
    assert!(unlist_nft::handler(&ctx, &mint, &key(9), 0, 0).is_err());
}

#[test]
fn unlist_settlement_goes_on_after_failed_transfer() {
    let (ctx, mint) = withdrawal();
    let mut s = unlist_nft::handler(&ctx, &mint, &key(9), 0, 0).unwrap();
    assert_eq!(s.step(Event::Proceed), Action::TransferTokens);
    assert_eq!(s.step(Event::Failed), Action::ReloadTokenAccount);
    assert_eq!(s.step(Event::Failed), Action::Fail);
}

#[test]
fn unlist_settlement_full_run() {
    let (ctx, mint) = withdrawal();
    let mut s = unlist_nft::handler(&ctx, &mint, &key(9), 0, 0).unwrap();
    assert_eq!(s.step(Event::Proceed), Action::TransferTokens);
    assert_eq!(s.step(Event::Succeeded), Action::ReloadTokenAccount);
    assert_eq!(s.step(Event::Reloaded(0)), Action::CloseTokenAccount);
    assert_eq!(s.step(Event::Failed), Action::Fail);
}

#[test]
fn listed_vault_is_bought_only_through_its_lister() {
    // A vault recorded for seller 2 at price 1.5 SOL: buying through seller 2
    // pays 1.5 SOL to seller 2, buying through anyone else is refused.
    let (ctx, mint) = purchase();
    let s = buy_nft::handler(&ctx, &mint, &key(9), 0, 0).unwrap();
    assert_eq!(s.payment.unwrap().to, ctx.seller_vault.owner);
    let mut other = ctx;
    other.seller = key(8);
    assert!(buy_nft::handler(&other, &mint, &key(9), 0, 0).is_err());
}

#[test]
fn associated_token_account_derivation() {
    assert_eq!(token_program_key(), Key::new(anchor_spl::token::ID.to_bytes()));
    assert_eq!(associated_token_program_key(), Key::new(anchor_spl::associated_token::ID.to_bytes()));
    for (w, m) in [(1u8, 2u8), (2, 1), (7, 7), (200, 3)] {
        assert_eq!(associated_token_address(&key(w), &key(m)), Some(ata(&key(w), &key(m))));
    }
    assert_ne!(associated_token_address(&key(1), &key(2)), Some(key(1)));
}
