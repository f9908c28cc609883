//! Withdrawing a listing: the token held by the vault goes back to the
//! seller's associated token account.

use vstd::prelude::*;

use crate::associated_token::{associated_token_address, spec_associated_token_address};
use crate::errors::{refused, HandlerError, NFTMatketPlaceProgramError};
use crate::instructions::seeds::{seeds_view, seller_vault_seeds, seller_vault_signer_seeds};
use crate::instructions::settlement::{CloseAccount, Settlement, Stage, TokenTransfer};
use crate::key::Key;
use crate::state::SellerVault;

verus! {

/// The accounts of a withdrawal, as far as the withdrawal reads them.
#[derive(Clone, Copy, Debug, PartialEq, Eq)]
pub struct UnlistNFT {
    /// The listing record.
    pub seller_vault: SellerVault,
    /// The address of the listing record.
    pub seller_vault_key: Key,
    /// The token account that holds the listed NFT.
    pub seller_vault_nft_token_account: Key,
    pub seller: Key,
    /// The token account that receives the NFT back.
    pub seller_nft_token_account: Key,
}

/// The outcome of the withdrawal checks, in the order in which they are
/// made: the named seller must be the one who listed; both associated token
/// accounts for the mint, of the seller and of the vault, are derived; then
/// the seller's and the vault's token accounts must be these.
pub open spec fn unlist_outcome(ctx: UnlistNFT, mint: Seq<u8>) -> Result<(), HandlerError> {
    if ctx.seller_vault.owner@ != ctx.seller@ {
        Err(refused())
    } else {
        match (
            spec_associated_token_address(ctx.seller@, mint),
            spec_associated_token_address(ctx.seller_vault_key@, mint),
        ) {
            (Some(seller_account), Some(vault_account)) => if ctx.seller_nft_token_account@
                != seller_account {
                Err(refused())
            } else if ctx.seller_vault_nft_token_account@ != vault_account {
                Err(refused())
            } else {
                Ok(())
            },
            _ => Err(HandlerError::Aborted),
        }
    }
}

/// A withdrawal passes its checks.
pub open spec fn unlist_accepted(ctx: UnlistNFT, mint: Seq<u8>) -> bool {
    unlist_outcome(ctx, mint) is Ok
}

/// The settlement of an accepted withdrawal: no payment; one token moves from
/// the vault's token account to the seller's, signed by the vault, and the
/// outcome of that transfer is disregarded; the vault's token account is
/// closed to the seller once empty.
pub open spec fn unlist_settlement(s: Settlement, ctx: UnlistNFT, mint: Seq<u8>, bump: u8) -> bool {
    &&& s.stage == Stage::Start
    &&& s.payment is None
    &&& s.transfer.from == ctx.seller_vault_nft_token_account
    &&& s.transfer.to == ctx.seller_nft_token_account
    &&& s.transfer.authority == ctx.seller_vault_key
    &&& s.transfer.amount == 1
    &&& seeds_view(s.transfer.signer_seeds@) == seller_vault_signer_seeds(mint, ctx.seller@, bump)
    &&& s.transfer_result_ignored
    &&& s.close.account == ctx.seller_vault_nft_token_account
    &&& s.close.destination == ctx.seller
    &&& s.close.authority == ctx.seller_vault_key
    &&& seeds_view(s.close.signer_seeds@) == seller_vault_signer_seeds(mint, ctx.seller@, bump)
}

/// Checks a withdrawal and, when it is accepted, returns its settlement.
///
/// The vault signs with the seeds `[seller_vault, mint, seller, [bump]]`, the
/// seeds under which a listing creates it, while the account constraint of
/// the withdrawal (kept with the program's account declarations) expects the
/// vault under the seeds `[seller, mint, seller]`; a vault created by a
/// listing therefore does not pass that constraint.
pub fn handler(
    ctx: &UnlistNFT,
    mint_address: &Key,
    _first_creator: &Key,
    _whitelist_collection_bump: u8,
    seller_vault_bump: u8,
) -> (res: Result<Settlement, HandlerError>)
    ensures
        res is Ok <==> unlist_accepted(*ctx, mint_address@),
        res matches Err(e) ==> unlist_outcome(*ctx, mint_address@) == Err::<(), HandlerError>(e),
        res matches Ok(s) ==> unlist_settlement(s, *ctx, mint_address@, seller_vault_bump),
        res matches Ok(s) ==> s.transfer.from == ctx.seller_vault_nft_token_account
            && s.transfer.to == ctx.seller_nft_token_account && s.close.account == s.transfer.from
            && s.close.destination == ctx.seller,
{
    if !ctx.seller_vault.owner.same(&ctx.seller) {
        return Err(HandlerError::MarketPlace(NFTMatketPlaceProgramError::UndefinedError));
    }
    let expected_seller_token_account = associated_token_address(&ctx.seller, mint_address);
    let expected_seller_vault_token_account = associated_token_address(&ctx.seller_vault_key, mint_address);
    let (seller_account, vault_account) = match (expected_seller_token_account, expected_seller_vault_token_account) {
        (Some(a), Some(b)) => (a, b),
        _ => {
            return Err(HandlerError::Aborted);
        },
    };
    if !ctx.seller_nft_token_account.same(&seller_account) {
        return Err(HandlerError::MarketPlace(NFTMatketPlaceProgramError::UndefinedError));
    }
    if !ctx.seller_vault_nft_token_account.same(&vault_account) {
        return Err(HandlerError::MarketPlace(NFTMatketPlaceProgramError::UndefinedError));
    }
    Ok(withdrawal_settlement(ctx, mint_address, seller_vault_bump))
}

/// The settlement of a withdrawal that passed its checks.
pub fn withdrawal_settlement(ctx: &UnlistNFT, mint_address: &Key, seller_vault_bump: u8) -> (s: Settlement)
    ensures
        unlist_settlement(s, *ctx, mint_address@, seller_vault_bump),
        s.transfer.from == ctx.seller_vault_nft_token_account,
        s.transfer.to == ctx.seller_nft_token_account,
        s.close.account == s.transfer.from,
        s.close.destination == ctx.seller,
{
    let transfer = TokenTransfer {
        from: ctx.seller_vault_nft_token_account,
        to: ctx.seller_nft_token_account,
        authority: ctx.seller_vault_key,
        amount: 1,
        signer_seeds: seller_vault_seeds(mint_address, &ctx.seller, seller_vault_bump),
    };
    let close = CloseAccount {
        account: ctx.seller_vault_nft_token_account,
        destination: ctx.seller,
        authority: ctx.seller_vault_key,
        signer_seeds: seller_vault_seeds(mint_address, &ctx.seller, seller_vault_bump),
    };
    Settlement { payment: None, transfer, transfer_result_ignored: true, close, stage: Stage::Start }
}

} // verus!
