//! Buying a listed NFT: the buyer pays the vault's price to the seller and
//! receives the token held by the vault.

use vstd::prelude::*;

use crate::associated_token::{associated_token_address, spec_associated_token_address};
use crate::errors::{refused, HandlerError, NFTMatketPlaceProgramError};
use crate::instructions::seeds::{seeds_view, seller_vault_seeds, seller_vault_signer_seeds};
use crate::instructions::settlement::{CloseAccount, LamportTransfer, Settlement, Stage, TokenTransfer};
use crate::key::Key;
use crate::state::SellerVault;

verus! {

/// The accounts of a purchase, as far as the purchase reads them.
#[derive(Clone, Copy, Debug, PartialEq, Eq)]
pub struct BuyNFT {
    /// The listing record.
    pub seller_vault: SellerVault,
    /// The address of the listing record.
    pub seller_vault_key: Key,
    /// The token account that holds the listed NFT.
    pub seller_vault_nft_token_account: Key,
    pub seller: Key,
    pub buyer: Key,
    /// The token account that receives the NFT.
    pub buyer_nft_token_account: Key,
}

/// The outcome of the purchase checks, in the order in which they are made:
/// the named seller must be the one who listed, and both token accounts must
/// be the associated token accounts for the mint, of the vault and of the
/// buyer.
pub open spec fn buy_outcome(ctx: BuyNFT, mint: Seq<u8>) -> Result<(), HandlerError> {
    if ctx.seller_vault.owner@ != ctx.seller@ {
        Err(refused())
    } else {
        match spec_associated_token_address(ctx.seller_vault_key@, mint) {
            None => Err(HandlerError::Aborted),
            Some(vault_account) => if ctx.seller_vault_nft_token_account@ != vault_account {
                Err(refused())
            } else {
                match spec_associated_token_address(ctx.buyer@, mint) {
                    None => Err(HandlerError::Aborted),
                    Some(buyer_account) => if ctx.buyer_nft_token_account@ != buyer_account {
                        Err(refused())
                    } else {
                        Ok(())
                    },
                }
            },
        }
    }
}

/// A purchase passes its checks.
pub open spec fn buy_accepted(ctx: BuyNFT, mint: Seq<u8>) -> bool {
    buy_outcome(ctx, mint) is Ok
}

/// The settlement of an accepted purchase: the buyer pays the listed price to
/// the seller, then one token moves from the vault's token account to the
/// buyer's, signed by the vault; the vault's token account is closed to the
/// seller once empty.
pub open spec fn buy_settlement(s: Settlement, ctx: BuyNFT, mint: Seq<u8>, bump: u8) -> bool {
    &&& s.stage == Stage::Start
    &&& s.payment == Some(
        LamportTransfer { from: ctx.buyer, to: ctx.seller, lamports: ctx.seller_vault.price },
    )
    &&& s.transfer.from == ctx.seller_vault_nft_token_account
    &&& s.transfer.to == ctx.buyer_nft_token_account
    &&& s.transfer.authority == ctx.seller_vault_key
    &&& s.transfer.amount == 1
    &&& seeds_view(s.transfer.signer_seeds@) == seller_vault_signer_seeds(mint, ctx.seller@, bump)
    &&& !s.transfer_result_ignored
    &&& s.close.account == ctx.seller_vault_nft_token_account
    &&& s.close.destination == ctx.seller
    &&& s.close.authority == ctx.seller_vault_key
    &&& seeds_view(s.close.signer_seeds@) == seller_vault_signer_seeds(mint, ctx.seller@, bump)
}

/// Checks a purchase and, when it is accepted, returns its settlement.
///
/// The vault signs with the seeds `[seller_vault, mint, seller, [bump]]`, the
/// seeds under which a listing creates it, while the account constraint of
/// the purchase (kept with the program's account declarations) expects the
/// vault under the seeds `[seller, mint, seller]`; a vault created by a
/// listing therefore does not pass that constraint.
pub fn handler(
    ctx: &BuyNFT,
    mint_address: &Key,
    _first_creator: &Key,
    _whitelist_collection_bump: u8,
    seller_vault_bump: u8,
) -> (res: Result<Settlement, HandlerError>)
    ensures
        res is Ok <==> buy_accepted(*ctx, mint_address@),
        res matches Err(e) ==> buy_outcome(*ctx, mint_address@) == Err::<(), HandlerError>(e),
        res matches Ok(s) ==> buy_settlement(s, *ctx, mint_address@, seller_vault_bump),
        res matches Ok(s) ==> s.transfer.from == ctx.seller_vault_nft_token_account
            && s.transfer.to == ctx.buyer_nft_token_account && s.close.account == s.transfer.from
            && s.close.destination == ctx.seller,
{
    if !ctx.seller_vault.owner.same(&ctx.seller) {
        return Err(HandlerError::MarketPlace(NFTMatketPlaceProgramError::UndefinedError));
    }
    let expected_seller_vault_token_account = match associated_token_address(&ctx.seller_vault_key, mint_address) {
        Some(a) => a,
        None => {
            return Err(HandlerError::Aborted);
        },
    };
    if !ctx.seller_vault_nft_token_account.same(&expected_seller_vault_token_account) {
        return Err(HandlerError::MarketPlace(NFTMatketPlaceProgramError::UndefinedError));
    }
    let expected_buyer_nft_account = match associated_token_address(&ctx.buyer, mint_address) {
        Some(a) => a,
        None => {
            return Err(HandlerError::Aborted);
        },
    };
    if !ctx.buyer_nft_token_account.same(&expected_buyer_nft_account) {
        return Err(HandlerError::MarketPlace(NFTMatketPlaceProgramError::UndefinedError));
    }
    Ok(purchase_settlement(ctx, mint_address, seller_vault_bump))
}

/// The settlement of a purchase that passed its checks.
pub fn purchase_settlement(ctx: &BuyNFT, mint_address: &Key, seller_vault_bump: u8) -> (s: Settlement)
    ensures
        buy_settlement(s, *ctx, mint_address@, seller_vault_bump),
        s.transfer.from == ctx.seller_vault_nft_token_account,
        s.transfer.to == ctx.buyer_nft_token_account,
        s.close.account == s.transfer.from,
        s.close.destination == ctx.seller,
{
    let payment = LamportTransfer {
        from: ctx.buyer,
        to: ctx.seller,
        lamports: ctx.seller_vault.price,
    };
    let transfer = TokenTransfer {
        from: ctx.seller_vault_nft_token_account,
        to: ctx.buyer_nft_token_account,
        authority: ctx.seller_vault_key,
        amount: 1,
        signer_seeds: seller_vault_seeds(mint_address, &ctx.seller, seller_vault_bump),
    };
    let close = CloseAccount {
        account: ctx.seller_vault_nft_token_account,
        destination: ctx.seller,
        authority: ctx.seller_vault_key,
        signer_seeds: seller_vault_seeds(mint_address, &ctx.seller, seller_vault_bump),
    };
    Settlement {
        payment: Some(payment),
        transfer,
        transfer_result_ignored: false,
        close,
        stage: Stage::Start,
    }
}

} // verus!
