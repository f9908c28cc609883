//! The instructions the program serves.

use vstd::prelude::*;

use crate::errors::{HandlerError, NFTMatketPlaceProgramError};
use crate::instructions::list_nft::{self, list_outcome, listed_vault, ListNFT};
use crate::instructions::settlement::TokenTransfer;
use crate::instructions::whitelist_collection::{self, WhitelistCollection};
use crate::key::Key;

verus! {

/// Whitelists a collection by its first creator.  The record does not fit
/// its account, and the instruction fails when writing it back, for a name of
/// more than 32 bytes (see `WhitelistedCollection::store`).
pub fn whitelist_collection(
    ctx: &mut WhitelistCollection,
    first_creator: Key,
    collection_name: String,
) -> (res: Result<(), NFTMatketPlaceProgramError>)
    ensures
        res is Ok,
        final(ctx).whitelisted_collection.first_creator == first_creator,
        final(ctx).whitelisted_collection.collection_name@ == collection_name@,
        final(ctx).payer == old(ctx).payer,
{
    whitelist_collection::handler(ctx, first_creator, collection_name)
}

/// Lists an NFT of a whitelisted collection at a price.
pub fn list_nft(
    ctx: &mut ListNFT,
    mint_address: Key,
    first_creator: Key,
    whitelist_collection_bump: u8,
    price: u64,
) -> (res: Result<TokenTransfer, HandlerError>)
    ensures
        res is Ok <==> list_outcome(*old(ctx), mint_address@) is Ok,
        res matches Err(e) ==> list_outcome(*old(ctx), mint_address@) == Err::<(), HandlerError>(e)
            && *final(ctx) == *old(ctx),
        res matches Ok(t) ==> {
            &&& *final(ctx) == (ListNFT {
                seller_vault: listed_vault(*old(ctx), mint_address, first_creator, price),
                ..*old(ctx)
            })
            &&& t.from == old(ctx).seller_nft_token_account
            &&& t.to == old(ctx).seller_vault_nft_token_account
            &&& t.authority == old(ctx).seller
            &&& t.amount == 1
            &&& t.signer_seeds@.len() == 0
        },
        res is Ok ==> {
            &&& final(ctx).seller_vault.owner == old(ctx).seller
            &&& final(ctx).seller_vault.mint_address == mint_address
            &&& final(ctx).seller_vault.price == price
            &&& final(ctx).seller_vault.first_creator == first_creator
        },
{
    list_nft::handler(ctx, &mint_address, &first_creator, whitelist_collection_bump, price)
}

} // verus!
