//! Listing an NFT: the seller's token must carry verified token metadata
//! whose first creator is the whitelisted collection's; the listing is
//! recorded in the seller vault and the token moves into the vault's
//! associated token account.

use vstd::prelude::*;

use crate::associated_token::{associated_token_address, spec_associated_token_address};
use crate::errors::{refused, HandlerError, NFTMatketPlaceProgramError};
use crate::external::{
    metadata_creators, metadata_read_view, spec_metadata_creators, spec_try_find_program_address,
    try_find_program_address, Creator,
};
use crate::instructions::seeds::{metadata_seeds, token_metadata_seeds};
use crate::instructions::settlement::TokenTransfer;
use crate::key::Key;
use crate::state::{SellerVault, WhitelistedCollection};

verus! {

/// An account as the listing reads it: address, owning program and data.
#[derive(Clone, Debug, PartialEq, Eq)]
pub struct MetadataAccount {
    pub key: Key,
    pub owner: Key,
    pub data: Vec<u8>,
}

/// The accounts of a listing, as far as the listing reads and writes them.
#[derive(Clone, Debug, PartialEq, Eq)]
pub struct ListNFT {
    /// The collection the NFT must belong to.
    pub whitelisted_collection: WhitelistedCollection,
    /// The listing record, written by the listing.
    pub seller_vault: SellerVault,
    /// The address of the listing record.
    pub seller_vault_key: Key,
    /// The token account that receives the NFT.
    pub seller_vault_nft_token_account: Key,
    pub seller: Key,
    /// The token account that holds the NFT.
    pub seller_nft_token_account: Key,
    /// The mint of that token account.
    pub seller_nft_token_account_mint: Key,
    /// The token-metadata record of the NFT.
    pub metadata_account: MetadataAccount,
    /// The token-metadata program.
    pub token_metadata_program: Key,
}

/// The checks on the creators that a metadata read gave: the first creator
/// must be verified and be the whitelisted first creator.
pub open spec fn creator_outcome(
    read: Result<Option<Seq<(Seq<u8>, bool, u8)>>, u64>,
    whitelisted_first_creator: Seq<u8>,
) -> Result<(), HandlerError> {
    match read {
        Err(code) => Err(HandlerError::Metadata(code)),
        Ok(None) => Err(HandlerError::Aborted),
        Ok(Some(creators)) => if creators.len() == 0 {
            Err(HandlerError::Aborted)
        } else if !creators[0].1 {
            Err(refused())
        } else if creators[0].0 != whitelisted_first_creator {
            Err(refused())
        } else {
            Ok(())
        },
    }
}

/// The outcome of the listing checks, in the order in which they are made.
pub open spec fn list_outcome(ctx: ListNFT, mint: Seq<u8>) -> Result<(), HandlerError> {
    let metadata = ctx.metadata_account;
    let program = ctx.token_metadata_program@;
    if metadata.owner@ != program {
        Err(refused())
    } else {
        match spec_try_find_program_address(
            metadata_seeds(program, ctx.seller_nft_token_account_mint@),
            program,
        ) {
            None => Err(HandlerError::Aborted),
            Some((address, _bump)) => if address != metadata.key@ {
                Err(refused())
            } else if metadata.data@.len() == 0 {
                Err(refused())
            } else {
                match creator_outcome(
                    spec_metadata_creators(metadata.key@, metadata.owner@, metadata.data@),
                    ctx.whitelisted_collection.first_creator@,
                ) {
                    Err(e) => Err(e),
                    Ok(()) => match spec_associated_token_address(ctx.seller_vault_key@, mint) {
                        None => Err(HandlerError::Aborted),
                        Some(vault_account) => if ctx.seller_vault_nft_token_account@
                            != vault_account {
                            Err(refused())
                        } else {
                            Ok(())
                        },
                    },
                }
            },
        }
    }
}

/// The listing record that a listing writes.
pub open spec fn listed_vault(ctx: ListNFT, mint: Key, first_creator: Key, price: u64) -> SellerVault {
    SellerVault { owner: ctx.seller, mint_address: mint, price: price, first_creator: first_creator }
}

/// Applies the creator checks to what the metadata read gave.
pub fn check_first_creator(
    read: &Result<Option<Vec<Creator>>, u64>,
    whitelisted_first_creator: &Key,
) -> (res: Result<(), HandlerError>)
    ensures
        res == creator_outcome(metadata_read_view(*read), whitelisted_first_creator@),
        res is Ok <==> match *read {
            Ok(Some(creators)) => creators@.len() > 0 && creators@[0].verified
                && creators@[0].address@ == whitelisted_first_creator@,
            _ => false,
        },
{
    match read {
        Err(code) => Err(HandlerError::Metadata(*code)),
        Ok(None) => Err(HandlerError::Aborted),
        Ok(Some(creators)) => {
            if creators.len() == 0 {
                return Err(HandlerError::Aborted);
            }
            let first = &creators[0];
            if !first.verified {
                Err(HandlerError::MarketPlace(NFTMatketPlaceProgramError::UndefinedError))
            } else if !first.address.same(whitelisted_first_creator) {
                Err(HandlerError::MarketPlace(NFTMatketPlaceProgramError::UndefinedError))
            } else {
                Ok(())
            }
        },
    }
}

/// Checks a listing; when it is accepted, records it in the seller vault and
/// returns the transfer of the NFT into the vault's token account, signed by
/// the seller.  A refused listing leaves the accounts as they were.
pub fn handler(
    ctx: &mut ListNFT,
    mint_address: &Key,
    first_creator: &Key,
    _whitelist_collection_bump: u8,
    price: u64,
) -> (res: Result<TokenTransfer, HandlerError>)
    ensures
        res is Ok <==> list_outcome(*old(ctx), mint_address@) is Ok,
        res matches Err(e) ==> list_outcome(*old(ctx), mint_address@) == Err::<(), HandlerError>(e)
            && *final(ctx) == *old(ctx),
        res matches Ok(t) ==> {
            &&& *final(ctx) == (ListNFT {
                seller_vault: listed_vault(*old(ctx), *mint_address, *first_creator, price),
                ..*old(ctx)
            })
            &&& t.from == old(ctx).seller_nft_token_account
            &&& t.to == old(ctx).seller_vault_nft_token_account
            &&& t.authority == old(ctx).seller
            &&& t.amount == 1
            &&& t.signer_seeds@.len() == 0
        },
        res is Ok ==> {
            &&& final(ctx).seller_vault.owner == old(ctx).seller
            &&& final(ctx).seller_vault.mint_address == *mint_address
            &&& final(ctx).seller_vault.price == price
            &&& final(ctx).seller_vault.first_creator == *first_creator
            &&& final(ctx).seller_vault_nft_token_account == old(ctx).seller_vault_nft_token_account
            &&& final(ctx).seller == old(ctx).seller
        },
{
    if !ctx.metadata_account.owner.same(&ctx.token_metadata_program) {
        return Err(HandlerError::MarketPlace(NFTMatketPlaceProgramError::UndefinedError));
    }
    let metadata_seed = token_metadata_seeds(&ctx.token_metadata_program, &ctx.seller_nft_token_account_mint);
    let expected_metadata_key = match try_find_program_address(&metadata_seed, &ctx.token_metadata_program) {
        Some((address, _bump)) => address,
        None => {
            return Err(HandlerError::Aborted);
        },
    };
    if !ctx.metadata_account.key.same(&expected_metadata_key) {
        return Err(HandlerError::MarketPlace(NFTMatketPlaceProgramError::UndefinedError));
    }
    if ctx.metadata_account.data.len() == 0 {
        return Err(HandlerError::MarketPlace(NFTMatketPlaceProgramError::UndefinedError));
    }
    let read = metadata_creators(
        &ctx.metadata_account.key,
        &ctx.metadata_account.owner,
        &ctx.metadata_account.data,
    );
    match check_first_creator(&read, &ctx.whitelisted_collection.first_creator) {
        Err(e) => {
            return Err(e);
        },
        Ok(()) => {},
    }
    let expected_seller_vault_token_account = match associated_token_address(&ctx.seller_vault_key, mint_address) {
        Some(a) => a,
        None => {
            return Err(HandlerError::Aborted);
        },
    };
    if !ctx.seller_vault_nft_token_account.same(&expected_seller_vault_token_account) {
        return Err(HandlerError::MarketPlace(NFTMatketPlaceProgramError::UndefinedError));
    }
    ctx.seller_vault.owner = ctx.seller;
    ctx.seller_vault.mint_address = *mint_address;
    ctx.seller_vault.price = price;
    ctx.seller_vault.first_creator = *first_creator;
    Ok(TokenTransfer {
        from: ctx.seller_nft_token_account,
        to: ctx.seller_vault_nft_token_account,
        authority: ctx.seller,
        amount: 1,
        signer_seeds: Vec::new(),
    })
}

} // verus!
