//! The calls this library makes into the Solana program stack.  Each item
//! below is trusted: its contract restates what the called code does and is
//! not proved here.

use anchor_lang::prelude::{AccountInfo, Pubkey};
use anchor_lang::solana_program::hash::hash;
use mpl_token_metadata::state::{Metadata, TokenMetadataAccount};
use vstd::prelude::*;
use vstd::utf8::{decode_utf8, valid_utf8};

use crate::instructions::seeds::seeds_view;
use crate::key::Key;

verus! {

/// The program-derived address and bump seed found for seeds under a program,
/// or `None` when the search fails.
pub uninterp spec fn spec_try_find_program_address(seeds: Seq<Seq<u8>>, program_id: Seq<u8>) -> Option<(Seq<u8>, u8)>;

/// Calls `Pubkey::try_find_program_address` of `solana_program`, the search
/// behind `Pubkey::find_program_address` (which panics where this one returns
/// `None`).  Claimed: the outcome is a function of the seeds and the program
/// id alone.
#[verifier::external_body]
pub(crate) fn try_find_program_address(seeds: &Vec<Vec<u8>>, program_id: &Key) -> (found: Option<(Key, u8)>)
    ensures
        match found {
            Some((address, bump)) => spec_try_find_program_address(seeds_view(seeds@), program_id@)
                == Some((address@, bump)),
            None => spec_try_find_program_address(seeds_view(seeds@), program_id@) is None,
        },
{
    let slices: Vec<&[u8]> = seeds.iter().map(|s| s.as_slice()).collect();
    Pubkey::try_find_program_address(&slices, &Pubkey::new_from_array(program_id.bytes)).map(
        |(address, bump)| (Key { bytes: address.to_bytes() }, bump),
    )
}

/// One creator entry of a token-metadata record.
#[derive(Clone, Copy, Debug, PartialEq, Eq)]
pub struct Creator {
    pub address: Key,
    pub verified: bool,
    pub share: u8,
}

pub open spec fn creators_view(creators: Seq<Creator>) -> Seq<(Seq<u8>, bool, u8)> {
    creators.map_values(|c: Creator| (c.address@, c.verified, c.share))
}

/// What reading a token-metadata account yields: its optional creator list,
/// or the code of the program error that refused the account.
pub uninterp spec fn spec_metadata_creators(key: Seq<u8>, owner: Seq<u8>, data: Seq<u8>) -> Result<
    Option<Seq<(Seq<u8>, bool, u8)>>,
    u64,
>;

/// A metadata read with its creators taken as byte sequences and flags.
pub open spec fn metadata_read_view(read: Result<Option<Vec<Creator>>, u64>) -> Result<
    Option<Seq<(Seq<u8>, bool, u8)>>,
    u64,
> {
    match read {
        Ok(Some(creators)) => Ok(Some(creators_view(creators@))),
        Ok(None) => Ok(None),
        Err(code) => Err(code),
    }
}

/// Calls `Metadata::from_account_info` of `mpl_token_metadata` on an account
/// with the given address, owner and data, and keeps the creators of the
/// record it reads.  The account is presented as neither signer, writable nor
/// executable and without lamports; the called code reads only its data and
/// its owner.  Claimed: the outcome is a function of the address, the owner
/// and the data alone, and a refusal is reported by the `u64` code of its
/// `ProgramError`.  Left unsaid: which data the token-metadata layout
/// accepts.
#[verifier::external_body]
pub(crate) fn metadata_creators(key: &Key, owner: &Key, data: &Vec<u8>) -> (read: Result<Option<Vec<Creator>>, u64>)
    ensures
        metadata_read_view(read) == spec_metadata_creators(key@, owner@, data@),
{
    let (key, owner) = (Pubkey::new_from_array(key.bytes), Pubkey::new_from_array(owner.bytes));
    let (mut lamports, mut bytes) = (0u64, data.clone());
    let info = AccountInfo::new(&key, false, false, &mut lamports, &mut bytes, &owner, false, 0);
    match Metadata::from_account_info(&info) {
        Ok(metadata) => Ok(metadata.data.creators.map(|creators| creators.iter().map(|c| Creator {
            address: Key { bytes: c.address.to_bytes() },
            verified: c.verified,
            share: c.share,
        }).collect())),
        Err(error) => Err(u64::from(error)),
    }
}

/// The SHA-256 digest of a byte sequence.
pub uninterp spec fn spec_sha256(data: Seq<u8>) -> Seq<u8>;

/// Calls `solana_program::hash::hash` (re-exported by `anchor_lang`), the
/// SHA-256 digest.  Claimed: the digest is a function of the data alone; its
/// 32 bytes come from the result type.
#[verifier::external_body]
pub(crate) fn sha256(data: &[u8]) -> (digest: [u8; 32])
    ensures
        digest@ == spec_sha256(data@),
{
    hash(data).to_bytes()
}

/// Calls `std::str::from_utf8`.  Claimed, as its documentation states: the
/// bytes are accepted exactly when they are valid UTF-8, and the string then
/// holds the characters they encode.
#[verifier::external_body]
pub(crate) fn str_from_utf8(bytes: &[u8]) -> (s: Option<&str>)
    ensures
        s is Some <==> valid_utf8(bytes@),
        s matches Some(text) ==> text@ == decode_utf8(bytes@),
{
    std::str::from_utf8(bytes).ok()
}

} // verus!
