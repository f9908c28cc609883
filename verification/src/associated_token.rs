//! Associated token accounts: the token account of a wallet for a mint is the
//! address derived from the seeds `[wallet, token program, mint]` under the
//! associated-token-account program.

use vstd::prelude::*;

use crate::external::{spec_try_find_program_address, try_find_program_address};
use crate::instructions::seeds::seeds_view;
use crate::key::Key;

verus! {

/// The address of the token program (`TokenkegQfeZyiNwAJbNbGKPFXCWuBvf9Ss623VQ5DA`).
pub open spec fn token_program_id() -> Seq<u8> {
    seq![
        6u8, 221, 246, 225, 215, 101, 161, 147, 217, 203, 225, 70, 206, 235, 121, 172, 28, 180, 133,
        237, 95, 91, 55, 145, 58, 140, 245, 133, 126, 255, 0, 169,
    ]
}

/// The address of the associated-token-account program
/// (`ATokenGPvbdGVxr1b2hvZbsiqW5xWH25efTNsLJA8knL`).
pub open spec fn associated_token_program_id() -> Seq<u8> {
    seq![
        140u8, 151, 37, 143, 78, 36, 137, 241, 187, 61, 16, 41, 20, 142, 13, 131, 11, 90, 19, 153,
        218, 255, 16, 132, 4, 142, 123, 216, 219, 233, 248, 89,
    ]
}

/// The seeds of the associated token account of a wallet for a mint.
pub open spec fn associated_token_seeds(wallet: Seq<u8>, mint: Seq<u8>) -> Seq<Seq<u8>> {
    seq![wallet, token_program_id(), mint]
}

/// The associated token account of a wallet for a mint, or `None` when no
/// address can be derived (where the derivation panics).
pub open spec fn spec_associated_token_address(wallet: Seq<u8>, mint: Seq<u8>) -> Option<Seq<u8>> {
    match spec_try_find_program_address(
        associated_token_seeds(wallet, mint),
        associated_token_program_id(),
    ) {
        Some((address, _bump)) => Some(address),
        None => None,
    }
}

pub fn token_program_key() -> (k: Key)
    ensures
        k@ == token_program_id(),
{
    let k = Key::new(
        [
            6u8, 221, 246, 225, 215, 101, 161, 147, 217, 203, 225, 70, 206, 235, 121, 172, 28, 180,
            133, 237, 95, 91, 55, 145, 58, 140, 245, 133, 126, 255, 0, 169,
        ],
    );
    assert(k@ =~= token_program_id());
    k
}

pub fn associated_token_program_key() -> (k: Key)
    ensures
        k@ == associated_token_program_id(),
{
    let k = Key::new(
        [
            140u8, 151, 37, 143, 78, 36, 137, 241, 187, 61, 16, 41, 20, 142, 13, 131, 11, 90, 19, 153,
            218, 255, 16, 132, 4, 142, 123, 216, 219, 233, 248, 89,
        ],
    );
    assert(k@ =~= associated_token_program_id());
    k
}

/// Derives the associated token account of a wallet for a mint.
pub fn associated_token_address(wallet: &Key, mint: &Key) -> (address: Option<Key>)
    ensures
        match address {
            Some(a) => spec_associated_token_address(wallet@, mint@) == Some(a@),
            None => spec_associated_token_address(wallet@, mint@) is None,
        },
{
    let mut seeds: Vec<Vec<u8>> = Vec::new();
    seeds.push(wallet.to_vec());
    seeds.push(token_program_key().to_vec());
    seeds.push(mint.to_vec());
    assert(seeds_view(seeds@) =~= associated_token_seeds(wallet@, mint@));
    match try_find_program_address(&seeds, &associated_token_program_key()) {
        Some((a, _bump)) => Some(a),
        None => None,
    }
}

} // verus!
