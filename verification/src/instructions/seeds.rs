use vstd::prelude::*;

use crate::key::Key;

verus! {

/// A list of seeds as byte sequences.
pub open spec fn seeds_view(seeds: Seq<Vec<u8>>) -> Seq<Seq<u8>> {
    seeds.map_values(|seed: Vec<u8>| seed@)
}

/// The tag that opens the seeds of a seller vault: the ASCII bytes of
/// `seller_vault`.
pub open spec fn seller_vault_tag() -> Seq<u8> {
    seq![115u8, 101, 108, 108, 101, 114, 95, 118, 97, 117, 108, 116]
}

/// The tag that opens the seeds of a token-metadata record: the ASCII bytes
/// of `metadata`.
pub open spec fn metadata_tag() -> Seq<u8> {
    seq![109u8, 101, 116, 97, 100, 97, 116, 97]
}

/// The seeds with which the seller vault signs for its token account.
pub open spec fn seller_vault_signer_seeds(mint: Seq<u8>, seller: Seq<u8>, bump: u8) -> Seq<Seq<u8>> {
    seq![seller_vault_tag(), mint, seller, seq![bump]]
}

/// The seeds of the token-metadata record of a mint.
pub open spec fn metadata_seeds(metadata_program: Seq<u8>, mint: Seq<u8>) -> Seq<Seq<u8>> {
    seq![metadata_tag(), metadata_program, mint]
}

/// Builds the signer seeds `[b"seller_vault", mint, seller, [bump]]`.
pub fn seller_vault_seeds(mint: &Key, seller: &Key, bump: u8) -> (seeds: Vec<Vec<u8>>)
    ensures
        seeds_view(seeds@) == seller_vault_signer_seeds(mint@, seller@, bump),
{
    let tag: Vec<u8> = vec![115u8, 101, 108, 108, 101, 114, 95, 118, 97, 117, 108, 116];
    let bump_seed: Vec<u8> = vec![bump];
    assert(tag@ =~= seller_vault_tag());
    assert(bump_seed@ =~= seq![bump]);
    let mut seeds: Vec<Vec<u8>> = Vec::new();
    seeds.push(tag);
    seeds.push(mint.to_vec());
    seeds.push(seller.to_vec());
    seeds.push(bump_seed);
    assert(seeds_view(seeds@) =~= seller_vault_signer_seeds(mint@, seller@, bump));
    seeds
}

/// Builds the seeds `[b"metadata", metadata_program, mint]`.
pub fn token_metadata_seeds(metadata_program: &Key, mint: &Key) -> (seeds: Vec<Vec<u8>>)
    ensures
        seeds_view(seeds@) == metadata_seeds(metadata_program@, mint@),
{
    let mut seeds: Vec<Vec<u8>> = Vec::new();
    seeds.push(vec![109u8, 101, 116, 97, 100, 97, 116, 97]);
    seeds.push(metadata_program.to_vec());
    seeds.push(mint.to_vec());
    assert(seeds_view(seeds@) =~= metadata_seeds(metadata_program@, mint@));
    seeds
}

} // verus!
