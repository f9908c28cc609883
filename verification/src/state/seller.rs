use vstd::bytes::{spec_u64_to_le_bytes, u64_from_le_bytes, u64_to_le_bytes};
use vstd::prelude::*;
use vstd::slice::slice_subrange;
use vstd::string::StringSliceAdditionalSpecFns;

use crate::key::Key;
use crate::state::account_data::{
    account_discriminator, append_bytes, discriminator_of, read_key, starts_with, AccountDataError,
};

verus! {

/// The record of one listing: who listed which mint, at what price, and the
/// first creator named when listing.
#[derive(Clone, Copy, Debug, PartialEq, Eq)]
pub struct SellerVault {
    pub owner: Key,
    pub mint_address: Key,
    pub price: u64,
    pub first_creator: Key,
}

impl SellerVault {
    /// Account space: discriminator, owner, mint, price, first creator.
    pub const LEN: usize = 8 + 32 + 32 + 8 + 32;

    /// The discriminator of listing records.
    pub open spec fn spec_discriminator() -> Seq<u8> {
        discriminator_of("account:SellerVault".spec_bytes())
    }

    /// The account data of a listing record.
    pub open spec fn spec_serialized(self) -> Seq<u8> {
        Self::spec_discriminator() + self.owner@ + self.mint_address@ + spec_u64_to_le_bytes(self.price)
            + self.first_creator@
    }

    pub fn discriminator() -> (d: Vec<u8>)
        ensures
            d@ == Self::spec_discriminator(),
    {
        account_discriminator("account:SellerVault")
    }

    /// Writes the account data of the record.
    pub fn try_serialize(&self) -> (data: Vec<u8>)
        ensures
            data@ == self.spec_serialized(),
    {
        let mut data = Self::discriminator();
        append_bytes(&mut data, &self.owner.bytes);
        append_bytes(&mut data, &self.mint_address.bytes);
        let price = u64_to_le_bytes(self.price);
        append_bytes(&mut data, price.as_slice());
        append_bytes(&mut data, &self.first_creator.bytes);
        data
    }

    /// Reads a record from account data; bytes after the record are ignored.
    pub fn try_deserialize(data: &[u8]) -> (res: Result<SellerVault, AccountDataError>)
        ensures
            data@.len() < 8 ==> res == Err::<SellerVault, AccountDataError>(
                AccountDataError::DiscriminatorNotFound,
            ),
            data@.len() >= 8 && data@.take(8) != Self::spec_discriminator() ==> res == Err::<
                SellerVault,
                AccountDataError,
            >(AccountDataError::DiscriminatorMismatch),
            data@.len() >= 8 && data@.take(8) == Self::spec_discriminator() && data@.len()
                < Self::LEN ==> res == Err::<SellerVault, AccountDataError>(
                AccountDataError::DidNotDeserialize,
            ),
            data@.len() >= Self::LEN && data@.take(8) == Self::spec_discriminator() ==> (
            res matches Ok(v) && v.spec_serialized() == data@.take(Self::LEN as int)),
    {
        let d = Self::discriminator();
        if data.len() < 8 {
            return Err(AccountDataError::DiscriminatorNotFound);
        }
        if !starts_with(data, &d) {
            return Err(AccountDataError::DiscriminatorMismatch);
        }
        if data.len() < Self::LEN {
            return Err(AccountDataError::DidNotDeserialize);
        }
        let owner = read_key(data, 8);
        let mint_address = read_key(data, 40);
        let price_bytes = slice_subrange(data, 72, 80);
        let price = u64_from_le_bytes(price_bytes);
        let first_creator = read_key(data, 80);
        let v = SellerVault { owner, mint_address, price, first_creator };
        proof {
            vstd::bytes::lemma_auto_spec_u64_to_from_le_bytes();
            assert(spec_u64_to_le_bytes(price) == price_bytes@);
            assert(v.spec_serialized() =~= data@.take(Self::LEN as int));
        }
        Ok(v)
    }
}

} // verus!
