use vstd::bytes::{
    spec_u32_from_le_bytes, spec_u32_to_le_bytes, u32_from_le_bytes, u32_to_le_bytes,
};
use vstd::prelude::*;
use vstd::slice::slice_subrange;
use vstd::string::StringSliceAdditionalSpecFns;
use vstd::utf8::{decode_utf8, encode_utf8, valid_utf8};

use crate::external::str_from_utf8;
use crate::key::Key;
use crate::state::account_data::{
    account_discriminator, append_bytes, discriminator_of, read_key, starts_with, AccountDataError,
};

verus! {

/// A collection accepted by the marketplace, identified by its first creator.
#[derive(Clone, Debug, PartialEq, Eq)]
pub struct WhitelistedCollection {
    pub first_creator: Key,
    pub collection_name: String,
}

/// The length of the name that account data announces after the address.
pub open spec fn announced_name_len(data: Seq<u8>) -> int {
    spec_u32_from_le_bytes(data.subrange(40, 44)) as int
}

/// The bytes of the name in account data.
pub open spec fn stored_name(data: Seq<u8>) -> Seq<u8> {
    data.subrange(44, 44 + announced_name_len(data))
}

impl WhitelistedCollection {
    /// Account space: discriminator, first creator, and a name of at most
    /// 32 bytes behind its 4-byte length prefix.
    pub const LEN: usize = 8 + 32 + 4 + 32;

    /// The discriminator of collection records.
    pub open spec fn spec_discriminator() -> Seq<u8> {
        discriminator_of("account:WhitelistedCollection".spec_bytes())
    }

    /// The UTF-8 bytes of the name.
    pub open spec fn name_bytes(self) -> Seq<u8> {
        encode_utf8(self.collection_name@)
    }

    /// The account data of a collection record.
    pub open spec fn spec_serialized(self) -> Seq<u8> {
        Self::spec_discriminator() + self.first_creator@ + spec_u32_to_le_bytes(
            self.name_bytes().len() as u32,
        ) + self.name_bytes()
    }

    /// Whether account data that carries the right discriminator holds a
    /// whole collection record: an address, a length, that many bytes, and
    /// these bytes valid UTF-8.
    pub open spec fn readable(data: Seq<u8>) -> bool {
        &&& data.len() >= 44
        &&& 44 + announced_name_len(data) <= data.len()
        &&& valid_utf8(stored_name(data))
    }

    pub fn discriminator() -> (d: Vec<u8>)
        ensures
            d@ == Self::spec_discriminator(),
    {
        account_discriminator("account:WhitelistedCollection")
    }

    /// Writes the account data of the record; a name whose length does not
    /// fit the 4-byte prefix cannot be written.
    pub fn try_serialize(&self) -> (res: Result<Vec<u8>, AccountDataError>)
        ensures
            self.name_bytes().len() > u32::MAX ==> res == Err::<Vec<u8>, AccountDataError>(
                AccountDataError::DidNotSerialize,
            ),
            self.name_bytes().len() <= u32::MAX ==> (res matches Ok(data) && data@
                == self.spec_serialized()),
    {
        let name = self.collection_name.as_str().as_bytes();
        if name.len() > 0xffff_ffffusize {
            return Err(AccountDataError::DidNotSerialize);
        }
        let mut data = Self::discriminator();
        append_bytes(&mut data, &self.first_creator.bytes);
        let len = u32_to_le_bytes(name.len() as u32);
        append_bytes(&mut data, len.as_slice());
        append_bytes(&mut data, name);
        Ok(data)
    }

    /// The data of a collection account of `LEN` bytes holding the record:
    /// the record followed by zero bytes.  A record longer than the account
    /// cannot be stored.
    pub fn store(&self) -> (res: Result<Vec<u8>, AccountDataError>)
        ensures
            res is Ok <==> self.name_bytes().len() <= 32,
            res matches Err(e) ==> e == AccountDataError::DidNotSerialize,
            res matches Ok(data) ==> {
                &&& data@.len() == Self::LEN
                &&& data@.take(44 + self.name_bytes().len() as int) == self.spec_serialized()
                &&& forall|i: int| 44 + self.name_bytes().len() <= i < Self::LEN ==> data@[i] == 0
            },
    {
        let name_len = self.collection_name.as_str().as_bytes().len();
        if name_len > 32 {
            return Err(AccountDataError::DidNotSerialize);
        }
        let mut data = match self.try_serialize() {
            Ok(data) => data,
            Err(e) => {
                return Err(e);
            },
        };
        proof {
            vstd::bytes::lemma_auto_spec_u32_to_from_le_bytes();
            assert(spec_u32_to_le_bytes(self.name_bytes().len() as u32).len() == 4);
            assert(data@.len() == 44 + name_len);
        }
        let ghost serialized = data@;
        while data.len() < Self::LEN
            invariant
                serialized == self.spec_serialized(),
                serialized.len() == 44 + name_len,
                44 + name_len <= data@.len() <= Self::LEN,
                data@.take(44 + name_len) == serialized,
                forall|i: int| 44 + name_len <= i < data@.len() ==> data@[i] == 0,
            decreases Self::LEN - data@.len(),
        {
            data.push(0);
            assert(data@.take(44 + name_len) =~= serialized);
        }
        Ok(data)
    }

    /// Reads a record from account data; bytes after the record are ignored.
    pub fn try_deserialize(data: &[u8]) -> (res: Result<WhitelistedCollection, AccountDataError>)
        ensures
            data@.len() < 8 ==> res == Err::<WhitelistedCollection, AccountDataError>(
                AccountDataError::DiscriminatorNotFound,
            ),
            data@.len() >= 8 && data@.take(8) != Self::spec_discriminator() ==> res == Err::<
                WhitelistedCollection,
                AccountDataError,
            >(AccountDataError::DiscriminatorMismatch),
            data@.len() >= 8 && data@.take(8) == Self::spec_discriminator() && !Self::readable(data@)
                ==> res == Err::<WhitelistedCollection, AccountDataError>(
                AccountDataError::DidNotDeserialize,
            ),
            data@.len() >= 8 && data@.take(8) == Self::spec_discriminator() && Self::readable(data@)
                ==> (res matches Ok(c) && c.spec_serialized() == data@.take(
                44 + announced_name_len(data@),
            )),
    {
        let d = Self::discriminator();
        if data.len() < 8 {
            return Err(AccountDataError::DiscriminatorNotFound);
        }
        if !starts_with(data, &d) {
            return Err(AccountDataError::DiscriminatorMismatch);
        }
        if data.len() < 44 {
            return Err(AccountDataError::DidNotDeserialize);
        }
        let first_creator = read_key(data, 8);
        let len_bytes = slice_subrange(data, 40, 44);
        let len = u32_from_le_bytes(len_bytes) as usize;
        if len > data.len() - 44 {
            return Err(AccountDataError::DidNotDeserialize);
        }
        let name_bytes = slice_subrange(data, 44, 44 + len);
        match str_from_utf8(name_bytes) {
            None => Err(AccountDataError::DidNotDeserialize),
            Some(name) => {
                let c = WhitelistedCollection { first_creator, collection_name: name.to_owned() };
                proof {
                    vstd::bytes::lemma_auto_spec_u32_to_from_le_bytes();
                    vstd::utf8::decode_utf8_encode_utf8(name_bytes@);
                    assert(c.name_bytes() == name_bytes@);
                    assert(spec_u32_to_le_bytes(len as u32) == len_bytes@);
                    assert(c.spec_serialized() =~= data@.take(44 + announced_name_len(data@)));
                }
                Ok(c)
            },
        }
    }
}

} // verus!
