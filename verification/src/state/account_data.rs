//! Framing of the program's accounts: an 8-byte discriminator, derived from
//! the account type's name, followed by the fields in declaration order
//! (addresses as 32 bytes, integers little-endian, strings as a 4-byte
//! length and their UTF-8 bytes).

use vstd::prelude::*;

use vstd::string::StringSliceAdditionalSpecFns;

use crate::external::{sha256, spec_sha256};
use crate::key::Key;

verus! {

/// Why account data cannot be read or written.
#[derive(Clone, Copy, Debug, PartialEq, Eq)]
pub enum AccountDataError {
    /// The data is shorter than a discriminator.
    DiscriminatorNotFound,
    /// The data starts with another account type's discriminator.
    DiscriminatorMismatch,
    /// The fields after the discriminator are cut short or malformed.
    DidNotDeserialize,
    /// A field cannot be written.
    DidNotSerialize,
}

/// The discriminator of an account type: the first 8 bytes of the SHA-256
/// digest of the preimage `account:<type name>`.
pub open spec fn discriminator_of(preimage: Seq<u8>) -> Seq<u8> {
    Seq::new(8, |i: int| spec_sha256(preimage)[i])
}

/// Computes the discriminator for a preimage.
pub fn account_discriminator(preimage: &str) -> (d: Vec<u8>)
    ensures
        d@ == discriminator_of(preimage.spec_bytes()),
{
    let digest = sha256(preimage.as_bytes());
    let mut d: Vec<u8> = Vec::new();
    let mut i: usize = 0;
    while i < 8
        invariant
            i <= 8,
            digest@.len() == 32,
            d@ == digest@.take(i as int),
        decreases 8 - i,
    {
        d.push(digest[i]);
        i = i + 1;
        assert(d@ =~= digest@.take(i as int));
    }
    assert(d@ =~= discriminator_of(preimage.spec_bytes()));
    d
}

/// Appends bytes to a buffer.
pub fn append_bytes(buffer: &mut Vec<u8>, bytes: &[u8])
    ensures
        final(buffer)@ == old(buffer)@ + bytes@,
{
    let mut i: usize = 0;
    while i < bytes.len()
        invariant
            i <= bytes@.len(),
            buffer@ == old(buffer)@ + bytes@.take(i as int),
        decreases bytes@.len() - i,
    {
        buffer.push(bytes[i]);
        i = i + 1;
        assert(buffer@ =~= old(buffer)@ + bytes@.take(i as int));
    }
    assert(bytes@.take(bytes@.len() as int) =~= bytes@);
}

/// Reads the 32-byte address that starts at `at`.
pub fn read_key(data: &[u8], at: usize) -> (k: Key)
    requires
        at + 32 <= data@.len(),
    ensures
        k@ == data@.subrange(at as int, at + 32),
{
    let n = data.len();
    let mut bytes = [0u8; 32];
    let mut i: usize = 0;
    while i < 32
        invariant
            i <= 32,
            n == data@.len(),
            at + 32 <= data@.len(),
            forall|j: int| 0 <= j < i ==> bytes@[j] == data@[at + j],
        decreases 32 - i,
    {
        bytes[i] = data[at + i];
        i = i + 1;
    }
    let k = Key { bytes };
    assert(k@ =~= data@.subrange(at as int, at + 32));
    k
}

/// Whether `data` starts with the discriminator `d`.
pub fn starts_with(data: &[u8], d: &Vec<u8>) -> (b: bool)
    requires
        d@.len() <= data@.len(),
    ensures
        b <==> data@.take(d@.len() as int) == d@,
{
    let mut i: usize = 0;
    while i < d.len()
        invariant
            i <= d@.len(),
            d@.len() <= data@.len(),
            forall|j: int| 0 <= j < i ==> data@[j] == d@[j],
        decreases d@.len() - i,
    {
        if data[i] != d[i] {
            assert(data@.take(d@.len() as int)[i as int] != d@[i as int]);
            return false;
        }
        i = i + 1;
    }
    assert(data@.take(d@.len() as int) =~= d@);
    true
}

} // verus!
