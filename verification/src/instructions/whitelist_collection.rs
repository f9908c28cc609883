//! Whitelisting a collection: the new collection record names the
//! collection's first creator and its name.

use vstd::prelude::*;

use crate::errors::NFTMatketPlaceProgramError;
use crate::key::Key;
use crate::state::WhitelistedCollection;

verus! {

/// The accounts of a whitelisting, as far as it writes them.
#[derive(Clone, Debug, PartialEq, Eq)]
pub struct WhitelistCollection {
    /// The collection record being created.
    pub whitelisted_collection: WhitelistedCollection,
    /// The account that pays for the record.
    pub payer: Key,
}

/// Records the first creator and the name of the collection; the handler
/// itself always succeeds.  The instruction still fails afterwards, when the
/// record is written back into its account, for a name of more than 32
/// bytes: such a record does not fit the account (see
/// `WhitelistedCollection::store`).
pub fn handler(
    ctx: &mut WhitelistCollection,
    first_creator: Key,
    collection_name: String,
) -> (res: Result<(), NFTMatketPlaceProgramError>)
    ensures
        res is Ok,
        final(ctx).whitelisted_collection.first_creator == first_creator,
        final(ctx).whitelisted_collection.collection_name@ == collection_name@,
        final(ctx).payer == old(ctx).payer,
{
    ctx.whitelisted_collection.first_creator = first_creator;
    ctx.whitelisted_collection.collection_name = collection_name;
    Ok(())
}

} // verus!
