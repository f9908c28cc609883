//! Verified core of an NFT marketplace program: collection whitelisting,
//! listing an NFT into a seller vault, buying it and unlisting it.

pub mod associated_token;
pub mod errors;
pub mod external;
pub mod instructions;
pub mod key;
pub mod laws;
pub mod nft_market_place;
pub mod state;

pub use errors::{HandlerError, NFTMatketPlaceProgramError};
pub use key::Key;
pub use state::{SellerVault, WhitelistedCollection};

use vstd::prelude::*;

verus! {

/// An instruction without accounts.
#[derive(Clone, Copy, Debug, PartialEq, Eq)]
pub struct Initialize {}

} // verus!
