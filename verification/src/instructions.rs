pub mod buy_nft;
pub mod list_nft;
pub mod seeds;
pub mod settlement;
pub mod unlist_nft;
pub mod whitelist_collection;

pub use buy_nft::BuyNFT;
pub use list_nft::{ListNFT, MetadataAccount};
pub use settlement::{Action, CloseAccount, Event, LamportTransfer, Settlement, Stage, TokenTransfer};
pub use unlist_nft::UnlistNFT;
pub use whitelist_collection::WhitelistCollection;
