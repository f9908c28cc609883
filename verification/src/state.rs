pub mod account_data;
pub mod seller;
pub mod whitelisted_collection;

pub use account_data::AccountDataError;
pub use seller::SellerVault;
pub use whitelisted_collection::WhitelistedCollection;
