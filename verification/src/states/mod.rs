//! What the program keeps on the ledger.

pub mod price_account;

pub use price_account::PriceAccount;
