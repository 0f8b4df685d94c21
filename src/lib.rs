//! A small account ledger: per-address balances, validated transfers between
//! addresses, and per-address histories of completed payments and received tags.

pub mod contract;
pub mod laws;
pub mod ledger;
pub mod model;

pub use contract::PaymentContract;
pub use model::{Account, Address, PaymentInstance, PaymentUser};
