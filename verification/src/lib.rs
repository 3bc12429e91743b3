//! An on-chain counter: one account holds a 32-bit count in four little-endian
//! bytes, and each invocation by the program that owns the account adds one to it.

pub mod account;
pub mod error;
pub mod layout;
pub mod processor;
pub mod record;

pub use account::{Account, AccountView, Identity};
pub use error::CounterError;
pub use processor::process_instruction;
pub use record::CounterAccount;
