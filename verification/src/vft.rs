//! The token ledger: balances, allowances, total supply and role sets of one
//! deployed token.
//!
//! * [`storage`]: the hash tables that hold the ledger's entries.
//! * [`ledger`]: what each operation does, as mathematics, and the operations
//!   on the balance and allowance tables.
//! * [`service`]: the ledger state and the operations a caller can invoke.
//! * [`laws`]: what holds of the operations together.

pub mod storage;
pub mod ledger;
pub mod service;
pub mod laws;
