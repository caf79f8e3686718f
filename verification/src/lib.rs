//! A fungible-token ledger and the factory that deploys ledgers and wires them
//! into liquidity pools, with every state transition stated and proved.
//!
//! * [`primitives`]: addresses, code identifiers and 256-bit amounts.
//! * [`listing`]: what the calls of a hash table give, as mathematics.
//! * [`vft`]: the token ledger (balances, allowances, supply, roles).
//! * [`vft_factory`]: the factory registry and its multi-step workflows.

pub mod primitives;
pub mod listing;
pub mod vft;
pub mod vft_factory;
