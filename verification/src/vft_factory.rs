//! The factory: it deploys ledgers, keeps a registry of what it deployed, and
//! has an outside pool factory create liquidity pools between tokens.
//!
//! * [`config`]: the records that configure the factory and a new ledger.
//! * [`storage`]: the hash tables that hold the registry and the whitelist.
//! * [`events`]: what the factory answers, emits and refuses with.
//! * [`registry`]: the factory's state as mathematics, and what each
//!   operation does to it.
//! * [`service`]: the factory's state and its administration.
//! * [`wire`]: the bytes of the values that requests carry.
//! * [`workflow`]: the multi-step operations, one transition per reply.
//! * [`laws`]: what holds of the operations together.

pub mod config;
pub mod storage;
pub mod events;
pub mod registry;
pub mod service;
pub mod wire;
pub mod workflow;
pub mod laws;
