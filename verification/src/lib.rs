//! A liquid staking ledger: users stake the native currency, receive a liquid
//! token in exchange, unbond and withdraw through the staking system, and may
//! lock their liquid token in governance votes.
//!
//! The currency, asset, staking and governance systems are outside this crate.
//! Each dispatchable call is a state machine: it asks the runtime for one
//! outside operation at a time, and decides what to do next from the reply.

pub mod arith;
pub mod model;
pub mod machine;
pub mod pallet;
pub mod laws;
pub mod types;
