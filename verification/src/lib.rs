//! Verified account validation and instruction handlers of three on-chain
//! programs: a lamport vault, a whitelist and a deposit program.
pub mod model;
pub mod pda;
pub mod instructions;
pub mod anchor;
pub mod token;
pub mod vault;
pub mod whitelist;
pub mod deposit;
