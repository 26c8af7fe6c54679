//! Verified model of the dapps-staking test runtime: its configuration, the
//! genesis it starts from, the dummy helpers it plugs into the contracts and
//! rewards pallets, and the decisions that drive blocks, sessions and eras.

pub mod clock;
pub mod contracts;
pub mod genesis;
pub mod operator;
pub mod runtime;
pub mod substrate;
