//! An on-chain poll with two fixed options: each vote adds one to its option's
//! counter in the contract's instance storage and publishes a `vote` event.

pub mod host;
pub mod poll;
pub mod contract;
