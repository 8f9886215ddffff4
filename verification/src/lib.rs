//! Verified decision logic of a CosmWasm contract that registers Astroport
//! pools and forwards native-token swaps to them.
//!
//! The chain's storage, queries to other contracts and the JSON encoding of
//! messages are performed by the host glue; every decision the contract makes
//! on the values read from them is stated and proved here.

pub mod asset;
pub mod contract;
pub mod error;
pub mod helpers;
pub mod laws;
pub mod msg;
pub mod state;
pub mod text;
pub mod types;
