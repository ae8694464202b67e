//! Verified core of a cross-chain token bridge: governance guard, binding
//! records and fee model, decimal renormalization, and the state transitions
//! of the coin bridge, the root adapter and the chain adapter.
pub mod address;
pub mod text;
pub mod decimals;
pub mod binding;
pub mod calls;
pub mod coin_bridge;
pub mod error;
pub mod fees;
pub mod governance;
pub mod root_adapter;
pub mod waves_adapter;
