//! Treasury settlement engine: weighted payouts of a settlement token and
//! fee sweeps routed through a swap router, with every instruction batch
//! described by a contract over mathematical models.

pub mod asset;
pub mod contract;
pub mod decimal;
pub mod error;
pub mod laws;
pub mod message;
pub mod mock;
pub mod model;
pub mod msg;
pub mod payout;
pub mod state;
pub mod sweep;
pub mod wire;

pub use crate::error::ContractError;
