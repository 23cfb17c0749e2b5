//! The records that the engine keeps: the registry, the pools and the
//! investors' positions.

pub mod global_state;
pub mod investor_pool_info;
pub mod swap_pool;

pub use global_state::GlobalState;
pub use investor_pool_info::InvestorPoolInfo;
pub use swap_pool::{Phase, PoolEvent, SwapPool};
