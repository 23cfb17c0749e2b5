//! The operations of the engine, one per file.
//!
//! Each operation is a method of a struct that holds the records the
//! operation works on and the balances it reads. A rejected operation changes
//! nothing; an accepted one updates the records and returns the instructions
//! for the token ledger.

pub mod claim_profit;
pub mod create_swap_pool;
pub mod get_test_tokens;
pub mod initialize_global_state;
pub mod invest_swap_pool;
pub mod swap_tokens;
pub mod withdraw_swap_pool;

pub use claim_profit::ClaimProfit;
pub use create_swap_pool::CreateSwapPool;
pub use get_test_tokens::GetTestTokens;
pub use initialize_global_state::InitializeGlobalState;
pub use invest_swap_pool::InvestSwapPool;
pub use swap_tokens::SwapToken;
pub use withdraw_swap_pool::WithdrawSwapPool;
