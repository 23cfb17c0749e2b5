//! Accounting engine of a pooled two-asset exchange.
//!
//! Investors co-fund a pool of two assets. Once both legs are fully funded the
//! pool opens for swaps, which are priced by a constant product fixed at
//! creation. Swap fees accrue as profit. After the pool's life (or its fill
//! deadline) has passed, investors withdraw principal and claim profit in
//! proportion to the shares they hold.
//!
//! The engine owns the pool, registry and investor records and decides every
//! amount. It never touches a token balance itself: each operation takes the
//! balances it needs as plain numbers and answers with the list of
//! [`spl_token_utils::TokenInstruction`]s that the caller has to carry out on
//! the token ledger, in order.

pub mod constants;
pub mod error;
pub mod instructions;
pub mod math;
pub mod pubkey;
pub mod spl_token_utils;
pub mod states;
