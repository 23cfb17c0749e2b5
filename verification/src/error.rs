use vstd::prelude::*;

verus! {

/// Every reason for which the engine rejects an operation.
///
/// A rejected operation leaves all records exactly as they were.
#[derive(Clone, Copy, Debug, PartialEq, Eq, Structural)]
pub enum SwapverseError {
    /// User not authorized to use this instruction.
    UnauthorizedSigner,
    /// Token mint should be one of the defined stable coin mints.
    InvalidTokenMint,
    /// Token a mint and token b mint can not be same.
    SameTokenMints,
    /// Initial amount a and initial amount b should be same.
    InitialAmountsNotSame,
    /// Swap pool not open for investments.
    SwapPoolNotOpenForInvestment,
    /// Swap pool not open for withdrawals.
    SwapPoolNotOpenForWithdrawal,
    /// Amount should be greater than minimum investment amount of pool.
    InsufficientAmount,
    /// Deposit amount is zero.
    DepositAmountIsZero,
    /// Withdraw amount is zero.
    WithdrawAmountIsZero,
    /// Token should be one of the tokens specified in the pool.
    InvalidPoolTokenMint,
    /// Token should be one of the pool share tokens specified in the pool.
    InvalidPoolShareTokenMint,
    /// Investor should be the owner of investor token account.
    InvalidInvestorTokenAccountOwner,
    /// Investor token account mint should be same as the token mint.
    InvalidInvestorTokenAccountMint,
    /// Swap pool not activated for swapping.
    SwapPoolNotActivated,
    /// Not enough tokens.
    NotEnoughTokens,
    /// Maximum 10_000_000 tokens can be minted at once.
    TokenAmountLimitExceeded,
    /// The output is not enough as asked by user.
    NotEnoughOutput,
}

} // verus!
