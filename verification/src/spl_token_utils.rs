//! The engine's side of the token ledger.
//!
//! The ledger itself lives outside the engine. What the engine reads of an
//! account is a [`TokenAccount`]; what it asks the ledger to do is a list of
//! [`TokenInstruction`]s, to be carried out in order and all or nothing.

use crate::error::SwapverseError;
use crate::pubkey::Pubkey;
use vstd::prelude::*;

verus! {

/// What the engine reads of a token account.
#[derive(Clone, Copy, Debug, PartialEq, Eq, Structural)]
pub struct TokenAccount {
    /// Balance of the account.
    pub amount: u64,
    /// Whether the account is frozen, so that it can neither send nor receive.
    pub is_frozen: bool,
}

/// Whose account of a mint an instruction touches.
#[derive(Clone, Copy, Debug, PartialEq, Eq, Structural)]
pub enum Holder {
    /// The caller of the operation: an investor or a trader.
    User,
    /// The pool's reserve, which backs swaps and principal withdrawals.
    PoolReserve,
    /// The pool's treasury, which collects swap fees until they are claimed.
    PoolTreasury,
}

/// One request to the token ledger.
#[derive(Clone, Copy, Debug, PartialEq, Eq)]
pub enum TokenInstruction {
    /// Move `amount` of `mint` from one holder to another. A signed transfer
    /// is authorised by the engine, an unsigned one by the user.
    Transfer { mint: Pubkey, from: Holder, to: Holder, amount: u64, signed: bool },
    /// Create `amount` new units of `mint` in the holder's account.
    MintTo { mint: Pubkey, to: Holder, amount: u64 },
    /// Destroy `amount` units of `mint` in the holder's account.
    Burn { mint: Pubkey, from: Holder, amount: u64 },
    /// Lift the freeze on the holder's account of `mint`.
    ThawAccount { mint: Pubkey, account: Holder },
    /// Freeze the holder's account of `mint`.
    FreezeAccount { mint: Pubkey, account: Holder },
}

/// The instructions that thaw an account: one if it is frozen, none otherwise.
pub open spec fn thaw_instructions(mint: Pubkey, account: Holder, is_frozen: bool) -> Seq<
    TokenInstruction,
> {
    if is_frozen {
        seq![TokenInstruction::ThawAccount { mint, account }]
    } else {
        seq![]
    }
}

/// The instructions that mint `amount` units into an account that is kept
/// frozen: thaw it if need be, mint, freeze.
pub open spec fn mint_frozen_instructions(
    amount: u64,
    mint: Pubkey,
    to: Holder,
    is_frozen: bool,
) -> Seq<TokenInstruction> {
    thaw_instructions(mint, to, is_frozen) + seq![
        TokenInstruction::MintTo { mint, to, amount },
        TokenInstruction::FreezeAccount { mint, account: to },
    ]
}

/// The instructions that burn `amount` units in an account that is kept
/// frozen: thaw it if need be, burn, freeze.
pub open spec fn burn_instructions(
    amount: u64,
    mint: Pubkey,
    from: Holder,
    is_frozen: bool,
) -> Seq<TokenInstruction> {
    thaw_instructions(mint, from, is_frozen) + seq![
        TokenInstruction::Burn { mint, from, amount },
        TokenInstruction::FreezeAccount { mint, account: from },
    ]
}

/// The instructions that move `amount` units between two accounts that are
/// kept frozen: thaw each if need be, transfer under the engine's authority,
/// freeze both.
pub open spec fn frozen_transfer_instructions(
    amount: u64,
    mint: Pubkey,
    from: Holder,
    to: Holder,
    from_is_frozen: bool,
    to_is_frozen: bool,
) -> Seq<TokenInstruction> {
    thaw_instructions(mint, from, from_is_frozen) + thaw_instructions(mint, to, to_is_frozen)
        + seq![
        TokenInstruction::Transfer { mint, from, to, amount, signed: true },
        TokenInstruction::FreezeAccount { mint, account: from },
        TokenInstruction::FreezeAccount { mint, account: to },
    ]
}

/// A transfer that the engine authorises on behalf of the pool.
pub fn signed_transfer_tokens(amount: u64, mint: Pubkey, from: Holder, to: Holder) -> (instruction:
    TokenInstruction)
    ensures
        instruction == (TokenInstruction::Transfer { mint, from, to, amount, signed: true }),
{
    _transfer_tokens(amount, mint, from, to, true)
}

/// A transfer that the user authorises.
pub fn transfer_tokens(amount: u64, mint: Pubkey, from: Holder, to: Holder) -> (instruction:
    TokenInstruction)
    ensures
        instruction == (TokenInstruction::Transfer { mint, from, to, amount, signed: false }),
{
    _transfer_tokens(amount, mint, from, to, false)
}

fn _transfer_tokens(
    amount: u64,
    mint: Pubkey,
    from: Holder,
    to: Holder,
    signed: bool,
) -> (instruction: TokenInstruction)
    ensures
        instruction == (TokenInstruction::Transfer { mint, from, to, amount, signed }),
{
    TokenInstruction::Transfer { mint, from, to, amount, signed }
}

/// Burns `amount` units of a frozen holding.
///
/// Fails with `NotEnoughTokens`, and asks nothing of the ledger, when the
/// account holds less than `amount`.
pub fn burn_tokens(amount: u64, mint: Pubkey, from: Holder, account: &TokenAccount) -> (result:
    Result<Vec<TokenInstruction>, SwapverseError>)
    ensures
        match result {
            Ok(instructions) => amount <= account.amount && instructions@ == burn_instructions(
                amount,
                mint,
                from,
                account.is_frozen,
            ),
            Err(e) => amount > account.amount && e == SwapverseError::NotEnoughTokens,
        },
{
    if amount > account.amount {
        return Err(SwapverseError::NotEnoughTokens);
    }
    let mut instructions: Vec<TokenInstruction> = Vec::new();
    match thaw_token_account(mint, from, account.is_frozen) {
        Some(thaw) => instructions.push(thaw),
        None => {},
    }
    instructions.push(TokenInstruction::Burn { mint, from, amount });
    match freeze_token_account(mint, from, false) {
        Some(freeze) => instructions.push(freeze),
        None => {},
    }
    assert(instructions@ =~= burn_instructions(amount, mint, from, account.is_frozen));
    Ok(instructions)
}

/// Mints `amount` units of `mint` into the holder's account.
pub fn mint_tokens(amount: u64, mint: Pubkey, to: Holder) -> (instruction: TokenInstruction)
    ensures
        instruction == (TokenInstruction::MintTo { mint, to, amount }),
{
    TokenInstruction::MintTo { mint, to, amount }
}

/// Mints `amount` units into a holding that is kept frozen.
pub fn mint_frozen_tokens(amount: u64, mint: Pubkey, to: Holder, is_frozen: bool) -> (instructions:
    Vec<TokenInstruction>)
    ensures
        instructions@ == mint_frozen_instructions(amount, mint, to, is_frozen),
{
    let mut instructions: Vec<TokenInstruction> = Vec::new();
    match thaw_token_account(mint, to, is_frozen) {
        Some(thaw) => instructions.push(thaw),
        None => {},
    }
    instructions.push(mint_tokens(amount, mint, to));
    match freeze_token_account(mint, to, false) {
        Some(freeze) => instructions.push(freeze),
        None => {},
    }
    assert(instructions@ =~= mint_frozen_instructions(amount, mint, to, is_frozen));
    instructions
}

/// Thaws an account, unless it is not frozen: then there is nothing to do.
pub fn thaw_token_account(mint: Pubkey, account: Holder, is_frozen: bool) -> (instruction: Option<
    TokenInstruction,
>)
    ensures
        instruction == if is_frozen {
            Some(TokenInstruction::ThawAccount { mint, account })
        } else {
            None
        },
{
    if !is_frozen {
        return None;
    }
    Some(TokenInstruction::ThawAccount { mint, account })
}

/// Freezes an account, unless it is frozen already: then there is nothing to do.
pub fn freeze_token_account(mint: Pubkey, account: Holder, is_frozen: bool) -> (instruction: Option<
    TokenInstruction,
>)
    ensures
        instruction == if is_frozen {
            None
        } else {
            Some(TokenInstruction::FreezeAccount { mint, account })
        },
{
    if is_frozen {
        return None;
    }
    Some(TokenInstruction::FreezeAccount { mint, account })
}

/// Moves `amount` units between two holdings that are kept frozen.
pub fn signed_transfer_frozen_tokens(
    amount: u64,
    mint: Pubkey,
    from: Holder,
    to: Holder,
    from_is_frozen: bool,
    to_is_frozen: bool,
) -> (instructions: Vec<TokenInstruction>)
    ensures
        instructions@ == frozen_transfer_instructions(
            amount,
            mint,
            from,
            to,
            from_is_frozen,
            to_is_frozen,
        ),
{
    let mut instructions: Vec<TokenInstruction> = Vec::new();
    match thaw_token_account(mint, from, from_is_frozen) {
        Some(thaw) => instructions.push(thaw),
        None => {},
    }
    match thaw_token_account(mint, to, to_is_frozen) {
        Some(thaw) => instructions.push(thaw),
        None => {},
    }
    instructions.push(_transfer_tokens(amount, mint, from, to, true));
    match freeze_token_account(mint, from, false) {
        Some(freeze) => instructions.push(freeze),
        None => {},
    }
    match freeze_token_account(mint, to, false) {
        Some(freeze) => instructions.push(freeze),
        None => {},
    }
    assert(instructions@ =~= frozen_transfer_instructions(
        amount,
        mint,
        from,
        to,
        from_is_frozen,
        to_is_frozen,
    ));
    instructions
}

} // verus!
