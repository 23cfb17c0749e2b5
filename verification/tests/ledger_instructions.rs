use swapverse::error::SwapverseError;
use swapverse::math::{mul_div, product};
use swapverse::pubkey::Pubkey;
use swapverse::spl_token_utils::{
    burn_tokens, freeze_token_account, mint_frozen_tokens, mint_tokens,
    signed_transfer_frozen_tokens, signed_transfer_tokens, thaw_token_account, transfer_tokens,
    Holder, TokenAccount, TokenInstruction,
};

fn key(n: u8) -> Pubkey {
    Pubkey([n; 32])
}

#[test]
fn a_signed_transfer_is_marked_as_signed() {
    assert_eq!(
        signed_transfer_tokens(12, key(1), Holder::PoolReserve, Holder::User),
        TokenInstruction::Transfer {
            mint: key(1),
            from: Holder::PoolReserve,
            to: Holder::User,
            amount: 12,
            signed: true
        }
    );
}

#[test]
fn a_plain_transfer_is_not_signed() {
    assert_eq!(
        transfer_tokens(13, key(2), Holder::User, Holder::PoolReserve),
        TokenInstruction::Transfer {
            mint: key(2),
            from: Holder::User,
            to: Holder::PoolReserve,
            amount: 13,
            signed: false
        }
    );
}

#[test]
fn mint_tokens_asks_for_one_mint() {
    assert_eq!(
        mint_tokens(77, key(3), Holder::User),
        TokenInstruction::MintTo { mint: key(3), to: Holder::User, amount: 77 }
    );
}

#[test]
fn only_a_frozen_account_is_thawed() {
    assert_eq!(
        thaw_token_account(key(1), Holder::User, true),
        Some(TokenInstruction::ThawAccount { mint: key(1), account: Holder::User })
    );
    assert_eq!(thaw_token_account(key(1), Holder::User, false), None);
}

#[test]
fn only_a_thawed_account_is_frozen() {
    assert_eq!(
        freeze_token_account(key(1), Holder::User, false),
        Some(TokenInstruction::FreezeAccount { mint: key(1), account: Holder::User })
    );
    assert_eq!(freeze_token_account(key(1), Holder::User, true), None);
}

#[test]
fn minting_into_a_frozen_account_thaws_mints_and_freezes() {
    assert_eq!(
        mint_frozen_tokens(5, key(8), Holder::User, true),
        vec![
            TokenInstruction::ThawAccount { mint: key(8), account: Holder::User },
            TokenInstruction::MintTo { mint: key(8), to: Holder::User, amount: 5 },
            TokenInstruction::FreezeAccount { mint: key(8), account: Holder::User },
        ]
    );
}

#[test]
fn minting_into_a_fresh_account_mints_and_freezes() {
    assert_eq!(
        mint_frozen_tokens(5, key(8), Holder::User, false),
        vec![
            TokenInstruction::MintTo { mint: key(8), to: Holder::User, amount: 5 },
            TokenInstruction::FreezeAccount { mint: key(8), account: Holder::User },
        ]
    );
}

#[test]
fn burning_thaws_burns_and_freezes() {
    let account = TokenAccount { amount: 10, is_frozen: true };
    assert_eq!(
        burn_tokens(10, key(8), Holder::User, &account),
        Ok(vec![
            TokenInstruction::ThawAccount { mint: key(8), account: Holder::User },
            TokenInstruction::Burn { mint: key(8), from: Holder::User, amount: 10 },
            TokenInstruction::FreezeAccount { mint: key(8), account: Holder::User },
        ])
    );
    let account = TokenAccount { amount: 10, is_frozen: false };
    assert_eq!(
        burn_tokens(0, key(8), Holder::User, &account),
        Ok(vec![
            TokenInstruction::Burn { mint: key(8), from: Holder::User, amount: 0 },
            TokenInstruction::FreezeAccount { mint: key(8), account: Holder::User },
        ])
    );
}

#[test]
fn burning_more_than_is_held_is_rejected() {
    let account = TokenAccount { amount: 10, is_frozen: true };
    assert_eq!(
        burn_tokens(11, key(8), Holder::User, &account),
        Err(SwapverseError::NotEnoughTokens)
    );
}

#[test]
fn a_transfer_between_frozen_accounts_thaws_and_freezes_both() {
    assert_eq!(
        signed_transfer_frozen_tokens(4, key(8), Holder::User, Holder::PoolTreasury, true, true),
        vec![
            TokenInstruction::ThawAccount { mint: key(8), account: Holder::User },
            TokenInstruction::ThawAccount { mint: key(8), account: Holder::PoolTreasury },
            TokenInstruction::Transfer {
                mint: key(8),
                from: Holder::User,
                to: Holder::PoolTreasury,
                amount: 4,
                signed: true
            },
            TokenInstruction::FreezeAccount { mint: key(8), account: Holder::User },
            TokenInstruction::FreezeAccount { mint: key(8), account: Holder::PoolTreasury },
        ]
    );
    assert_eq!(
        signed_transfer_frozen_tokens(4, key(8), Holder::User, Holder::PoolTreasury, false, true),
        vec![
            TokenInstruction::ThawAccount { mint: key(8), account: Holder::PoolTreasury },
            TokenInstruction::Transfer {
                mint: key(8),
                from: Holder::User,
                to: Holder::PoolTreasury,
                amount: 4,
                signed: true
            },
            TokenInstruction::FreezeAccount { mint: key(8), account: Holder::User },
            TokenInstruction::FreezeAccount { mint: key(8), account: Holder::PoolTreasury },
        ]
    );
}

#[test]
fn product_does_not_overflow() {
    assert_eq!(product(u64::MAX, u64::MAX), 340282366920938463426481119284349108225u128);
    assert_eq!(product(0, u64::MAX), 0);
    assert_eq!(product(1000, 1000), 1_000_000);
}

#[test]
fn mul_div_rounds_down() {
    assert_eq!(mul_div(91, 1, 100), 0);
    assert_eq!(mul_div(91, 10, 100), 9);
    assert_eq!(mul_div(909, 500, 1000), 454);
    assert_eq!(mul_div(7, 3, 2), 10);
    assert_eq!(mul_div(u64::MAX, u64::MAX, 1), 340282366920938463426481119284349108225u128);
    assert_eq!(mul_div(u64::MAX, u64::MAX, u64::MAX), u64::MAX as u128);
}
