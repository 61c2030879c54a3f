use vstd::prelude::*;

use crate::account::AccountId;

verus! {

/// The accounts presented to create a pool.
#[derive(Clone, Copy, Debug, PartialEq, Eq)]
pub struct CreateLiquidityPool {
    /// The identity that will pause and unpause the pool; pays for creation.
    pub authority: AccountId,
    pub authority_is_signer: bool,
    /// The token type the pool will trade.
    pub move_mint: AccountId,
    /// The account that will hold the pool's native currency.
    pub sol_account: AccountId,
    /// The account that will hold the pool's tokens.
    pub move_token_account: AccountId,
}

/// The accounts presented to deposit native currency.
#[derive(Clone, Copy, Debug, PartialEq, Eq)]
pub struct DepositSol {
    /// The depositor, debited for the deposit.
    pub authority: AccountId,
    pub authority_is_signer: bool,
    pub sol_account: AccountId,
}

/// The accounts presented to deposit tokens.
#[derive(Clone, Copy, Debug, PartialEq, Eq)]
pub struct DepositMoveToken {
    /// The depositor, who must own `from_move`.
    pub authority: AccountId,
    pub authority_is_signer: bool,
    pub move_token_account: AccountId,
    /// The depositor's token account, debited for the deposit.
    pub from_move: AccountId,
    /// The owner recorded in `from_move`.
    pub from_move_owner: AccountId,
}

/// The accounts presented to swap tokens for native currency.
#[derive(Clone, Copy, Debug, PartialEq, Eq)]
pub struct SwapMoveToSol {
    /// The caller, who must own `from_move_token_account`.
    pub authority: AccountId,
    pub authority_is_signer: bool,
    pub sol_account: AccountId,
    pub move_token_account: AccountId,
    /// The caller's token account, debited for the swap.
    pub from_move_token_account: AccountId,
    /// The owner recorded in `from_move_token_account`.
    pub from_move_token_account_owner: AccountId,
    /// Where the native payout goes.
    pub destination: AccountId,
}

/// The accounts presented to swap native currency for tokens.
#[derive(Clone, Copy, Debug, PartialEq, Eq)]
pub struct SwapSolToMove {
    /// The pool record's own identity, from which its signing address is
    /// derived.
    pub liquidity_pool: AccountId,
    /// The caller, debited for the swap.
    pub authority: AccountId,
    pub authority_is_signer: bool,
    pub sol_account: AccountId,
    pub move_token_account: AccountId,
    /// The token account the payout goes to.
    pub destination: AccountId,
}

/// The accounts presented to pause a pool.
#[derive(Clone, Copy, Debug, PartialEq, Eq)]
pub struct PauseLiquidityPool {
    pub authority: AccountId,
    pub authority_is_signer: bool,
}

/// The accounts presented to unpause a pool.
#[derive(Clone, Copy, Debug, PartialEq, Eq)]
pub struct UnpauseLiquidityPool {
    pub authority: AccountId,
    pub authority_is_signer: bool,
}

} // verus!
