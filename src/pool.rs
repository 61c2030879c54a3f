use vstd::prelude::*;

use crate::account::AccountId;

verus! {

/// The persisted record of one liquidity pool.
#[derive(Clone, Copy, Debug, PartialEq, Eq)]
pub struct LiquidityPool {
    /// The token type this pool trades against the native currency.
    pub move_token: AccountId,
    /// Native units the pool holds in `sol_account`.
    pub sol_reserve: u64,
    /// The account that holds the pool's native currency.
    pub sol_account: AccountId,
    /// The account that holds the pool's tokens.
    pub move_token_account: AccountId,
    /// Token units the pool holds in `move_token_account`.
    pub move_token_reserve: u64,
    /// The identity allowed to pause and unpause the pool.
    pub pool_authority: AccountId,
    /// Salt of the pool's own signing authority over `move_token_account`.
    pub bump: u8,
    /// Salt from which `sol_account` is derived.
    pub sol_account_bump: u8,
    /// While set, no deposit or swap runs.
    pub paused: bool,
}

impl LiquidityPool {
    /// The fields fixed at creation: identities and derivation salts.
    pub open spec fn same_identity(&self, other: &LiquidityPool) -> bool {
        &&& self.move_token == other.move_token
        &&& self.sol_account == other.sol_account
        &&& self.move_token_account == other.move_token_account
        &&& self.pool_authority == other.pool_authority
        &&& self.bump == other.bump
        &&& self.sol_account_bump == other.sol_account_bump
    }

    /// Whether `self` and `other` hold the same record, field by field.
    pub fn same_record(&self, other: &LiquidityPool) -> (r: bool)
        ensures
            r == (*self == *other),
    {
        self.move_token.same_as(&other.move_token) && self.sol_reserve == other.sol_reserve
            && self.sol_account.same_as(&other.sol_account) && self.move_token_account.same_as(
            &other.move_token_account,
        ) && self.move_token_reserve == other.move_token_reserve && self.pool_authority.same_as(
            &other.pool_authority,
        ) && self.bump == other.bump && self.sol_account_bump == other.sol_account_bump
            && self.paused == other.paused
    }

    pub fn is_paused(&self) -> (r: bool)
        ensures
            r == self.paused,
    {
        self.paused
    }

    /// Whether the native reserve covers `amount`.
    pub fn has_sufficient_native(&self, amount: u64) -> (r: bool)
        ensures
            r == (self.sol_reserve >= amount),
    {
        self.sol_reserve >= amount
    }

    /// Whether the token reserve covers `amount`.
    pub fn has_sufficient_token(&self, amount: u64) -> (r: bool)
        ensures
            r == (self.move_token_reserve >= amount),
    {
        self.move_token_reserve >= amount
    }

    /// Whether `caller` is the pool's authority.
    pub fn is_authority(&self, caller: &AccountId) -> (r: bool)
        ensures
            r == (*caller == self.pool_authority),
    {
        caller.same_as(&self.pool_authority)
    }
}

} // verus!
