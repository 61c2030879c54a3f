use vstd::hash_map::HashMapWithView;
use vstd::prelude::*;

use crate::accounts::{
    CreateLiquidityPool, DepositMoveToken, DepositSol, PauseLiquidityPool, SwapMoveToSol,
    SwapSolToMove, UnpauseLiquidityPool,
};
use crate::controller::{
    self, authority_error, conserves, deposit_move_error, deposit_move_plan, deposit_sol_error,
    deposit_sol_plan, initial_pool, swap_move_to_sol_error, swap_move_to_sol_plan,
    swap_sol_to_move_error, swap_sol_to_move_plan, Pending,
};
use crate::error::{ErrorCode, TransferError};
use crate::pool::LiquidityPool;

verus! {

broadcast use vstd::std_specs::hash::group_hash_axioms;

/// Many independent pools under one controller, each kept under its own id.
/// An id that names no pool is refused with `AccountMismatch`.
pub struct PoolStore {
    pools: HashMapWithView<u64, LiquidityPool>,
}

impl View for PoolStore {
    type V = Map<u64, LiquidityPool>;

    closed spec fn view(&self) -> Map<u64, LiquidityPool> {
        self.pools@
    }
}

impl PoolStore {
    /// A store with no pools.
    pub fn new() -> (r: PoolStore)
        ensures
            r@ == Map::<u64, LiquidityPool>::empty(),
    {
        PoolStore { pools: HashMapWithView::new() }
    }

    /// The pool kept under `id`, if any.
    pub fn get(&self, id: u64) -> (r: Option<LiquidityPool>)
        ensures
            r == (if self@.contains_key(id) {
                Some(self@[id])
            } else {
                None
            }),
    {
        match self.pools.get(&id) {
            Some(p) => Some(*p),
            None => None,
        }
    }

    /// Creates a pool under `id`; refused with `AlreadyInitialized` where
    /// one is kept there already.
    pub fn create_liquidity_pool(
        &mut self,
        id: u64,
        accounts: &CreateLiquidityPool,
        pool_nonce: u8,
        sol_account_nonce: u8,
    ) -> (r: Result<(), ErrorCode>)
        ensures
            old(self)@.contains_key(id) ==> r == Err::<(), ErrorCode>(
                ErrorCode::AlreadyInitialized,
            ),
            !old(self)@.contains_key(id) && !accounts.authority_is_signer ==> r == Err::<
                (),
                ErrorCode,
            >(ErrorCode::Unauthorized),
            !old(self)@.contains_key(id) && accounts.authority_is_signer ==> r is Ok,
            r is Ok ==> final(self)@ == old(self)@.insert(
                id,
                initial_pool(*accounts, pool_nonce, sol_account_nonce),
            ),
            r is Err ==> final(self)@ == old(self)@,
    {
        let mut slot = self.get(id);
        let r = controller::create_liquidity_pool(&mut slot, accounts, pool_nonce, sol_account_nonce);
        if let Some(pool) = slot {
            if r.is_ok() {
                self.pools.insert(id, pool);
            }
        }
        r
    }

    /// Plans a native deposit into the pool under `id`.
    pub fn deposit_sol(&self, id: u64, accounts: &DepositSol, amount: u64) -> (r: Result<
        Pending,
        ErrorCode,
    >)
        ensures
            !self@.contains_key(id) ==> r == Err::<Pending, ErrorCode>(ErrorCode::AccountMismatch),
            self@.contains_key(id) ==> match r {
                Err(e) => deposit_sol_error(self@[id], *accounts, amount) == Some(e),
                Ok(p) => {
                    &&& deposit_sol_error(self@[id], *accounts, amount) is None
                    &&& deposit_sol_plan(self@[id], *accounts, amount, p)
                    &&& conserves(self@[id], p.spec_transfers(), p.spec_next())
                },
            },
    {
        match self.pools.get(&id) {
            Some(pool) => controller::deposit_sol(pool, accounts, amount),
            None => Err(ErrorCode::AccountMismatch),
        }
    }

    /// Plans a token deposit into the pool under `id`.
    pub fn deposit_move(&self, id: u64, accounts: &DepositMoveToken, amount: u64) -> (r: Result<
        Pending,
        ErrorCode,
    >)
        ensures
            !self@.contains_key(id) ==> r == Err::<Pending, ErrorCode>(ErrorCode::AccountMismatch),
            self@.contains_key(id) ==> match r {
                Err(e) => deposit_move_error(self@[id], *accounts, amount) == Some(e),
                Ok(p) => {
                    &&& deposit_move_error(self@[id], *accounts, amount) is None
                    &&& deposit_move_plan(self@[id], *accounts, amount, p)
                    &&& conserves(self@[id], p.spec_transfers(), p.spec_next())
                },
            },
    {
        match self.pools.get(&id) {
            Some(pool) => controller::deposit_move(pool, accounts, amount),
            None => Err(ErrorCode::AccountMismatch),
        }
    }

    /// Plans a swap of tokens for native currency on the pool under `id`.
    pub fn swap_move_to_sol(&self, id: u64, accounts: &SwapMoveToSol, amount: u64) -> (r: Result<
        Pending,
        ErrorCode,
    >)
        ensures
            !self@.contains_key(id) ==> r == Err::<Pending, ErrorCode>(ErrorCode::AccountMismatch),
            self@.contains_key(id) ==> match r {
                Err(e) => swap_move_to_sol_error(self@[id], *accounts, amount) == Some(e),
                Ok(p) => {
                    &&& swap_move_to_sol_error(self@[id], *accounts, amount) is None
                    &&& swap_move_to_sol_plan(self@[id], *accounts, amount, p)
                    &&& conserves(self@[id], p.spec_transfers(), p.spec_next())
                },
            },
    {
        match self.pools.get(&id) {
            Some(pool) => controller::swap_move_to_sol(pool, accounts, amount),
            None => Err(ErrorCode::AccountMismatch),
        }
    }

    /// Plans a swap of native currency for tokens on the pool under `id`.
    pub fn swap_sol_to_move(&self, id: u64, accounts: &SwapSolToMove, amount: u64) -> (r: Result<
        Pending,
        ErrorCode,
    >)
        ensures
            !self@.contains_key(id) ==> r == Err::<Pending, ErrorCode>(ErrorCode::AccountMismatch),
            self@.contains_key(id) ==> match r {
                Err(e) => swap_sol_to_move_error(self@[id], *accounts, amount) == Some(e),
                Ok(p) => {
                    &&& swap_sol_to_move_error(self@[id], *accounts, amount) is None
                    &&& swap_sol_to_move_plan(self@[id], *accounts, amount, p)
                    &&& conserves(self@[id], p.spec_transfers(), p.spec_next())
                },
            },
    {
        match self.pools.get(&id) {
            Some(pool) => controller::swap_sol_to_move(pool, accounts, amount),
            None => Err(ErrorCode::AccountMismatch),
        }
    }

    /// Stores what a plan for the pool under `id` settles on; no other pool
    /// changes.
    pub fn settle(&mut self, id: u64, pending: Pending, outcome: Result<(), TransferError>) -> (r:
        Result<(), ErrorCode>)
        ensures
            !old(self)@.contains_key(id) ==> r == Err::<(), ErrorCode>(ErrorCode::AccountMismatch)
                && final(self)@ == old(self)@,
            old(self)@.contains_key(id) && old(self)@[id] != pending.spec_prior() ==> r == Err::<
                (),
                ErrorCode,
            >(ErrorCode::AccountMismatch) && final(self)@ == old(self)@,
            old(self)@.contains_key(id) && old(self)@[id] == pending.spec_prior() ==> match outcome {
                Ok(()) => r is Ok && final(self)@ == old(self)@.insert(id, pending.spec_next()),
                Err(e) => r == Err::<(), ErrorCode>(ErrorCode::TransferFailed(e)) && final(self)@
                    == old(self)@,
            },
    {
        let mut pool = match self.pools.get(&id) {
            Some(p) => *p,
            None => return Err(ErrorCode::AccountMismatch),
        };
        let r = controller::settle(&mut pool, pending, outcome);
        if r.is_ok() {
            self.pools.insert(id, pool);
        }
        r
    }

    /// Pauses the pool under `id`.
    pub fn pause_liquidity_pool(&mut self, id: u64, accounts: &PauseLiquidityPool) -> (r: Result<
        (),
        ErrorCode,
    >)
        ensures
            !old(self)@.contains_key(id) ==> r == Err::<(), ErrorCode>(ErrorCode::AccountMismatch)
                && final(self)@ == old(self)@,
            old(self)@.contains_key(id) ==> match authority_error(
                old(self)@[id],
                accounts.authority,
                accounts.authority_is_signer,
            ) {
                Some(e) => r == Err::<(), ErrorCode>(e) && final(self)@ == old(self)@,
                None => r is Ok && final(self)@ == old(self)@.insert(
                    id,
                    LiquidityPool { paused: true, ..old(self)@[id] },
                ),
            },
    {
        let mut pool = match self.pools.get(&id) {
            Some(p) => *p,
            None => return Err(ErrorCode::AccountMismatch),
        };
        let r = controller::pause_liquidity_pool(&mut pool, accounts);
        if r.is_ok() {
            self.pools.insert(id, pool);
        }
        r
    }

    /// Unpauses the pool under `id`.
    pub fn unpause_liquidity_pool(&mut self, id: u64, accounts: &UnpauseLiquidityPool) -> (r:
        Result<(), ErrorCode>)
        ensures
            !old(self)@.contains_key(id) ==> r == Err::<(), ErrorCode>(ErrorCode::AccountMismatch)
                && final(self)@ == old(self)@,
            old(self)@.contains_key(id) ==> match authority_error(
                old(self)@[id],
                accounts.authority,
                accounts.authority_is_signer,
            ) {
                Some(e) => r == Err::<(), ErrorCode>(e) && final(self)@ == old(self)@,
                None => r is Ok && final(self)@ == old(self)@.insert(
                    id,
                    LiquidityPool { paused: false, ..old(self)@[id] },
                ),
            },
    {
        let mut pool = match self.pools.get(&id) {
            Some(p) => *p,
            None => return Err(ErrorCode::AccountMismatch),
        };
        let r = controller::unpause_liquidity_pool(&mut pool, accounts);
        if r.is_ok() {
            self.pools.insert(id, pool);
        }
        r
    }
}

} // verus!
