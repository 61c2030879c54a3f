use vstd::prelude::*;

use crate::account::AccountId;
use crate::accounts::{
    CreateLiquidityPool, DepositMoveToken, DepositSol, PauseLiquidityPool, SwapMoveToSol,
    SwapSolToMove, UnpauseLiquidityPool,
};
use crate::error::{ErrorCode, TransferError};
use crate::pool::LiquidityPool;
use crate::transfer::{net_flow, Asset, PoolSigningAuthority, Transfer, TransferAuthority};

verus! {

/// The fixed price: this many token units trade for one native unit.
pub const TOKENS_PER_NATIVE: u64 = 10;

/// A deposit or swap that passed every check: the record it was planned
/// against, the transfers it needs, in order, and the record to store once
/// all of them have gone through.
#[derive(Debug)]
pub struct Pending {
    prior: LiquidityPool,
    transfers: Vec<Transfer>,
    next: LiquidityPool,
}

impl Pending {
    pub closed spec fn spec_prior(&self) -> LiquidityPool {
        self.prior
    }

    pub closed spec fn spec_transfers(&self) -> Seq<Transfer> {
        self.transfers@
    }

    pub closed spec fn spec_next(&self) -> LiquidityPool {
        self.next
    }

    /// The transfers to carry out, in order.
    pub fn transfers(&self) -> (r: &Vec<Transfer>)
        ensures
            r@ == self.spec_transfers(),
    {
        &self.transfers
    }

    /// The record that replaces the pool's once every transfer succeeded.
    pub fn next(&self) -> (r: LiquidityPool)
        ensures
            r == self.spec_next(),
    {
        self.next
    }
}

/// `after` is `before` with each reserve moved by the net flow of its asset
/// into the pool's custody account, identities and pause flag unchanged.
pub open spec fn conserves(before: LiquidityPool, transfers: Seq<Transfer>, after: LiquidityPool) -> bool {
    &&& after.same_identity(&before)
    &&& after.paused == before.paused
    &&& after.sol_reserve == before.sol_reserve + net_flow(transfers, Asset::Native, before.sol_account)
    &&& after.move_token_reserve == before.move_token_reserve + net_flow(
        transfers,
        Asset::Token,
        before.move_token_account,
    )
}

/// The record a new pool starts with.
pub open spec fn initial_pool(accounts: CreateLiquidityPool, pool_nonce: u8, sol_account_nonce: u8) -> LiquidityPool {
    LiquidityPool {
        move_token: accounts.move_mint,
        sol_reserve: 0,
        sol_account: accounts.sol_account,
        move_token_account: accounts.move_token_account,
        move_token_reserve: 0,
        pool_authority: accounts.authority,
        bump: pool_nonce,
        sol_account_bump: sol_account_nonce,
        paused: false,
    }
}

/// Why a native deposit is refused, checked in this order; `None` if it may
/// go ahead.
pub open spec fn deposit_sol_error(pool: LiquidityPool, accounts: DepositSol, amount: u64) -> Option<ErrorCode> {
    if pool.paused {
        Some(ErrorCode::PoolPaused)
    } else if !accounts.authority_is_signer {
        Some(ErrorCode::Unauthorized)
    } else if accounts.sol_account != pool.sol_account || accounts.authority == pool.sol_account {
        Some(ErrorCode::AccountMismatch)
    } else if pool.sol_reserve + amount > u64::MAX {
        Some(ErrorCode::ArithmeticOverflow)
    } else {
        None
    }
}

/// Why a token deposit is refused, checked in this order; `None` if it may
/// go ahead.
pub open spec fn deposit_move_error(pool: LiquidityPool, accounts: DepositMoveToken, amount: u64) -> Option<ErrorCode> {
    if pool.paused {
        Some(ErrorCode::PoolPaused)
    } else if !accounts.authority_is_signer || accounts.from_move_owner != accounts.authority {
        Some(ErrorCode::Unauthorized)
    } else if accounts.move_token_account != pool.move_token_account || accounts.from_move
        == pool.move_token_account {
        Some(ErrorCode::AccountMismatch)
    } else if pool.move_token_reserve + amount > u64::MAX {
        Some(ErrorCode::ArithmeticOverflow)
    } else {
        None
    }
}

/// Why a swap of tokens for native currency is refused, checked in this
/// order; `None` if it may go ahead.
pub open spec fn swap_move_to_sol_error(pool: LiquidityPool, accounts: SwapMoveToSol, amount: u64) -> Option<ErrorCode> {
    if pool.paused {
        Some(ErrorCode::PoolPaused)
    } else if !accounts.authority_is_signer || accounts.from_move_token_account_owner
        != accounts.authority {
        Some(ErrorCode::Unauthorized)
    } else if accounts.sol_account != pool.sol_account || accounts.move_token_account
        != pool.move_token_account || accounts.from_move_token_account == pool.move_token_account
        || accounts.destination == pool.sol_account {
        Some(ErrorCode::AccountMismatch)
    } else if pool.sol_reserve < amount / TOKENS_PER_NATIVE {
        Some(ErrorCode::InsufficientReserve)
    } else if pool.move_token_reserve + amount > u64::MAX {
        Some(ErrorCode::ArithmeticOverflow)
    } else {
        None
    }
}

/// Why a swap of native currency for tokens is refused, checked in this
/// order; `None` if it may go ahead.
pub open spec fn swap_sol_to_move_error(pool: LiquidityPool, accounts: SwapSolToMove, amount: u64) -> Option<ErrorCode> {
    if pool.paused {
        Some(ErrorCode::PoolPaused)
    } else if !accounts.authority_is_signer {
        Some(ErrorCode::Unauthorized)
    } else if accounts.sol_account != pool.sol_account || accounts.move_token_account
        != pool.move_token_account || accounts.authority == pool.sol_account
        || accounts.destination == pool.move_token_account {
        Some(ErrorCode::AccountMismatch)
    } else if amount * TOKENS_PER_NATIVE > u64::MAX {
        Some(ErrorCode::ArithmeticOverflow)
    } else if pool.move_token_reserve < amount * TOKENS_PER_NATIVE {
        Some(ErrorCode::InsufficientReserve)
    } else if pool.sol_reserve + amount > u64::MAX {
        Some(ErrorCode::ArithmeticOverflow)
    } else {
        None
    }
}

/// Why a pause or unpause by `authority` is refused; `None` if it may go
/// ahead.
pub open spec fn authority_error(pool: LiquidityPool, authority: AccountId, is_signer: bool) -> Option<ErrorCode> {
    if !is_signer || authority != pool.pool_authority {
        Some(ErrorCode::Unauthorized)
    } else {
        None
    }
}

/// `p` is the plan `deposit_sol` makes on `pool` when it goes ahead.
pub open spec fn deposit_sol_plan(
    pool: LiquidityPool,
    accounts: DepositSol,
    amount: u64,
    p: Pending,
) -> bool {
    &&& p.spec_transfers() == seq![
        Transfer {
            asset: Asset::Native,
            from: accounts.authority,
            to: pool.sol_account,
            authority: TransferAuthority::Signer(accounts.authority),
            amount,
        },
    ]
    &&& p.spec_next() == (LiquidityPool {
        sol_reserve: (pool.sol_reserve + amount) as u64,
        ..pool
    })
    &&& p.spec_prior() == pool
}

/// `p` is the plan `deposit_move` makes on `pool` when it goes ahead.
pub open spec fn deposit_move_plan(
    pool: LiquidityPool,
    accounts: DepositMoveToken,
    amount: u64,
    p: Pending,
) -> bool {
    &&& p.spec_transfers() == seq![
        Transfer {
            asset: Asset::Token,
            from: accounts.from_move,
            to: pool.move_token_account,
            authority: TransferAuthority::Signer(accounts.authority),
            amount,
        },
    ]
    &&& p.spec_next() == (LiquidityPool {
        move_token_reserve: (pool.move_token_reserve + amount) as u64,
        ..pool
    })
    &&& p.spec_prior() == pool
}

/// `p` is the plan `swap_move_to_sol` makes on `pool` when it goes ahead.
pub open spec fn swap_move_to_sol_plan(
    pool: LiquidityPool,
    accounts: SwapMoveToSol,
    amount: u64,
    p: Pending,
) -> bool {
    &&& p.spec_transfers() == seq![
        Transfer {
            asset: Asset::Token,
            from: accounts.from_move_token_account,
            to: pool.move_token_account,
            authority: TransferAuthority::Signer(accounts.authority),
            amount,
        },
        Transfer {
            asset: Asset::Native,
            from: pool.sol_account,
            to: accounts.destination,
            authority: TransferAuthority::ProgramOwned,
            amount: amount / TOKENS_PER_NATIVE,
        },
    ]
    &&& p.spec_next() == (LiquidityPool {
        sol_reserve: (pool.sol_reserve - amount / TOKENS_PER_NATIVE) as u64,
        move_token_reserve: (pool.move_token_reserve + amount) as u64,
        ..pool
    })
    &&& p.spec_prior() == pool
}

/// `p` is the plan `swap_sol_to_move` makes on `pool` when it goes ahead.
pub open spec fn swap_sol_to_move_plan(
    pool: LiquidityPool,
    accounts: SwapSolToMove,
    amount: u64,
    p: Pending,
) -> bool {
    &&& p.spec_transfers().len() == 2
    &&& p.spec_transfers()[0] == (Transfer {
        asset: Asset::Native,
        from: accounts.authority,
        to: pool.sol_account,
        authority: TransferAuthority::Signer(accounts.authority),
        amount,
    })
    &&& p.spec_transfers()[1].asset == Asset::Token
    &&& p.spec_transfers()[1].from == pool.move_token_account
    &&& p.spec_transfers()[1].to == accounts.destination
    &&& p.spec_transfers()[1].amount == amount * TOKENS_PER_NATIVE
    &&& p.spec_transfers()[1].authority matches TransferAuthority::Pool(a)
        && a.spec_pool() == accounts.liquidity_pool && a.spec_bump() == pool.bump
    &&& p.spec_next() == (LiquidityPool {
        sol_reserve: (pool.sol_reserve + amount) as u64,
        move_token_reserve: (pool.move_token_reserve - amount * TOKENS_PER_NATIVE) as u64,
        ..pool
    })
    &&& p.spec_prior() == pool
}

/// The net flow of a list of two transfers is the sum of their flows.
proof fn lemma_net_flow_pair(a: Transfer, b: Transfer, asset: Asset, account: AccountId)
    ensures
        net_flow(seq![a, b], asset, account) == crate::transfer::flow_of(a, asset, account)
            + crate::transfer::flow_of(b, asset, account),
{
    reveal_with_fuel(net_flow, 3);
    assert(seq![a, b].drop_last() =~= seq![a]);
    assert(seq![a].drop_last() =~= Seq::<Transfer>::empty());
}

/// The net flow of a single transfer is its flow.
proof fn lemma_net_flow_one(a: Transfer, asset: Asset, account: AccountId)
    ensures
        net_flow(seq![a], asset, account) == crate::transfer::flow_of(a, asset, account),
{
    reveal_with_fuel(net_flow, 2);
    assert(seq![a].drop_last() =~= Seq::<Transfer>::empty());
}

/// Creates a pool in an empty slot of storage, with both reserves at zero
/// and the pool running.
pub fn create_liquidity_pool(
    slot: &mut Option<LiquidityPool>,
    accounts: &CreateLiquidityPool,
    pool_nonce: u8,
    sol_account_nonce: u8,
) -> (r: Result<(), ErrorCode>)
    ensures
        (*old(slot)) is Some ==> r == Err::<(), ErrorCode>(ErrorCode::AlreadyInitialized),
        (*old(slot)) is None && !accounts.authority_is_signer ==> r == Err::<(), ErrorCode>(
            ErrorCode::Unauthorized,
        ),
        (*old(slot)) is None && accounts.authority_is_signer ==> r is Ok,
        r is Ok ==> *final(slot) == Some(initial_pool(*accounts, pool_nonce, sol_account_nonce)),
        r is Err ==> *final(slot) == *old(slot),
{
    if slot.is_some() {
        return Err(ErrorCode::AlreadyInitialized);
    }
    if !accounts.authority_is_signer {
        return Err(ErrorCode::Unauthorized);
    }
    *slot = Some(
        LiquidityPool {
            move_token: accounts.move_mint,
            sol_reserve: 0,
            sol_account: accounts.sol_account,
            move_token_account: accounts.move_token_account,
            move_token_reserve: 0,
            pool_authority: accounts.authority,
            bump: pool_nonce,
            sol_account_bump: sol_account_nonce,
            paused: false,
        },
    );
    Ok(())
}

/// Plans a deposit of `amount` native units from the depositor into the
/// pool's native account.
pub fn deposit_sol(pool: &LiquidityPool, accounts: &DepositSol, amount: u64) -> (r: Result<
    Pending,
    ErrorCode,
>)
    ensures
        match r {
            Err(e) => deposit_sol_error(*pool, *accounts, amount) == Some(e),
            Ok(p) => {
                &&& deposit_sol_error(*pool, *accounts, amount) is None
                &&& deposit_sol_plan(*pool, *accounts, amount, p)
                &&& conserves(*pool, p.spec_transfers(), p.spec_next())
            },
        },
{
    if pool.is_paused() {
        return Err(ErrorCode::PoolPaused);
    }
    if !accounts.authority_is_signer {
        return Err(ErrorCode::Unauthorized);
    }
    if !accounts.sol_account.same_as(&pool.sol_account) || accounts.authority.same_as(
        &pool.sol_account,
    ) {
        return Err(ErrorCode::AccountMismatch);
    }
    let sol_reserve = match pool.sol_reserve.checked_add(amount) {
        Some(v) => v,
        None => return Err(ErrorCode::ArithmeticOverflow),
    };
    let t = Transfer {
        asset: Asset::Native,
        from: accounts.authority,
        to: pool.sol_account,
        authority: TransferAuthority::Signer(accounts.authority),
        amount,
    };
    proof {
        lemma_net_flow_one(t, Asset::Native, pool.sol_account);
        lemma_net_flow_one(t, Asset::Token, pool.move_token_account);
    }
    let mut transfers: Vec<Transfer> = Vec::new();
    transfers.push(t);
    assert(transfers@ =~= seq![t]);
    Ok(Pending { prior: *pool, transfers, next: LiquidityPool { sol_reserve, ..*pool } })
}

/// Plans a swap of `amount` native units for `amount * 10` tokens: the
/// caller's native units go into the pool's native account, then the pool
/// signs the token payout from its token account to `destination`.
pub fn swap_sol_to_move(pool: &LiquidityPool, accounts: &SwapSolToMove, amount: u64) -> (r: Result<
    Pending,
    ErrorCode,
>)
    ensures
        match r {
            Err(e) => swap_sol_to_move_error(*pool, *accounts, amount) == Some(e),
            Ok(p) => {
                &&& swap_sol_to_move_error(*pool, *accounts, amount) is None
                &&& swap_sol_to_move_plan(*pool, *accounts, amount, p)
                &&& conserves(*pool, p.spec_transfers(), p.spec_next())
            },
        },
{
    if pool.is_paused() {
        return Err(ErrorCode::PoolPaused);
    }
    if !accounts.authority_is_signer {
        return Err(ErrorCode::Unauthorized);
    }
    if !accounts.sol_account.same_as(&pool.sol_account) || !accounts.move_token_account.same_as(
        &pool.move_token_account,
    ) || accounts.authority.same_as(&pool.sol_account) || accounts.destination.same_as(
        &pool.move_token_account,
    ) {
        return Err(ErrorCode::AccountMismatch);
    }
    let amount_of_move = match amount.checked_mul(TOKENS_PER_NATIVE) {
        Some(v) => v,
        None => return Err(ErrorCode::ArithmeticOverflow),
    };
    if !pool.has_sufficient_token(amount_of_move) {
        return Err(ErrorCode::InsufficientReserve);
    }
    let sol_reserve = match pool.sol_reserve.checked_add(amount) {
        Some(v) => v,
        None => return Err(ErrorCode::ArithmeticOverflow),
    };
    let move_token_reserve = pool.move_token_reserve - amount_of_move;
    let inbound = Transfer {
        asset: Asset::Native,
        from: accounts.authority,
        to: pool.sol_account,
        authority: TransferAuthority::Signer(accounts.authority),
        amount,
    };
    let payout = Transfer {
        asset: Asset::Token,
        from: pool.move_token_account,
        to: accounts.destination,
        authority: TransferAuthority::Pool(
            PoolSigningAuthority::new(accounts.liquidity_pool, pool.bump),
        ),
        amount: amount_of_move,
    };
    proof {
        lemma_net_flow_pair(inbound, payout, Asset::Native, pool.sol_account);
        lemma_net_flow_pair(inbound, payout, Asset::Token, pool.move_token_account);
    }
    let mut transfers: Vec<Transfer> = Vec::new();
    transfers.push(inbound);
    transfers.push(payout);
    assert(transfers@ =~= seq![inbound, payout]);
    Ok(Pending { prior: *pool, transfers, next: LiquidityPool { sol_reserve, move_token_reserve, ..*pool } })
}

/// Plans a swap of `amount` tokens for `amount / 10` native units: the
/// caller's tokens go into the pool's token account, then the payout is
/// taken directly from the pool's native account to `destination`.
pub fn swap_move_to_sol(pool: &LiquidityPool, accounts: &SwapMoveToSol, amount: u64) -> (r: Result<
    Pending,
    ErrorCode,
>)
    ensures
        match r {
            Err(e) => swap_move_to_sol_error(*pool, *accounts, amount) == Some(e),
            Ok(p) => {
                &&& swap_move_to_sol_error(*pool, *accounts, amount) is None
                &&& swap_move_to_sol_plan(*pool, *accounts, amount, p)
                &&& conserves(*pool, p.spec_transfers(), p.spec_next())
            },
        },
{
    if pool.is_paused() {
        return Err(ErrorCode::PoolPaused);
    }
    if !accounts.authority_is_signer || !accounts.from_move_token_account_owner.same_as(
        &accounts.authority,
    ) {
        return Err(ErrorCode::Unauthorized);
    }
    if !accounts.sol_account.same_as(&pool.sol_account) || !accounts.move_token_account.same_as(
        &pool.move_token_account,
    ) || accounts.from_move_token_account.same_as(&pool.move_token_account)
        || accounts.destination.same_as(&pool.sol_account) {
        return Err(ErrorCode::AccountMismatch);
    }
    let amount_of_sol = amount / TOKENS_PER_NATIVE;
    if !pool.has_sufficient_native(amount_of_sol) {
        return Err(ErrorCode::InsufficientReserve);
    }
    let move_token_reserve = match pool.move_token_reserve.checked_add(amount) {
        Some(v) => v,
        None => return Err(ErrorCode::ArithmeticOverflow),
    };
    let sol_reserve = pool.sol_reserve - amount_of_sol;
    let inbound = Transfer {
        asset: Asset::Token,
        from: accounts.from_move_token_account,
        to: pool.move_token_account,
        authority: TransferAuthority::Signer(accounts.authority),
        amount,
    };
    let payout = Transfer {
        asset: Asset::Native,
        from: pool.sol_account,
        to: accounts.destination,
        authority: TransferAuthority::ProgramOwned,
        amount: amount_of_sol,
    };
    proof {
        lemma_net_flow_pair(inbound, payout, Asset::Native, pool.sol_account);
        lemma_net_flow_pair(inbound, payout, Asset::Token, pool.move_token_account);
    }
    let mut transfers: Vec<Transfer> = Vec::new();
    transfers.push(inbound);
    transfers.push(payout);
    assert(transfers@ =~= seq![inbound, payout]);
    Ok(Pending { prior: *pool, transfers, next: LiquidityPool { sol_reserve, move_token_reserve, ..*pool } })
}

/// Plans a deposit of `amount` tokens from the depositor's token account
/// into the pool's token account.
pub fn deposit_move(pool: &LiquidityPool, accounts: &DepositMoveToken, amount: u64) -> (r: Result<
    Pending,
    ErrorCode,
>)
    ensures
        match r {
            Err(e) => deposit_move_error(*pool, *accounts, amount) == Some(e),
            Ok(p) => {
                &&& deposit_move_error(*pool, *accounts, amount) is None
                &&& deposit_move_plan(*pool, *accounts, amount, p)
                &&& conserves(*pool, p.spec_transfers(), p.spec_next())
            },
        },
{
    if pool.is_paused() {
        return Err(ErrorCode::PoolPaused);
    }
    if !accounts.authority_is_signer || !accounts.from_move_owner.same_as(&accounts.authority) {
        return Err(ErrorCode::Unauthorized);
    }
    if !accounts.move_token_account.same_as(&pool.move_token_account) || accounts.from_move.same_as(
        &pool.move_token_account,
    ) {
        return Err(ErrorCode::AccountMismatch);
    }
    let move_token_reserve = match pool.move_token_reserve.checked_add(amount) {
        Some(v) => v,
        None => return Err(ErrorCode::ArithmeticOverflow),
    };
    let t = Transfer {
        asset: Asset::Token,
        from: accounts.from_move,
        to: pool.move_token_account,
        authority: TransferAuthority::Signer(accounts.authority),
        amount,
    };
    proof {
        lemma_net_flow_one(t, Asset::Native, pool.sol_account);
        lemma_net_flow_one(t, Asset::Token, pool.move_token_account);
    }
    let mut transfers: Vec<Transfer> = Vec::new();
    transfers.push(t);
    assert(transfers@ =~= seq![t]);
    Ok(Pending { prior: *pool, transfers, next: LiquidityPool { move_token_reserve, ..*pool } })
}

/// Stores the record a deposit or swap planned, once its transfers are done.
/// Where a transfer was rejected the operation aborts and the record stays
/// exactly as it was; so it does where the plan was made against another
/// record than the one held now.
pub fn settle(pool: &mut LiquidityPool, pending: Pending, outcome: Result<(), TransferError>) -> (r:
    Result<(), ErrorCode>)
    ensures
        *old(pool) != pending.spec_prior() ==> r == Err::<(), ErrorCode>(ErrorCode::AccountMismatch)
            && *final(pool) == *old(pool),
        *old(pool) == pending.spec_prior() ==> match outcome {
            Ok(()) => r is Ok && *final(pool) == pending.spec_next(),
            Err(e) => r == Err::<(), ErrorCode>(ErrorCode::TransferFailed(e)) && *final(pool)
                == *old(pool),
        },
{
    if !pool.same_record(&pending.prior) {
        return Err(ErrorCode::AccountMismatch);
    }
    match outcome {
        Ok(()) => {
            *pool = pending.next;
            Ok(())
        },
        Err(e) => Err(ErrorCode::TransferFailed(e)),
    }
}

/// Stops all deposits and swaps on the pool. Only its authority may.
pub fn pause_liquidity_pool(pool: &mut LiquidityPool, accounts: &PauseLiquidityPool) -> (r: Result<
    (),
    ErrorCode,
>)
    ensures
        match authority_error(*old(pool), accounts.authority, accounts.authority_is_signer) {
            Some(e) => r == Err::<(), ErrorCode>(e) && *final(pool) == *old(pool),
            None => r is Ok && *final(pool) == (LiquidityPool { paused: true, ..*old(pool) }),
        },
{
    if !accounts.authority_is_signer || !pool.is_authority(&accounts.authority) {
        return Err(ErrorCode::Unauthorized);
    }
    pool.paused = true;
    Ok(())
}

/// Lets deposits and swaps run on the pool again. Only its authority may.
pub fn unpause_liquidity_pool(pool: &mut LiquidityPool, accounts: &UnpauseLiquidityPool) -> (r:
    Result<(), ErrorCode>)
    ensures
        match authority_error(*old(pool), accounts.authority, accounts.authority_is_signer) {
            Some(e) => r == Err::<(), ErrorCode>(e) && *final(pool) == *old(pool),
            None => r is Ok && *final(pool) == (LiquidityPool { paused: false, ..*old(pool) }),
        },
{
    if !accounts.authority_is_signer || !pool.is_authority(&accounts.authority) {
        return Err(ErrorCode::Unauthorized);
    }
    pool.paused = false;
    Ok(())
}

} // verus!
