use std::collections::HashMap;

use solana_swap::account::AccountId;
use solana_swap::accounts::{
    CreateLiquidityPool, DepositMoveToken, DepositSol, PauseLiquidityPool, SwapMoveToSol,
    SwapSolToMove, UnpauseLiquidityPool,
};
use solana_swap::controller::{
    create_liquidity_pool, deposit_move, deposit_sol, pause_liquidity_pool, settle,
    swap_move_to_sol, swap_sol_to_move, unpause_liquidity_pool, Pending,
};
use solana_swap::error::{ErrorCode, TransferError};
use solana_swap::pool::LiquidityPool;
use solana_swap::store::PoolStore;
use solana_swap::transfer::{adjust_balances, Asset, Transfer, TransferAuthority};

fn id(n: u8) -> AccountId {
    AccountId::new([n; 32])
}

const POOL: u8 = 1;
const AUTHORITY: u8 = 2;
const MINT: u8 = 3;
const SOL_ACCOUNT: u8 = 4;
const TOKEN_ACCOUNT: u8 = 5;
const USER: u8 = 6;
const USER_TOKENS: u8 = 7;

fn new_pool() -> LiquidityPool {
    let mut slot = None;
    let accounts = CreateLiquidityPool {
        authority: id(AUTHORITY),
        authority_is_signer: true,
        move_mint: id(MINT),
        sol_account: id(SOL_ACCOUNT),
        move_token_account: id(TOKEN_ACCOUNT),
    };
    assert_eq!(create_liquidity_pool(&mut slot, &accounts, 1, 2), Ok(()));
    slot.unwrap()
}

fn deposit_sol_accounts() -> DepositSol {
    DepositSol { authority: id(USER), authority_is_signer: true, sol_account: id(SOL_ACCOUNT) }
}

fn deposit_move_accounts() -> DepositMoveToken {
    DepositMoveToken {
        authority: id(USER),
        authority_is_signer: true,
        move_token_account: id(TOKEN_ACCOUNT),
        from_move: id(USER_TOKENS),
        from_move_owner: id(USER),
    }
}

fn move_to_sol_accounts() -> SwapMoveToSol {
    SwapMoveToSol {
        authority: id(USER),
        authority_is_signer: true,
        sol_account: id(SOL_ACCOUNT),
        move_token_account: id(TOKEN_ACCOUNT),
        from_move_token_account: id(USER_TOKENS),
        from_move_token_account_owner: id(USER),
        destination: id(USER),
    }
}

fn sol_to_move_accounts() -> SwapSolToMove {
    SwapSolToMove {
        liquidity_pool: id(POOL),
        authority: id(USER),
        authority_is_signer: true,
        sol_account: id(SOL_ACCOUNT),
        move_token_account: id(TOKEN_ACCOUNT),
        destination: id(USER_TOKENS),
    }
}

fn commit(pool: &mut LiquidityPool, pending: Result<Pending, ErrorCode>) {
    let pending = pending.unwrap();
    assert_eq!(settle(pool, pending, Ok(())), Ok(()));
}

fn funded_pool(native: u64, tokens: u64) -> LiquidityPool {
    let mut pool = new_pool();
    let plan = deposit_sol(&pool, &deposit_sol_accounts(), native);
    commit(&mut pool, plan);
    let plan = deposit_move(&pool, &deposit_move_accounts(), tokens);
    commit(&mut pool, plan);
    pool
}

/// Balances of (asset, account) after carrying out transfers.
fn apply(ledger: &mut HashMap<(bool, [u8; 32]), i128>, transfers: &Vec<Transfer>) {
    for t in transfers {
        let native = t.asset == Asset::Native;
        *ledger.entry((native, t.from.bytes)).or_insert(0) -= t.amount as i128;
        *ledger.entry((native, t.to.bytes)).or_insert(0) += t.amount as i128;
    }
}

#[test]
fn create_then_deposit() {
    let mut pool = new_pool();
    assert_eq!(pool.bump, 1);
    assert_eq!(pool.sol_account_bump, 2);
    assert_eq!(pool.sol_reserve, 0);
    assert_eq!(pool.move_token_reserve, 0);
    assert!(!pool.paused);
    assert_eq!(pool.pool_authority, id(AUTHORITY));
    assert_eq!(pool.move_token, id(MINT));
    let plan = deposit_sol(&pool, &deposit_sol_accounts(), 1_000_000);
    commit(&mut pool, plan);
    assert_eq!(pool.sol_reserve, 1_000_000);
    let plan = deposit_move(&pool, &deposit_move_accounts(), 5_000_000);
    commit(&mut pool, plan);
    assert_eq!(pool.move_token_reserve, 5_000_000);
    assert_eq!(pool.sol_reserve, 1_000_000);
}

#[test]
fn create_twice_is_refused() {
    let mut slot = Some(new_pool());
    let before = slot;
    let accounts = CreateLiquidityPool {
        authority: id(9),
        authority_is_signer: true,
        move_mint: id(MINT),
        sol_account: id(SOL_ACCOUNT),
        move_token_account: id(TOKEN_ACCOUNT),
    };
    assert_eq!(
        create_liquidity_pool(&mut slot, &accounts, 7, 8),
        Err(ErrorCode::AlreadyInitialized)
    );
    assert_eq!(slot, before);
}

#[test]
fn create_without_signature_is_refused() {
    let mut slot = None;
    let accounts = CreateLiquidityPool {
        authority: id(AUTHORITY),
        authority_is_signer: false,
        move_mint: id(MINT),
        sol_account: id(SOL_ACCOUNT),
        move_token_account: id(TOKEN_ACCOUNT),
    };
    assert_eq!(create_liquidity_pool(&mut slot, &accounts, 1, 2), Err(ErrorCode::Unauthorized));
    assert_eq!(slot, None);
}

#[test]
fn swap_with_insufficient_reserve() {
    let pool = funded_pool(5, 0);
    assert_eq!(pool.sol_reserve, 5);
    let r = swap_move_to_sol(&pool, &move_to_sol_accounts(), 1000);
    assert_eq!(r.unwrap_err(), ErrorCode::InsufficientReserve);
    assert_eq!(pool.sol_reserve, 5);
    assert_eq!(pool.move_token_reserve, 0);
}

#[test]
fn round_trip() {
    let mut pool = funded_pool(100, 0);
    let pending = swap_move_to_sol(&pool, &move_to_sol_accounts(), 1000).unwrap();
    let payout = pending.transfers()[1];
    assert_eq!(payout.asset, Asset::Native);
    assert_eq!(payout.to, id(USER));
    assert_eq!(payout.amount, 100);
    assert_eq!(payout.authority, TransferAuthority::ProgramOwned);
    assert_eq!(settle(&mut pool, pending, Ok(())), Ok(()));
    assert_eq!(pool.sol_reserve, 0);
    assert_eq!(pool.move_token_reserve, 1000);

    let pending = swap_sol_to_move(&pool, &sol_to_move_accounts(), 100).unwrap();
    let payout = pending.transfers()[1];
    assert_eq!(payout.asset, Asset::Token);
    assert_eq!(payout.from, id(TOKEN_ACCOUNT));
    assert_eq!(payout.to, id(USER_TOKENS));
    assert_eq!(payout.amount, 1000);
    match payout.authority {
        TransferAuthority::Pool(a) => {
            assert_eq!(a.pool(), id(POOL));
            assert_eq!(a.bump(), 1);
        }
        other => panic!("unexpected authority {:?}", other),
    }
    assert_eq!(settle(&mut pool, pending, Ok(())), Ok(()));
    assert_eq!(pool.sol_reserve, 100);
    assert_eq!(pool.move_token_reserve, 0);
}

#[test]
fn price_rounds_down() {
    let mut pool = funded_pool(50, 0);
    let pending = swap_move_to_sol(&pool, &move_to_sol_accounts(), 19).unwrap();
    assert_eq!(pending.transfers()[0].amount, 19);
    assert_eq!(pending.transfers()[1].amount, 1);
    assert_eq!(settle(&mut pool, pending, Ok(())), Ok(()));
    assert_eq!(pool.sol_reserve, 49);
    assert_eq!(pool.move_token_reserve, 19);
}

#[test]
fn zero_swaps_succeed() {
    let mut pool = new_pool();
    let plan = swap_move_to_sol(&pool, &move_to_sol_accounts(), 0);
    commit(&mut pool, plan);
    let plan = swap_sol_to_move(&pool, &sol_to_move_accounts(), 0);
    commit(&mut pool, plan);
    assert_eq!(pool.sol_reserve, 0);
    assert_eq!(pool.move_token_reserve, 0);
}

#[test]
fn native_for_token_overflow_is_refused() {
    let pool = funded_pool(0, u64::MAX);
    let r = swap_sol_to_move(&pool, &sol_to_move_accounts(), u64::MAX / 10 + 1);
    assert_eq!(r.unwrap_err(), ErrorCode::ArithmeticOverflow);
    let pending = swap_sol_to_move(&pool, &sol_to_move_accounts(), u64::MAX / 10).unwrap();
    assert_eq!(pending.transfers()[1].amount, u64::MAX / 10 * 10);
    assert_eq!(pending.next().move_token_reserve, u64::MAX - u64::MAX / 10 * 10);
}

#[test]
fn native_for_token_with_insufficient_reserve() {
    let pool = funded_pool(0, 999);
    let r = swap_sol_to_move(&pool, &sol_to_move_accounts(), 100);
    assert_eq!(r.unwrap_err(), ErrorCode::InsufficientReserve);
}

#[test]
fn deposit_overflow_is_refused() {
    let pool = funded_pool(u64::MAX, u64::MAX);
    assert_eq!(
        deposit_sol(&pool, &deposit_sol_accounts(), 1).unwrap_err(),
        ErrorCode::ArithmeticOverflow
    );
    assert_eq!(
        deposit_move(&pool, &deposit_move_accounts(), 1).unwrap_err(),
        ErrorCode::ArithmeticOverflow
    );
    assert_eq!(
        swap_move_to_sol(&pool, &move_to_sol_accounts(), 1).unwrap_err(),
        ErrorCode::ArithmeticOverflow
    );
}

#[test]
fn failed_transfer_leaves_record_unchanged() {
    let mut pool = funded_pool(500, 0);
    let before = pool;
    let pending = swap_move_to_sol(&pool, &move_to_sol_accounts(), 1000).unwrap();
    let e = TransferError { code: 17 };
    assert_eq!(settle(&mut pool, pending, Err(e)), Err(ErrorCode::TransferFailed(e)));
    assert_eq!(pool, before);
}

#[test]
fn stale_plan_is_refused() {
    let mut pool = funded_pool(500, 500);
    let first = deposit_sol(&pool, &deposit_sol_accounts(), 10).unwrap();
    let second = deposit_move(&pool, &deposit_move_accounts(), 20).unwrap();
    assert_eq!(settle(&mut pool, first, Ok(())), Ok(()));
    let before = pool;
    assert_eq!(settle(&mut pool, second, Ok(())), Err(ErrorCode::AccountMismatch));
    assert_eq!(pool, before);
    assert_eq!(pool.sol_reserve, 510);
    assert_eq!(pool.move_token_reserve, 500);
}

#[test]
fn pause_gate() {
    let mut pool = funded_pool(1000, 1000);
    let stranger = PauseLiquidityPool { authority: id(USER), authority_is_signer: true };
    assert_eq!(pause_liquidity_pool(&mut pool, &stranger), Err(ErrorCode::Unauthorized));
    assert!(!pool.paused);
    let unsigned = PauseLiquidityPool { authority: id(AUTHORITY), authority_is_signer: false };
    assert_eq!(pause_liquidity_pool(&mut pool, &unsigned), Err(ErrorCode::Unauthorized));
    let owner = PauseLiquidityPool { authority: id(AUTHORITY), authority_is_signer: true };
    assert_eq!(pause_liquidity_pool(&mut pool, &owner), Ok(()));
    assert!(pool.is_paused());
    let before = pool;
    assert_eq!(deposit_sol(&pool, &deposit_sol_accounts(), 1).unwrap_err(), ErrorCode::PoolPaused);
    assert_eq!(deposit_move(&pool, &deposit_move_accounts(), 1).unwrap_err(), ErrorCode::PoolPaused);
    assert_eq!(
        swap_move_to_sol(&pool, &move_to_sol_accounts(), 10).unwrap_err(),
        ErrorCode::PoolPaused
    );
    assert_eq!(
        swap_sol_to_move(&pool, &sol_to_move_accounts(), 1).unwrap_err(),
        ErrorCode::PoolPaused
    );
    assert_eq!(pool, before);
    let stranger = UnpauseLiquidityPool { authority: id(USER), authority_is_signer: true };
    assert_eq!(unpause_liquidity_pool(&mut pool, &stranger), Err(ErrorCode::Unauthorized));
    assert!(pool.paused);
    let owner = UnpauseLiquidityPool { authority: id(AUTHORITY), authority_is_signer: true };
    assert_eq!(unpause_liquidity_pool(&mut pool, &owner), Ok(()));
    assert!(!pool.paused);
    let plan = deposit_sol(&pool, &deposit_sol_accounts(), 1);
    commit(&mut pool, plan);
    assert_eq!(pool.sol_reserve, 1001);
}

#[test]
fn wrong_accounts_are_refused() {
    let pool = funded_pool(1000, 1000);
    let mut a = deposit_sol_accounts();
    a.sol_account = id(99);
    assert_eq!(deposit_sol(&pool, &a, 1).unwrap_err(), ErrorCode::AccountMismatch);
    let mut a = deposit_move_accounts();
    a.move_token_account = id(99);
    assert_eq!(deposit_move(&pool, &a, 1).unwrap_err(), ErrorCode::AccountMismatch);
    let mut a = move_to_sol_accounts();
    a.destination = id(SOL_ACCOUNT);
    assert_eq!(swap_move_to_sol(&pool, &a, 10).unwrap_err(), ErrorCode::AccountMismatch);
    let mut a = sol_to_move_accounts();
    a.destination = id(TOKEN_ACCOUNT);
    assert_eq!(swap_sol_to_move(&pool, &a, 1).unwrap_err(), ErrorCode::AccountMismatch);
}

#[test]
fn missing_consent_is_refused() {
    let pool = funded_pool(1000, 1000);
    let mut a = deposit_sol_accounts();
    a.authority_is_signer = false;
    assert_eq!(deposit_sol(&pool, &a, 1).unwrap_err(), ErrorCode::Unauthorized);
    let mut a = deposit_move_accounts();
    a.from_move_owner = id(98);
    assert_eq!(deposit_move(&pool, &a, 1).unwrap_err(), ErrorCode::Unauthorized);
    let mut a = move_to_sol_accounts();
    a.from_move_token_account_owner = id(98);
    assert_eq!(swap_move_to_sol(&pool, &a, 10).unwrap_err(), ErrorCode::Unauthorized);
    let mut a = sol_to_move_accounts();
    a.authority_is_signer = false;
    assert_eq!(swap_sol_to_move(&pool, &a, 1).unwrap_err(), ErrorCode::Unauthorized);
}

#[test]
fn reserves_match_custody_balances() {
    let mut pool = new_pool();
    let mut ledger: HashMap<(bool, [u8; 32]), i128> = HashMap::new();
    for round in 0..4u64 {
        let plan = deposit_sol(&pool, &deposit_sol_accounts(), 300 + round).unwrap();
        apply(&mut ledger, plan.transfers());
        settle(&mut pool, plan, Ok(())).unwrap();
        let plan = deposit_move(&pool, &deposit_move_accounts(), 2000).unwrap();
        apply(&mut ledger, plan.transfers());
        settle(&mut pool, plan, Ok(())).unwrap();
        let plan = swap_move_to_sol(&pool, &move_to_sol_accounts(), 1234).unwrap();
        apply(&mut ledger, plan.transfers());
        settle(&mut pool, plan, Ok(())).unwrap();
        let plan = swap_sol_to_move(&pool, &sol_to_move_accounts(), 77).unwrap();
        apply(&mut ledger, plan.transfers());
        settle(&mut pool, plan, Ok(())).unwrap();
        assert_eq!(ledger[&(true, [SOL_ACCOUNT; 32])], pool.sol_reserve as i128);
        assert_eq!(ledger[&(false, [TOKEN_ACCOUNT; 32])], pool.move_token_reserve as i128);
    }
    assert_eq!(pool.sol_reserve, 4 * 300 + 6 - 4 * 123 + 4 * 77);
    assert_eq!(pool.move_token_reserve, 4 * 2000 + 4 * 1234 - 4 * 770);
}

#[test]
fn direct_balance_adjustment() {
    assert_eq!(adjust_balances(100, 5, 30), Some((70, 35)));
    assert_eq!(adjust_balances(100, 5, 100), Some((0, 105)));
    assert_eq!(adjust_balances(100, 5, 101), None);
    assert_eq!(adjust_balances(100, u64::MAX, 1), None);
}

#[test]
fn account_identity_comparison() {
    let mut b = [3u8; 32];
    assert!(id(3).same_as(&AccountId::new(b)));
    b[31] = 4;
    assert!(!id(3).same_as(&AccountId::new(b)));
    let pool = new_pool();
    assert!(pool.is_authority(&id(AUTHORITY)));
    assert!(!pool.is_authority(&id(USER)));
    assert!(pool.has_sufficient_native(0));
    assert!(!pool.has_sufficient_native(1));
    assert!(!pool.has_sufficient_token(1));
}

#[test]
fn store_keeps_pools_apart() {
    let create = CreateLiquidityPool {
        authority: id(AUTHORITY),
        authority_is_signer: true,
        move_mint: id(MINT),
        sol_account: id(SOL_ACCOUNT),
        move_token_account: id(TOKEN_ACCOUNT),
    };
    let mut store = PoolStore::new();
    assert_eq!(store.get(1), None);
    assert_eq!(store.create_liquidity_pool(1, &create, 1, 2), Ok(()));
    assert_eq!(store.create_liquidity_pool(1, &create, 3, 4), Err(ErrorCode::AlreadyInitialized));
    assert_eq!(store.create_liquidity_pool(2, &create, 5, 6), Ok(()));
    assert_eq!(store.get(1).unwrap().bump, 1);
    assert_eq!(store.get(2).unwrap().bump, 5);

    let plan = store.deposit_sol(1, &deposit_sol_accounts(), 1_000_000).unwrap();
    assert_eq!(store.settle(1, plan, Ok(())), Ok(()));
    assert_eq!(store.get(1).unwrap().sol_reserve, 1_000_000);
    assert_eq!(store.get(2).unwrap().sol_reserve, 0);

    let plan = store.deposit_move(2, &deposit_move_accounts(), 5_000_000).unwrap();
    assert_eq!(store.settle(2, plan, Ok(())), Ok(()));
    assert_eq!(store.get(2).unwrap().move_token_reserve, 5_000_000);
    assert_eq!(store.get(1).unwrap().move_token_reserve, 0);

    let plan = store.swap_sol_to_move(2, &sol_to_move_accounts(), 10).unwrap();
    assert_eq!(plan.transfers()[1].amount, 100);
    let e = TransferError { code: 3 };
    assert_eq!(store.settle(2, plan, Err(e)), Err(ErrorCode::TransferFailed(e)));
    assert_eq!(store.get(2).unwrap().move_token_reserve, 5_000_000);

    let plan = store.swap_move_to_sol(1, &move_to_sol_accounts(), 1000).unwrap();
    assert_eq!(store.settle(1, plan, Ok(())), Ok(()));
    assert_eq!(store.get(1).unwrap().sol_reserve, 999_900);

    let owner = PauseLiquidityPool { authority: id(AUTHORITY), authority_is_signer: true };
    assert_eq!(store.pause_liquidity_pool(1, &owner), Ok(()));
    assert!(store.get(1).unwrap().paused);
    assert!(!store.get(2).unwrap().paused);
    assert_eq!(
        store.deposit_sol(1, &deposit_sol_accounts(), 1).unwrap_err(),
        ErrorCode::PoolPaused
    );
    let owner = UnpauseLiquidityPool { authority: id(AUTHORITY), authority_is_signer: true };
    assert_eq!(store.unpause_liquidity_pool(1, &owner), Ok(()));
    assert!(!store.get(1).unwrap().paused);

    assert_eq!(
        store.deposit_sol(9, &deposit_sol_accounts(), 1).unwrap_err(),
        ErrorCode::AccountMismatch
    );
    assert_eq!(store.pause_liquidity_pool(9, &PauseLiquidityPool {
        authority: id(AUTHORITY),
        authority_is_signer: true,
    }), Err(ErrorCode::AccountMismatch));
}
