use vstd::prelude::*;

use crate::account::AccountId;
use crate::accounts::{DepositMoveToken, DepositSol, SwapMoveToSol, SwapSolToMove};
use crate::controller::{
    authority_error, conserves, deposit_move_error, deposit_sol_error, swap_move_to_sol_error,
    swap_sol_to_move_error,
};
use crate::error::ErrorCode;
use crate::pool::LiquidityPool;
use crate::transfer::{net_flow, Asset, Transfer};

verus! {

/// What a run of transfer batches does, in all, to the balance of `asset`
/// held by `account`.
pub open spec fn total_flow(batches: Seq<Seq<Transfer>>, asset: Asset, account: AccountId) -> int
    decreases batches.len(),
{
    if batches.len() == 0 {
        0
    } else {
        total_flow(batches.drop_last(), asset, account) + net_flow(batches.last(), asset, account)
    }
}

/// Reserves follow custody balances. Take a run of committed deposits and
/// swaps: `records[i + 1]` is the record stored after the operation that
/// issued `batches[i]` (every such plan satisfies `conserves`, as the
/// contracts of the deposits and swaps state). Then each reserve ends at its
/// start plus the net inflow of its asset over the whole run, the pool's
/// identities never change, and where the reserves matched the custody
/// balances at the start, they match them after every operation.
pub proof fn reserves_track_custody(
    records: Seq<LiquidityPool>,
    batches: Seq<Seq<Transfer>>,
    sol_balances: Seq<int>,
    token_balances: Seq<int>,
)
    requires
        records.len() == batches.len() + 1,
        sol_balances.len() == records.len(),
        token_balances.len() == records.len(),
        forall|i: int|
            0 <= i < batches.len() ==> conserves(#[trigger] records[i], batches[i], records[i + 1]),
        sol_balances[0] == records[0].sol_reserve,
        token_balances[0] == records[0].move_token_reserve,
        forall|i: int|
            0 <= i < batches.len() ==> #[trigger] sol_balances[i + 1] == sol_balances[i] + net_flow(
                batches[i],
                Asset::Native,
                records[0].sol_account,
            ),
        forall|i: int|
            0 <= i < batches.len() ==> #[trigger] token_balances[i + 1] == token_balances[i]
                + net_flow(batches[i], Asset::Token, records[0].move_token_account),
    ensures
        records.last().sol_reserve == records[0].sol_reserve + total_flow(
            batches,
            Asset::Native,
            records[0].sol_account,
        ),
        records.last().move_token_reserve == records[0].move_token_reserve + total_flow(
            batches,
            Asset::Token,
            records[0].move_token_account,
        ),
        forall|i: int|
            0 <= i < records.len() ==> {
                &&& (#[trigger] records[i]).same_identity(&records[0])
                &&& records[i].sol_reserve == sol_balances[i]
                &&& records[i].move_token_reserve == token_balances[i]
            },
    decreases batches.len(),
{
    if batches.len() > 0 {
        let n = batches.len() - 1;
        reserves_track_custody(
            records.drop_last(),
            batches.drop_last(),
            sol_balances.drop_last(),
            token_balances.drop_last(),
        );
        assert(conserves(records[n], batches[n], records[n + 1]));
        assert(records[n].same_identity(&records[0]));
        assert forall|i: int| 0 <= i < records.len() implies {
            &&& (#[trigger] records[i]).same_identity(&records[0])
            &&& records[i].sol_reserve == sol_balances[i]
            &&& records[i].move_token_reserve == token_balances[i]
        } by {
            if i < n + 1 {
                assert(records[i] == records.drop_last()[i]);
            }
        }
    }
}

/// The pause gate. Pausing and unpausing are allowed exactly to the pool's
/// authority when it signs. Once a pause has gone through, every deposit and
/// swap is refused with `PoolPaused`, whatever the accounts and the amount,
/// so none of them moves a reserve.
pub proof fn pause_gate(before: LiquidityPool, caller: AccountId, caller_signed: bool)
    ensures
        authority_error(before, caller, caller_signed) is None <==> (caller_signed && caller
            == before.pool_authority),
        authority_error(before, caller, caller_signed) is Some ==> authority_error(
            before,
            caller,
            caller_signed,
        ) == Some(ErrorCode::Unauthorized),
        ({
            let paused = LiquidityPool { paused: true, ..before };
            &&& forall|a: DepositSol, amount: u64| #[trigger]
                deposit_sol_error(paused, a, amount) == Some(ErrorCode::PoolPaused)
            &&& forall|a: DepositMoveToken, amount: u64| #[trigger]
                deposit_move_error(paused, a, amount) == Some(ErrorCode::PoolPaused)
            &&& forall|a: SwapMoveToSol, amount: u64| #[trigger]
                swap_move_to_sol_error(paused, a, amount) == Some(ErrorCode::PoolPaused)
            &&& forall|a: SwapSolToMove, amount: u64| #[trigger]
                swap_sol_to_move_error(paused, a, amount) == Some(ErrorCode::PoolPaused)
        }),
{
}

} // verus!
