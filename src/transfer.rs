use vstd::prelude::*;

use crate::account::AccountId;

verus! {

/// The two assets a pool holds.
#[derive(Clone, Copy, Debug, PartialEq, Eq)]
pub enum Asset {
    Native,
    Token,
}

/// Proof that the pool itself authorizes a movement out of its token
/// account: the pool's identity and the salt its signing address is derived
/// with. Only the pool operations build one, from the stored salt.
#[derive(Clone, Copy, Debug, PartialEq, Eq)]
pub struct PoolSigningAuthority {
    pool: AccountId,
    bump: u8,
}

impl PoolSigningAuthority {
    pub closed spec fn spec_pool(&self) -> AccountId {
        self.pool
    }

    pub closed spec fn spec_bump(&self) -> u8 {
        self.bump
    }

    pub(crate) fn new(pool: AccountId, bump: u8) -> (r: PoolSigningAuthority)
        ensures
            r.spec_pool() == pool,
            r.spec_bump() == bump,
    {
        PoolSigningAuthority { pool, bump }
    }

    /// The pool whose signing address this is.
    pub fn pool(&self) -> (r: AccountId)
        ensures
            r == self.spec_pool(),
    {
        self.pool
    }

    /// The salt the signing address is derived with.
    pub fn bump(&self) -> (r: u8)
        ensures
            r == self.spec_bump(),
    {
        self.bump
    }
}

/// Who authorizes a transfer.
#[derive(Clone, Copy, Debug, PartialEq, Eq)]
pub enum TransferAuthority {
    /// A signer of the current operation.
    Signer(AccountId),
    /// The pool, through its derived signing address.
    Pool(PoolSigningAuthority),
    /// Nobody: the source is owned by this program, whose balance is
    /// adjusted directly.
    ProgramOwned,
}

/// One movement of value that an operation asks for.
#[derive(Clone, Copy, Debug, PartialEq, Eq)]
pub struct Transfer {
    pub asset: Asset,
    pub from: AccountId,
    pub to: AccountId,
    pub authority: TransferAuthority,
    pub amount: u64,
}

/// What one transfer does to the balance of `asset` held by `account`.
pub open spec fn flow_of(t: Transfer, asset: Asset, account: AccountId) -> int {
    if t.asset != asset {
        0
    } else {
        (if t.to == account { t.amount as int } else { 0 }) - (if t.from == account {
            t.amount as int
        } else {
            0
        })
    }
}

/// What a list of transfers does, in all, to the balance of `asset` held by
/// `account`.
pub open spec fn net_flow(ts: Seq<Transfer>, asset: Asset, account: AccountId) -> int
    decreases ts.len(),
{
    if ts.len() == 0 {
        0
    } else {
        net_flow(ts.drop_last(), asset, account) + flow_of(ts.last(), asset, account)
    }
}

/// Moves `amount` directly from a program-owned balance to another balance,
/// as a swap's native payout does. `None` where the source holds too little
/// or the destination would leave the 64-bit range.
pub fn adjust_balances(from_balance: u64, to_balance: u64, amount: u64) -> (r: Option<(u64, u64)>)
    ensures
        r is Some <==> (amount <= from_balance && to_balance + amount <= u64::MAX),
        r matches Some((f, t)) ==> f == from_balance - amount && t == to_balance + amount,
{
    if amount > from_balance {
        return None;
    }
    match to_balance.checked_add(amount) {
        Some(t) => Some((from_balance - amount, t)),
        None => None,
    }
}

} // verus!
