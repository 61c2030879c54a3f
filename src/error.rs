use vstd::prelude::*;

verus! {

/// The reason an outside transfer was rejected, carried through unread.
#[derive(Clone, Copy, Debug, PartialEq, Eq)]
pub struct TransferError {
    pub code: u64,
}

/// Why a pool operation failed. Every failure aborts the whole operation.
#[derive(Clone, Copy, Debug, PartialEq, Eq)]
pub enum ErrorCode {
    /// The pool's storage already holds a record.
    AlreadyInitialized,
    /// A deposit or swap was attempted while the pool is paused.
    PoolPaused,
    /// The caller is not the pool's authority, or did not sign.
    Unauthorized,
    /// A swap would take more of a reserve than the pool holds.
    InsufficientReserve,
    /// A ratio computation would leave the 64-bit range.
    ArithmeticOverflow,
    /// An outside transfer rejected the movement.
    TransferFailed(TransferError),
    /// A presented account is not the one the pool record names.
    AccountMismatch,
}

} // verus!
