//! Error kinds surfaced by the settlement engine.
//!
//! Every precondition violation aborts the whole operation before any
//! mutation; each failure surfaces a distinct, named kind.

use vstd::prelude::*;

verus! {

/// Failure kinds of the settlement operations.
#[derive(Clone, Copy, Debug, PartialEq, Eq, Structural)]
pub enum Error {
    /// Malformed creation inputs: freeze/expiry ordering, an unknown
    /// comparator code, or an oversized reference string.
    InvalidParameters,
    /// A bet named a side code that is neither "for" nor "against".
    InvalidSide,
    /// A bet arrived after the freeze or expiry time, or while the game
    /// was no longer running.
    BettingClosed,
    /// Resolution was attempted before the expiry time.
    NotYetExpired,
    /// Resolution was attempted on a game that already left the running
    /// state; a game resolves at most once.
    AlreadyResolved,
    /// A checked sum or product overflowed during bet accounting or
    /// payout computation.
    ArithmeticOverflow,
    /// The winning side holds no stake, so a pro-rata payout would divide
    /// by zero.
    NoWinningStake,
    /// The game is unresolved, the position belongs to another game, or
    /// the position sits on the losing side.
    NotWithdrawable,
    /// The position was already paid out once; each position settles at
    /// most once.
    AlreadySettled,
    /// The external value-transfer capability failed; the operation that
    /// triggered it was aborted with no state mutated.
    TransferFailure,
    /// The external price oracle failed; resolution was aborted with no
    /// state mutated.
    OracleFailure,
}

} // verus!
