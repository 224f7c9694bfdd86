//! Data model of the betting market: games, positions, sides, comparators,
//! and game states, with their well-formedness invariants.

use vstd::prelude::*;

verus! {

/// Participants and vaults are identified by opaque numeric handles; the
/// engine never inspects them beyond equality.
pub type AccountId = u64;

/// Reference to the custodial vault holding one game's pooled stakes.
pub type VaultId = u64;

/// Wire code accepted at creation for `Comparator::LessThanAtExpiry`.
pub const COMPARATOR_LESS_THAN_AT_EXPIRY: u8 = 0;

/// Wire code accepted at creation for `Comparator::GreaterThanAtExpiry`.
pub const COMPARATOR_GREATER_THAN_AT_EXPIRY: u8 = 1;

/// Wire code accepted at bet placement for `Side::For`.
pub const SIDE_FOR: u8 = 1;

/// Wire code accepted at bet placement for `Side::Against`.
pub const SIDE_AGAINST: u8 = 2;

/// Capacity of a game's fixed-size reference field, in bytes. A longer
/// reference is rejected at creation, never truncated.
pub const MAX_REFERENCE_LEN: usize = 10;

/// The two sides of a binary market.
#[derive(Clone, Copy, Debug, PartialEq, Eq, Structural)]
pub enum Side {
    For,
    Against,
}

impl Side {
    /// Which side, if any, a wire code names.
    pub open spec fn spec_from_code(code: u8) -> Option<Side> {
        if code == SIDE_FOR {
            Some(Side::For)
        } else if code == SIDE_AGAINST {
            Some(Side::Against)
        } else {
            None
        }
    }

    /// Parses a wire code into a side; any other code is unrecognized.
    pub fn from_code(code: u8) -> (r: Option<Side>)
        ensures
            r == Side::spec_from_code(code),
    {
        if code == SIDE_FOR {
            Some(Side::For)
        } else if code == SIDE_AGAINST {
            Some(Side::Against)
        } else {
            None
        }
    }
}

/// How the observed price is compared against the threshold at expiry.
#[derive(Clone, Copy, Debug, PartialEq, Eq, Structural)]
pub enum Comparator {
    /// The "for" side wins when the observation does not exceed the bound.
    LessThanAtExpiry,
    /// The "for" side wins when the observation exceeds the bound.
    GreaterThanAtExpiry,
}

impl Comparator {
    /// Which comparator, if any, a wire code names.
    pub open spec fn spec_from_code(code: u8) -> Option<Comparator> {
        if code == COMPARATOR_LESS_THAN_AT_EXPIRY {
            Some(Comparator::LessThanAtExpiry)
        } else if code == COMPARATOR_GREATER_THAN_AT_EXPIRY {
            Some(Comparator::GreaterThanAtExpiry)
        } else {
            None
        }
    }

    /// Parses a wire code into a comparator; any other code is rejected at
    /// creation, never silently defaulted.
    pub fn from_code(code: u8) -> (r: Option<Comparator>)
        ensures
            r == Comparator::spec_from_code(code),
    {
        if code == COMPARATOR_LESS_THAN_AT_EXPIRY {
            Some(Comparator::LessThanAtExpiry)
        } else if code == COMPARATOR_GREATER_THAN_AT_EXPIRY {
            Some(Comparator::GreaterThanAtExpiry)
        } else {
            None
        }
    }
}

/// Lifecycle state of a game.
#[derive(Clone, Copy, Debug, PartialEq, Eq, Structural)]
pub enum GameState {
    /// Accepting bets until the freeze time; resolvable after expiry.
    Running,
    /// Resolved in favour of the "for" side.
    ForWins,
    /// Resolved in favour of the "against" side.
    AgainstWins,
    /// Reserved for forward compatibility; no operation ever produces it.
    Failed,
}

/// The threshold a game's price observation is compared against.
///
/// The pair is fed through literal exponentiation (`value` raised to
/// `exponent`), not decimal fixed-point scaling; see `engine::resolve`.
#[derive(Clone, Copy, Debug, PartialEq, Eq, Structural)]
pub struct Threshold {
    pub value: i64,
    pub exponent: i32,
}

/// One betting market: parameters, timing windows, running totals, and
/// resolution state.
#[derive(Debug)]
pub struct Game {
    /// Unique identifier assigned at creation, never reused.
    pub id: u64,
    /// Opaque identifier of the observed instrument, at most
    /// `MAX_REFERENCE_LEN` bytes.
    pub reference: Vec<u8>,
    /// Decides which side wins given the observation against the threshold.
    pub comparator: Comparator,
    /// The bound the price observation is compared against at expiry.
    pub threshold: Threshold,
    /// Clock reading when the game was created.
    pub created_at: i64,
    /// Deadline after which no new bets are accepted.
    pub freeze_at: i64,
    /// Earliest time resolution may occur.
    pub expiry_at: i64,
    /// Owning identity; receives closure proceeds once every position
    /// settles.
    pub creator: AccountId,
    /// The custodial vault pooling this game's stakes.
    pub vault: VaultId,
    /// Sum of all stakes; always `amount_for + amount_against`.
    pub total_pot: u64,
    /// Sum of stakes on the "for" side.
    pub amount_for: u64,
    /// Sum of stakes on the "against" side.
    pub amount_against: u64,
    /// Number of positions not yet withdrawn.
    pub open_position_count: u32,
    /// Lifecycle state.
    pub state: GameState,
}

impl Game {
    /// Well-formedness invariant: the pot splits exactly into the two side
    /// totals, the timing windows are ordered, and the reference fits its
    /// fixed capacity. Established at creation and preserved by every
    /// operation.
    pub open spec fn wf(self) -> bool {
        &&& self.total_pot == self.amount_for + self.amount_against
        &&& self.created_at < self.freeze_at
        &&& self.freeze_at <= self.expiry_at
        &&& self.reference@.len() <= MAX_REFERENCE_LEN
    }

    /// The sum staked on the winning side of a resolved game; zero when no
    /// one bet on that side.
    pub open spec fn winning_total(self) -> u64 {
        if self.state is ForWins {
            self.amount_for
        } else {
            self.amount_against
        }
    }
}

/// The side paid out by a resolved state; `None` while unresolved.
pub open spec fn winning_side(state: GameState) -> Option<Side> {
    match state {
        GameState::ForWins => Some(Side::For),
        GameState::AgainstWins => Some(Side::Against),
        _ => None,
    }
}

/// The game as it stands after replacing only its lifecycle state.
pub open spec fn with_state(g: Game, state: GameState) -> Game {
    Game { state, ..g }
}

/// One participant's stake in a game; read-only after creation except for
/// the `settled` flag, which flips to true exactly once, at withdrawal.
#[derive(Clone, Copy, Debug, PartialEq, Eq, Structural)]
pub struct Position {
    /// The participant who staked.
    pub owner: AccountId,
    /// The game this stake belongs to.
    pub game_id: u64,
    /// The side the stake backs.
    pub side: Side,
    /// Staked quantity, fixed at creation.
    pub amount: u64,
    /// Whether the payout for this position was already made.
    pub settled: bool,
}

} // verus!
