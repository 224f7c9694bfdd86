//! The settlement operations: game creation, bet placement, outcome
//! resolution, and pro-rata withdrawal.
//!
//! Each operation validates every precondition before mutating anything, so
//! a failed call leaves all state exactly as it was. External effects — the
//! value transfers into and out of the vault, the oracle read, and the
//! vault closure — are the caller's: the engine decides, the caller acts.

use vstd::prelude::*;
use vstd::arithmetic::mul::lemma_mul_upper_bound;
use crate::errors::Error;
use crate::game::{
    AccountId, Comparator, Game, GameState, Position, Side, Threshold, VaultId, with_state,
    winning_side, MAX_REFERENCE_LEN,
};
use crate::registry::GameRegistry;

verus! {

/// Capability to move funds out of one game's vault and to close it.
///
/// Models a signing authority derived deterministically from a fixed seed
/// and the game identifier: no live participant key controls it, and the
/// derivation is injective, so one game's authority never opens another
/// game's vault. The caller hands it to the custody layer when performing
/// the transfers the engine has decided on.
#[derive(Clone, Copy, Debug, PartialEq, Eq, Structural)]
pub struct AuthorityHandle {
    /// The game whose vault this capability controls.
    pub game_id: u64,
}

/// Derives the vault authority for a game. Deterministic: the same game
/// identifier always yields the same handle.
pub fn derive_authority(game_id: u64) -> (r: AuthorityHandle)
    ensures
        r.game_id == game_id,
{
    AuthorityHandle { game_id }
}

/// Whether creation inputs are acceptable: both offsets positive, freeze
/// no later than expiry, a recognized comparator code, and a reference
/// that fits its fixed capacity.
pub open spec fn create_params_valid(
    reference: Seq<u8>,
    comparator_code: u8,
    freeze_offset: u64,
    expiry_offset: u64,
) -> bool {
    &&& freeze_offset > 0
    &&& expiry_offset > 0
    &&& freeze_offset <= expiry_offset
    &&& Comparator::spec_from_code(comparator_code) is Some
    &&& reference.len() <= MAX_REFERENCE_LEN
}

/// Whether both deadlines, taken as offsets from the current time, fit in
/// the timestamp type.
pub open spec fn create_times_fit(now: i64, freeze_offset: u64, expiry_offset: u64) -> bool {
    &&& freeze_offset <= i64::MAX
    &&& expiry_offset <= i64::MAX
    &&& now + freeze_offset <= i64::MAX
    &&& now + expiry_offset <= i64::MAX
}

/// Creates a new running game.
///
/// On success the game carries the next identifier from the registry, an
/// empty pot, no open positions, and deadlines `now + freeze_offset` and
/// `now + expiry_offset`. Invalid inputs are rejected with
/// `InvalidParameters` and a deadline that would not fit the timestamp
/// type with `ArithmeticOverflow`; either way the registry is untouched,
/// so no identifier is consumed by a failed creation.
///
/// The caller is expected to follow a successful creation by transferring
/// the vault's custody authority to `derive_authority(game.id)`.
pub fn create(
    registry: &mut GameRegistry,
    reference: Vec<u8>,
    comparator_code: u8,
    threshold: Threshold,
    freeze_offset: u64,
    expiry_offset: u64,
    now: i64,
    creator: AccountId,
    vault: VaultId,
) -> (r: Result<Game, Error>)
    requires
        old(registry).counter < u64::MAX,
    ensures
        !create_params_valid(reference@, comparator_code, freeze_offset, expiry_offset) ==> (
            r == Err::<Game, Error>(Error::InvalidParameters) && *final(registry) == *old(registry)
        ),
        create_params_valid(reference@, comparator_code, freeze_offset, expiry_offset)
            && !create_times_fit(now, freeze_offset, expiry_offset) ==> (
            r == Err::<Game, Error>(Error::ArithmeticOverflow) && *final(registry) == *old(registry)
        ),
        create_params_valid(reference@, comparator_code, freeze_offset, expiry_offset)
            && create_times_fit(now, freeze_offset, expiry_offset) ==> ({
            &&& r is Ok
            &&& final(registry).counter == old(registry).counter + 1
            &&& (r->Ok_0).id == old(registry).counter
            &&& (r->Ok_0).reference@ == reference@
            &&& (r->Ok_0).comparator == Comparator::spec_from_code(comparator_code)->Some_0
            &&& (r->Ok_0).threshold == threshold
            &&& (r->Ok_0).created_at == now
            &&& (r->Ok_0).freeze_at == now + freeze_offset
            &&& (r->Ok_0).expiry_at == now + expiry_offset
            &&& (r->Ok_0).creator == creator
            &&& (r->Ok_0).vault == vault
            &&& (r->Ok_0).total_pot == 0
            &&& (r->Ok_0).amount_for == 0
            &&& (r->Ok_0).amount_against == 0
            &&& (r->Ok_0).open_position_count == 0
            &&& (r->Ok_0).state is Running
            &&& (r->Ok_0).wf()
        }),
{
    if freeze_offset == 0 || expiry_offset == 0 {
        return Err(Error::InvalidParameters);
    }
    if freeze_offset > expiry_offset {
        return Err(Error::InvalidParameters);
    }
    let comparator = match Comparator::from_code(comparator_code) {
        Some(c) => c,
        None => {
            return Err(Error::InvalidParameters);
        },
    };
    if reference.len() > MAX_REFERENCE_LEN {
        return Err(Error::InvalidParameters);
    }
    if freeze_offset > i64::MAX as u64 || expiry_offset > i64::MAX as u64 {
        return Err(Error::ArithmeticOverflow);
    }
    if now > i64::MAX - (freeze_offset as i64) || now > i64::MAX - (expiry_offset as i64) {
        return Err(Error::ArithmeticOverflow);
    }
    let freeze_at = now + (freeze_offset as i64);
    let expiry_at = now + (expiry_offset as i64);
    let id = registry.next_id();
    Ok(Game {
        id,
        reference,
        comparator,
        threshold,
        created_at: now,
        freeze_at,
        expiry_at,
        creator,
        vault,
        total_pot: 0,
        amount_for: 0,
        amount_against: 0,
        open_position_count: 0,
        state: GameState::Running,
    })
}

/// The exact outcome of a bet: either the game as it stands afterwards
/// together with the new position, or the error rejecting it.
///
/// A bet is rejected while the game is not running, for an unrecognized
/// side code, after the freeze or expiry time (a bet at the freeze time
/// exactly is still accepted), and when a running total would overflow.
pub open spec fn place_bet_outcome(
    g: Game,
    owner: AccountId,
    side_code: u8,
    amount: u64,
    now: i64,
) -> Result<(Game, Position), Error> {
    if !(g.state is Running) {
        Err(Error::BettingClosed)
    } else if Side::spec_from_code(side_code) is None {
        Err(Error::InvalidSide)
    } else if now > g.freeze_at || now > g.expiry_at {
        Err(Error::BettingClosed)
    } else if g.total_pot + amount > u64::MAX || g.open_position_count + 1 > u32::MAX {
        Err(Error::ArithmeticOverflow)
    } else {
        let side = Side::spec_from_code(side_code)->Some_0;
        let game = Game {
            total_pot: (g.total_pot + amount) as u64,
            amount_for: if side is For {
                (g.amount_for + amount) as u64
            } else {
                g.amount_for
            },
            amount_against: if side is Against {
                (g.amount_against + amount) as u64
            } else {
                g.amount_against
            },
            open_position_count: (g.open_position_count + 1) as u32,
            ..g
        };
        let position = Position { owner, game_id: g.id, side, amount, settled: false };
        Ok((game, position))
    }
}

/// Places a stake of `amount` on one side of a running game.
///
/// On success the pot, the chosen side's total, and the open-position
/// count each grow by exactly the stake, and the returned position records
/// the stake, unsettled. On any rejection the game is untouched. The
/// caller transfers `amount` into the game's vault as part of the same
/// atomic operation: if that transfer fails, the bet must not be applied.
pub fn place_bet(
    game: &mut Game,
    owner: AccountId,
    side_code: u8,
    amount: u64,
    now: i64,
) -> (r: Result<Position, Error>)
    requires
        old(game).wf(),
        amount > 0,
    ensures
        final(game).wf(),
        match place_bet_outcome(*old(game), owner, side_code, amount, now) {
            Ok(gp) => r is Ok && r->Ok_0 == gp.1 && *final(game) == gp.0,
            Err(e) => r == Err::<Position, Error>(e) && *final(game) == *old(game),
        },
{
    if !matches!(game.state, GameState::Running) {
        return Err(Error::BettingClosed);
    }
    let side = match Side::from_code(side_code) {
        Some(s) => s,
        None => {
            return Err(Error::InvalidSide);
        },
    };
    if now > game.freeze_at || now > game.expiry_at {
        return Err(Error::BettingClosed);
    }
    if amount > u64::MAX - game.total_pot || game.open_position_count == u32::MAX {
        return Err(Error::ArithmeticOverflow);
    }
    game.total_pot = game.total_pot + amount;
    match side {
        Side::For => {
            game.amount_for = game.amount_for + amount;
        },
        Side::Against => {
            game.amount_against = game.amount_against + amount;
        },
    }
    game.open_position_count = game.open_position_count + 1;
    Ok(Position { owner, game_id: game.id, side, amount, settled: false })
}

/// The state a resolution produces: the comparator decides which side the
/// observation exceeding the bound favours.
pub open spec fn resolved_state(comparator: Comparator, observed_above_bound: bool) -> GameState {
    if observed_above_bound {
        match comparator {
            Comparator::LessThanAtExpiry => GameState::AgainstWins,
            Comparator::GreaterThanAtExpiry => GameState::ForWins,
        }
    } else {
        match comparator {
            Comparator::LessThanAtExpiry => GameState::ForWins,
            Comparator::GreaterThanAtExpiry => GameState::AgainstWins,
        }
    }
}

/// The exact outcome of a resolution attempt: the winning state, or the
/// error rejecting the attempt. Rejected before the expiry time, and on a
/// game that already left the running state — which is what makes a second
/// resolution of the same game impossible.
pub open spec fn resolve_outcome(g: Game, now: i64, observed_above_bound: bool) -> Result<
    GameState,
    Error,
> {
    if now < g.expiry_at {
        Err(Error::NotYetExpired)
    } else if !(g.state is Running) {
        Err(Error::AlreadyResolved)
    } else {
        Ok(resolved_state(g.comparator, observed_above_bound))
    }
}

/// Resolves a running game once its expiry time has passed.
///
/// The caller queries the price oracle and compares the observation
/// against the game's threshold: `observed_above_bound` states whether
/// `price` raised to the oracle's exponent exceeds `threshold.value`
/// raised to `threshold.exponent`. The pair is deliberately fed through
/// literal exponentiation rather than decimal fixed-point scaling — an
/// unusual encoding, kept as it stands rather than second-guessed. The
/// oracle also reports a confidence measure; it is deliberately not used
/// to gate resolution, a known limitation kept rather than silently
/// repaired.
///
/// On success only the state changes, per the comparator's decision table;
/// no pot total moves. A game resolves at most once.
pub fn resolve(game: &mut Game, now: i64, observed_above_bound: bool) -> (r: Result<(), Error>)
    requires
        old(game).wf(),
    ensures
        final(game).wf(),
        match resolve_outcome(*old(game), now, observed_above_bound) {
            Ok(s) => r is Ok && *final(game) == with_state(*old(game), s),
            Err(e) => r == Err::<(), Error>(e) && *final(game) == *old(game),
        },
{
    if now < game.expiry_at {
        return Err(Error::NotYetExpired);
    }
    if !matches!(game.state, GameState::Running) {
        return Err(Error::AlreadyResolved);
    }
    game.state = match game.comparator {
        Comparator::LessThanAtExpiry => {
            if observed_above_bound {
                GameState::AgainstWins
            } else {
                GameState::ForWins
            }
        },
        Comparator::GreaterThanAtExpiry => {
            if observed_above_bound {
                GameState::ForWins
            } else {
                GameState::AgainstWins
            }
        },
    };
    Ok(())
}

/// The pro-rata payout of a winning stake: the floor of
/// `amount * total_pot / winning_total`, multiplication before division.
pub open spec fn payout_amount(amount: u64, total_pot: u64, winning_total: u64) -> int {
    (amount * total_pot) / (winning_total as int)
}

/// The exact outcome of a withdrawal attempt: the game and position as
/// they stand afterwards together with the payout, or the error rejecting
/// the attempt.
///
/// Rejected while the game is unresolved, for a position of another game,
/// for a position already settled, and for a position on the losing side —
/// a losing position never withdraws. A winning side holding no stake
/// fails with `NoWinningStake` rather than dividing by zero, and a payout
/// beyond the token amount type fails with `ArithmeticOverflow`.
pub open spec fn withdraw_outcome(g: Game, p: Position) -> Result<(Game, Position, int), Error> {
    if !(g.state is ForWins || g.state is AgainstWins) {
        Err(Error::NotWithdrawable)
    } else if p.game_id != g.id {
        Err(Error::NotWithdrawable)
    } else if p.settled {
        Err(Error::AlreadySettled)
    } else if winning_side(g.state) != Some(p.side) {
        Err(Error::NotWithdrawable)
    } else if g.winning_total() == 0 {
        Err(Error::NoWinningStake)
    } else if payout_amount(p.amount, g.total_pot, g.winning_total()) > u64::MAX {
        Err(Error::ArithmeticOverflow)
    } else {
        let game = Game { open_position_count: (g.open_position_count - 1) as u32, ..g };
        let position = Position { settled: true, ..p };
        Ok((game, position, payout_amount(p.amount, g.total_pot, g.winning_total())))
    }
}

/// Pays out a winning position of a resolved game.
///
/// On success the position is marked settled, the open-position count
/// drops by one, and the returned payout is the position's pro-rata share
/// of the whole pot, rounded down. The caller transfers the payout from
/// the vault to the position's owner under the game's derived authority,
/// and, when the open-position count has reached zero, closes the vault
/// towards the game's creator — exactly once, since no further withdrawal
/// can succeed. On any rejection both the game and the position are
/// untouched.
///
/// The open-position count is required to cover the settling position;
/// that holds whenever the count equals the number of unsettled positions
/// referencing the game (see `laws`).
pub fn withdraw(game: &mut Game, position: &mut Position) -> (r: Result<u64, Error>)
    requires
        old(game).wf(),
        old(position).game_id == old(game).id && !old(position).settled ==> old(
            game,
        ).open_position_count >= 1,
    ensures
        final(game).wf(),
        match withdraw_outcome(*old(game), *old(position)) {
            Ok(t) => r is Ok && r->Ok_0 == t.2 && *final(game) == t.0 && *final(position) == t.1,
            Err(e) => r == Err::<u64, Error>(e) && *final(game) == *old(game) && *final(position)
                == *old(position),
        },
{
    let (win_side, winning_total): (Side, u64) = match game.state {
        GameState::ForWins => (Side::For, game.amount_for),
        GameState::AgainstWins => (Side::Against, game.amount_against),
        _ => {
            return Err(Error::NotWithdrawable);
        },
    };
    if position.game_id != game.id {
        return Err(Error::NotWithdrawable);
    }
    if position.settled {
        return Err(Error::AlreadySettled);
    }
    if position.side != win_side {
        return Err(Error::NotWithdrawable);
    }
    if winning_total == 0 {
        return Err(Error::NoWinningStake);
    }
    proof {
        lemma_mul_upper_bound(
            position.amount as int,
            u64::MAX as int,
            game.total_pot as int,
            u64::MAX as int,
        );
    }
    let wide: u128 = (position.amount as u128) * (game.total_pot as u128);
    let q: u128 = wide / (winning_total as u128);
    if q > u64::MAX as u128 {
        return Err(Error::ArithmeticOverflow);
    }
    let payout: u64 = q as u64;
    position.settled = true;
    game.open_position_count = game.open_position_count - 1;
    Ok(payout)
}

} // verus!
