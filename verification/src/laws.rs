//! The laws that relate the settlement operations to one another: the
//! open-position count tracks the unsettled positions, a game resolves at
//! most once, a position pays out at most once, and the payouts of a
//! resolved game never exceed its pot.

use vstd::prelude::*;
use vstd::arithmetic::div_mod::{
    lemma_div_is_ordered, lemma_div_multiples_vanish, lemma_div_of0, lemma_fundamental_div_mod,
    lemma_mod_division_less_than_divisor,
};
use vstd::arithmetic::mul::{
    lemma_mul_is_commutative, lemma_mul_is_distributive_add, lemma_mul_nonnegative,
};
use crate::errors::Error;
use crate::game::{AccountId, Game, GameState, Position, Side, with_state};
use crate::engine::{
    payout_amount, place_bet_outcome, resolve_outcome, withdraw_outcome,
};

verus! {

/// How much one position adds to the open-position count of a game: one
/// while it is unsettled and references the game, zero otherwise.
pub open spec fn position_contribution(p: Position, game_id: u64) -> int {
    if p.game_id == game_id && !p.settled {
        1
    } else {
        0
    }
}

/// The number of unsettled positions among `ps` referencing the game with
/// identifier `game_id`.
pub open spec fn open_positions_of(ps: Seq<Position>, game_id: u64) -> int
    decreases ps.len(),
{
    if ps.len() == 0 {
        0
    } else {
        open_positions_of(ps.drop_last(), game_id) + position_contribution(ps.last(), game_id)
    }
}

/// The counting invariant: a game's `open_position_count` equals the
/// number of unsettled positions referencing it among all positions ever
/// created for it.
pub open spec fn positions_consistent(g: Game, ps: Seq<Position>) -> bool {
    g.open_position_count == open_positions_of(ps, g.id)
}

/// A freshly created game, which has no positions yet, satisfies the
/// counting invariant with the empty position record.
pub proof fn lemma_created_game_consistent(g: Game)
    requires
        g.open_position_count == 0,
    ensures
        positions_consistent(g, Seq::<Position>::empty()),
{
}

/// An open-position count is never negative.
proof fn lemma_open_positions_nonneg(ps: Seq<Position>, game_id: u64)
    ensures
        open_positions_of(ps, game_id) >= 0,
    decreases ps.len(),
{
    if ps.len() > 0 {
        lemma_open_positions_nonneg(ps.drop_last(), game_id);
    }
}

/// The count covers each position's own contribution.
proof fn lemma_open_positions_element(ps: Seq<Position>, game_id: u64, i: int)
    requires
        0 <= i < ps.len(),
    ensures
        open_positions_of(ps, game_id) >= position_contribution(ps[i], game_id),
    decreases ps.len(),
{
    if i == ps.len() - 1 {
        lemma_open_positions_nonneg(ps.drop_last(), game_id);
    } else {
        lemma_open_positions_element(ps.drop_last(), game_id, i);
    }
}

/// Replacing one position changes the count by the difference of the two
/// positions' contributions.
proof fn lemma_open_positions_update(ps: Seq<Position>, game_id: u64, i: int, p: Position)
    requires
        0 <= i < ps.len(),
    ensures
        open_positions_of(ps.update(i, p), game_id) == open_positions_of(ps, game_id)
            - position_contribution(ps[i], game_id) + position_contribution(p, game_id),
    decreases ps.len(),
{
    let updated = ps.update(i, p);
    if i == ps.len() - 1 {
        assert(updated.drop_last() =~= ps.drop_last());
        assert(updated.last() == p);
    } else {
        assert(updated.drop_last() =~= ps.drop_last().update(i, p));
        assert(updated.last() == ps.last());
        lemma_open_positions_update(ps.drop_last(), game_id, i, p);
    }
}

/// Placing a bet preserves the counting invariant: the game's count grows
/// by one, and the record gains exactly one new unsettled position
/// referencing the game.
pub proof fn lemma_place_bet_preserves_count(
    g: Game,
    ps: Seq<Position>,
    owner: AccountId,
    side_code: u8,
    amount: u64,
    now: i64,
)
    requires
        positions_consistent(g, ps),
        place_bet_outcome(g, owner, side_code, amount, now) is Ok,
    ensures
        ({
            let gp = place_bet_outcome(g, owner, side_code, amount, now)->Ok_0;
            positions_consistent(gp.0, ps.push(gp.1))
        }),
{
    let gp = place_bet_outcome(g, owner, side_code, amount, now)->Ok_0;
    let extended = ps.push(gp.1);
    assert(extended.drop_last() =~= ps);
    assert(extended.last() == gp.1);
}

/// Withdrawing preserves the counting invariant: the game's count drops by
/// one, and exactly one unsettled position of the game becomes settled.
pub proof fn lemma_withdraw_preserves_count(g: Game, ps: Seq<Position>, i: int)
    requires
        positions_consistent(g, ps),
        0 <= i < ps.len(),
        withdraw_outcome(g, ps[i]) is Ok,
    ensures
        ({
            let t = withdraw_outcome(g, ps[i])->Ok_0;
            positions_consistent(t.0, ps.update(i, t.1))
        }),
{
    let t = withdraw_outcome(g, ps[i])->Ok_0;
    lemma_open_positions_element(ps, g.id, i);
    lemma_open_positions_update(ps, g.id, i, t.1);
}

/// Resolving preserves the counting invariant: it changes only the game's
/// state, never the count or any position.
pub proof fn lemma_resolve_preserves_count(
    g: Game,
    ps: Seq<Position>,
    now: i64,
    observed_above_bound: bool,
)
    requires
        positions_consistent(g, ps),
        resolve_outcome(g, now, observed_above_bound) is Ok,
    ensures
        positions_consistent(
            with_state(g, resolve_outcome(g, now, observed_above_bound)->Ok_0),
            ps,
        ),
{
}

/// A game resolves at most once: a successful resolution leaves the game
/// in a state from which every further resolution attempt fails, and any
/// attempt made after the expiry time fails precisely because the game no
/// longer runs.
pub proof fn lemma_resolve_at_most_once(g: Game, now1: i64, above1: bool, now2: i64, above2: bool)
    requires
        resolve_outcome(g, now1, above1) is Ok,
    ensures
        ({
            let g2 = with_state(g, resolve_outcome(g, now1, above1)->Ok_0);
            &&& !(resolve_outcome(g2, now2, above2) is Ok)
            &&& now2 >= g2.expiry_at ==> resolve_outcome(g2, now2, above2) == Err::<
                GameState,
                Error,
            >(Error::AlreadyResolved)
        }),
{
}

/// A position pays out at most once: after a successful withdrawal, a
/// second withdrawal of the same position from the same game fails with
/// `AlreadySettled`.
pub proof fn lemma_withdraw_exactly_once(g: Game, p: Position)
    requires
        withdraw_outcome(g, p) is Ok,
    ensures
        ({
            let t = withdraw_outcome(g, p)->Ok_0;
            withdraw_outcome(t.0, t.1) == Err::<(Game, Position, int), Error>(
                Error::AlreadySettled,
            )
        }),
{
}

/// The freeze time is an inclusive deadline: a bet arriving at the freeze
/// time exactly is still accepted, and a bet one instant later is rejected
/// as closed.
pub proof fn lemma_bet_boundary_at_freeze(g: Game, owner: AccountId, side_code: u8, amount: u64)
    requires
        g.wf(),
        g.state is Running,
        Side::spec_from_code(side_code) is Some,
        g.total_pot + amount <= u64::MAX,
        g.open_position_count < u32::MAX,
        g.freeze_at < i64::MAX,
    ensures
        place_bet_outcome(g, owner, side_code, amount, g.freeze_at) is Ok,
        place_bet_outcome(g, owner, side_code, amount, (g.freeze_at + 1) as i64) == Err::<
            (Game, Position),
            Error,
        >(Error::BettingClosed),
{
}

/// The sum of a sequence of stakes.
pub open spec fn stake_sum(amounts: Seq<u64>) -> int
    decreases amounts.len(),
{
    if amounts.len() == 0 {
        0
    } else {
        stake_sum(amounts.drop_last()) + amounts.last()
    }
}

/// The sum of the pro-rata payouts of a sequence of winning stakes.
pub open spec fn payout_sum(amounts: Seq<u64>, total_pot: u64, winning_total: u64) -> int
    decreases amounts.len(),
{
    if amounts.len() == 0 {
        0
    } else {
        payout_sum(amounts.drop_last(), total_pot, winning_total) + payout_amount(
            amounts.last(),
            total_pot,
            winning_total,
        )
    }
}

/// A stake sum is never negative.
proof fn lemma_stake_sum_nonneg(amounts: Seq<u64>)
    ensures
        stake_sum(amounts) >= 0,
    decreases amounts.len(),
{
    if amounts.len() > 0 {
        lemma_stake_sum_nonneg(amounts.drop_last());
    }
}

/// Floored division distributes sub-additively over addition: the floors
/// of two shares never exceed the floor of their combined share.
proof fn lemma_div_sum_le(x: int, y: int, d: int)
    requires
        x >= 0,
        y >= 0,
        d > 0,
    ensures
        x / d + y / d <= (x + y) / d,
{
    lemma_fundamental_div_mod(x, d);
    lemma_fundamental_div_mod(y, d);
    lemma_mod_division_less_than_divisor(x, d);
    lemma_mod_division_less_than_divisor(y, d);
    lemma_mul_is_distributive_add(d, x / d, y / d);
    assert(d * (x / d + y / d) <= x + y);
    lemma_div_multiples_vanish(x / d + y / d, d);
    lemma_div_is_ordered(d * (x / d + y / d), x + y, d);
}

/// The payouts of a sequence of stakes never exceed the pro-rata share of
/// their sum.
proof fn lemma_payout_sum_bound(amounts: Seq<u64>, total_pot: u64, winning_total: u64)
    requires
        winning_total > 0,
    ensures
        payout_sum(amounts, total_pot, winning_total) <= (stake_sum(amounts) * total_pot) / (
        winning_total as int),
    decreases amounts.len(),
{
    if amounts.len() == 0 {
        lemma_div_of0(winning_total as int);
    } else {
        let rest = amounts.drop_last();
        let a = amounts.last();
        lemma_payout_sum_bound(rest, total_pot, winning_total);
        lemma_stake_sum_nonneg(rest);
        lemma_mul_nonnegative(stake_sum(rest), total_pot as int);
        lemma_mul_nonnegative(a as int, total_pot as int);
        lemma_div_sum_le(
            stake_sum(rest) * total_pot,
            a * total_pot,
            winning_total as int,
        );
        lemma_mul_is_distributive_add(
            total_pot as int,
            stake_sum(rest),
            a as int,
        );
        lemma_mul_is_commutative(stake_sum(rest), total_pot as int);
        lemma_mul_is_commutative(a as int, total_pot as int);
        lemma_mul_is_commutative(stake_sum(rest) + a, total_pot as int);
    }
}

/// Conservation of the pot: when the winning stakes of a resolved game sum
/// to its recorded winning-side total, their pro-rata payouts together
/// never exceed the total pot; whatever the floored divisions lose to
/// rounding stays in the vault.
pub proof fn lemma_payout_conservation(amounts: Seq<u64>, total_pot: u64, winning_total: u64)
    requires
        winning_total > 0,
        stake_sum(amounts) == winning_total,
    ensures
        payout_sum(amounts, total_pot, winning_total) <= total_pot,
{
    lemma_payout_sum_bound(amounts, total_pot, winning_total);
    lemma_mul_is_commutative(winning_total as int, total_pot as int);
    lemma_div_multiples_vanish(total_pot as int, winning_total as int);
}

} // verus!
