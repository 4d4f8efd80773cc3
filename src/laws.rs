//! Properties that relate several operations or hold of every input.
use vstd::prelude::*;

use crate::constants::{
    FIRST_PLACE_PERCENTAGE,
    MIN_ENTRIES_FOR_CONTEST,
    PLATFORM_FEE_PERCENTAGE,
    SECOND_PLACE_PERCENTAGE,
    THIRD_PLACE_PERCENTAGE,
};
use crate::contest::{is_lifecycle_edge, status_change};
use crate::context::DistributePrizes;
use crate::errors::ContestError;
use crate::ledger::{paid_treasury, payment_fits, percent_of, platform_share_of, split_fits};
use crate::state::{ContestAccount, ContestStatus, EntryAccount, TreasuryAccount};
use crate::treasury::{distribute_error, settled};
use crate::voting::{outranking_count, outranks, rank_of, ranked};

verus! {

/// A fee split loses nothing: the platform's share is the rounded-down
/// percentage and the two parts add up to the amount.
pub proof fn fee_split_conserves_amount(amount: u64, fee_percent: u8)
    requires
        fee_percent <= 100,
        amount * fee_percent <= u64::MAX,
    ensures
        split_fits(amount as int, fee_percent as int),
        percent_of(amount as int, fee_percent as int) + (amount - percent_of(
            amount as int,
            fee_percent as int,
        )) == amount,
{
    assert(amount * fee_percent <= amount * 100) by (nonlinear_arith)
        requires
            fee_percent <= 100,
    ;
}

/// Crediting a fee-bearing payment to a balanced treasury leaves it balanced,
/// with the platform's share and the prize pool growing by parts that add up
/// to the payment.
pub proof fn payment_keeps_treasury_balanced(c: ContestAccount, t: TreasuryAccount, amount: u64)
    requires
        t.balanced(),
        payment_fits(c, t, amount as int),
    ensures
        paid_treasury(t, amount as int).balanced(),
        paid_treasury(t, amount as int).platform_fee - t.platform_fee == platform_share_of(
            amount as int,
        ),
        (paid_treasury(t, amount as int).platform_fee - t.platform_fee) + (paid_treasury(
            t,
            amount as int,
        ).prize_pool - t.prize_pool) == amount,
{
    fee_split_conserves_amount(amount, PLATFORM_FEE_PERCENTAGE);
}

/// Every move outside `Upcoming -> Live -> Voting -> Closed -> Finalized`,
/// staying in place included, is refused as an invalid transition.
pub proof fn only_lifecycle_edges_allowed(c: ContestAccount, to: ContestStatus, now: i64)
    requires
        !is_lifecycle_edge(c.status, to),
    ensures
        status_change(c, to, now) == Err::<(), ContestError>(ContestError::InvalidStatusTransition),
{
}

/// A live contest reaches voting only with at least three entries: with
/// fewer it is refused, with exactly three it goes through.
pub proof fn voting_needs_minimum_entries(c: ContestAccount, now: i64)
    requires
        c.status == ContestStatus::Live,
    ensures
        c.entry_count < MIN_ENTRIES_FOR_CONTEST ==> status_change(c, ContestStatus::Voting, now)
            == Err::<(), ContestError>(ContestError::MinimumEntriesNotMet),
        c.entry_count == MIN_ENTRIES_FOR_CONTEST ==> status_change(
            c,
            ContestStatus::Voting,
            now,
        ) == Ok::<(), ContestError>(()),
{
}

/// After a settlement has gone through, asking for it again is refused as
/// already distributed, so no funds move a second time.
pub proof fn distribution_happens_once(ctx: DistributePrizes)
    requires
        distribute_error(ctx) is None,
    ensures
        distribute_error(settled(ctx)) == Some(ContestError::PrizesAlreadyDistributed),
        settled(ctx).treasury.balanced() == ctx.treasury.balanced(),
{
}

/// The three prize shares never exceed the pool, and what they leave in the
/// treasury is at most two units.
pub proof fn prize_remainder_is_small(pool: u64)
    ensures
        percent_of(pool as int, FIRST_PLACE_PERCENTAGE as int) + percent_of(
            pool as int,
            SECOND_PLACE_PERCENTAGE as int,
        ) + percent_of(pool as int, THIRD_PLACE_PERCENTAGE as int) <= pool,
        pool - (percent_of(pool as int, FIRST_PLACE_PERCENTAGE as int) + percent_of(
            pool as int,
            SECOND_PLACE_PERCENTAGE as int,
        ) + percent_of(pool as int, THIRD_PLACE_PERCENTAGE as int)) <= 2,
{
    let p = pool as int;
    let a = p * 50 / 100;
    let b = p * 30 / 100;
    let c = p * 20 / 100;
    assert(100 * a <= p * 50 < 100 * a + 100) by (nonlinear_arith)
        requires
            a == p * 50 / 100,
            p >= 0,
    ;
    assert(100 * b <= p * 30 < 100 * b + 100) by (nonlinear_arith)
        requires
            b == p * 30 / 100,
            p >= 0,
    ;
    assert(100 * c <= p * 20 < 100 * c + 100) by (nonlinear_arith)
        requires
            c == p * 20 / 100,
            p >= 0,
    ;
}

proof fn lemma_outranks_carries_count(entries: Seq<EntryAccount>, i: int, j: int, n: int)
    requires
        0 <= i < entries.len(),
        0 <= j < entries.len(),
        outranks(entries[j], j, entries[i], i),
        0 <= n,
    ensures
        outranking_count(entries, i, n) >= outranking_count(entries, j, n) + if n > j {
            1int
        } else {
            0int
        },
    decreases n,
{
    if n > 0 {
        lemma_outranks_carries_count(entries, i, j, n - 1);
    }
}

/// No two entries share a rank: the ranking is a strict order.
pub proof fn ranks_are_distinct(entries: Seq<EntryAccount>, i: int, j: int)
    requires
        0 <= i < entries.len(),
        0 <= j < entries.len(),
        i != j,
    ensures
        rank_of(entries, i) != rank_of(entries, j),
{
    let n = entries.len() as int;
    if outranks(entries[j], j, entries[i], i) {
        lemma_outranks_carries_count(entries, i, j, n);
    } else {
        lemma_outranks_carries_count(entries, j, i, n);
    }
}

proof fn lemma_ranking_ignores_ranks(entries: Seq<EntryAccount>, i: int, n: int)
    requires
        0 <= i < entries.len(),
        0 <= n <= entries.len(),
    ensures
        outranking_count(ranked(entries), i, n) == outranking_count(entries, i, n),
    decreases n,
{
    if n > 0 {
        lemma_ranking_ignores_ranks(entries, i, n - 1);
    }
}

/// Counting the votes again gives the same ranks: a ranking depends on
/// weights, times and positions only, never on ranks assigned before.
pub proof fn recount_gives_same_ranks(entries: Seq<EntryAccount>)
    ensures
        ranked(ranked(entries)) == ranked(entries),
{
    let once = ranked(entries);
    assert forall|i: int| 0 <= i < entries.len() implies #[trigger] ranked(once)[i] == once[i] by {
        lemma_ranking_ignores_ranks(entries, i, entries.len() as int);
    }
    assert(ranked(once) =~= once);
}

} // verus!
