use vstd::prelude::*;

use crate::context::{CastVote, CountVotes};
use crate::errors::ContestError;
use crate::ledger::{credit_payment, paid_contest, paid_treasury, payment_fits, pools_agree};
use crate::state::{ContestAccount, ContestStatus, EntryAccount, Transfer, VoteAccount};

verus! {

/// Why `cast_vote` refuses, if it does.
pub open spec fn cast_vote_error(ctx: CastVote, token_amount: u64) -> Option<ContestError> {
    let fee = ctx.contest.vote_fee * token_amount;
    if ctx.contest.status != ContestStatus::Voting {
        Some(ContestError::VotingPeriodEnded)
    } else if ctx.entry.contest != ctx.contest.spec_key() {
        Some(ContestError::EntryContestMismatch)
    } else if fee > u64::MAX || ctx.entry.vote_count + 1 > u32::MAX || ctx.entry.weighted_votes
        + token_amount > u64::MAX || ctx.contest.vote_count + 1 > u32::MAX || !payment_fits(
        ctx.contest,
        ctx.treasury,
        fee,
    ) {
        Some(ContestError::ArithmeticOverflow)
    } else {
        None
    }
}

/// Records a paid vote of weight `token_amount` for an entry of a contest in
/// its voting phase. The voter pays `vote_fee * token_amount` into the
/// treasury; the entry gains one vote and `token_amount` of weight, the
/// contest one vote, and the fee is split as an entry fee is.
pub fn cast_vote(ctx: &mut CastVote, token_amount: u64, now: i64) -> (r: Result<
    (VoteAccount, Transfer),
    ContestError,
>)
    ensures
        r is Ok <==> cast_vote_error(*old(ctx), token_amount) is None,
        r matches Err(e) ==> cast_vote_error(*old(ctx), token_amount) == Some(e) && *final(ctx)
            == *old(ctx),
        r matches Ok(done) ==> {
            let fee = old(ctx).contest.vote_fee * token_amount;
            &&& done.0 == (VoteAccount {
                voter: old(ctx).voter,
                contest: old(ctx).contest.spec_key(),
                entry: old(ctx).entry.participant,
                timestamp: now,
                token_amount,
            })
            &&& done.1 == (Transfer {
                from: old(ctx).voter,
                to: old(ctx).contest.treasury,
                amount: fee as u64,
            })
            &&& final(ctx).voter == old(ctx).voter
            &&& final(ctx).entry == (EntryAccount {
                vote_count: (old(ctx).entry.vote_count + 1) as u32,
                weighted_votes: (old(ctx).entry.weighted_votes + token_amount) as u64,
                ..old(ctx).entry
            })
            &&& final(ctx).contest == paid_contest(
                ContestAccount { vote_count: (old(ctx).contest.vote_count + 1) as u32, ..old(ctx).contest },
                fee,
            )
            &&& final(ctx).treasury == paid_treasury(old(ctx).treasury, fee)
        },
        old(ctx).treasury.balanced() ==> final(ctx).treasury.balanced(),
        pools_agree(old(ctx).contest, old(ctx).treasury) ==> pools_agree(
            final(ctx).contest,
            final(ctx).treasury,
        ),
{
    if ctx.contest.status != ContestStatus::Voting {
        return Err(ContestError::VotingPeriodEnded);
    }
    if !ctx.entry.contest.same(&ctx.contest.key()) {
        return Err(ContestError::EntryContestMismatch);
    }
    let fee = match ctx.contest.vote_fee.checked_mul(token_amount) {
        Some(f) => f,
        None => return Err(ContestError::ArithmeticOverflow),
    };
    let entry_votes = match ctx.entry.vote_count.checked_add(1) {
        Some(n) => n,
        None => return Err(ContestError::ArithmeticOverflow),
    };
    let entry_weight = match ctx.entry.weighted_votes.checked_add(token_amount) {
        Some(n) => n,
        None => return Err(ContestError::ArithmeticOverflow),
    };
    let contest_votes = match ctx.contest.vote_count.checked_add(1) {
        Some(n) => n,
        None => return Err(ContestError::ArithmeticOverflow),
    };
    credit_payment(&mut ctx.contest, &mut ctx.treasury, fee)?;
    ctx.contest.vote_count = contest_votes;
    ctx.entry.vote_count = entry_votes;
    ctx.entry.weighted_votes = entry_weight;
    let vote = VoteAccount {
        voter: ctx.voter,
        contest: ctx.contest.key(),
        entry: ctx.entry.participant,
        timestamp: now,
        token_amount,
    };
    let transfer = Transfer { from: ctx.voter, to: ctx.contest.treasury, amount: fee };
    Ok((vote, transfer))
}

/// Entry `a` at position `ia` places ahead of entry `b` at position `ib`: more
/// weighted votes first; on equal weight the earlier entry; on equal weight
/// and time the one listed first.
pub open spec fn outranks(a: EntryAccount, ia: int, b: EntryAccount, ib: int) -> bool {
    ||| a.weighted_votes > b.weighted_votes
    ||| a.weighted_votes == b.weighted_votes && a.timestamp < b.timestamp
    ||| a.weighted_votes == b.weighted_votes && a.timestamp == b.timestamp && ia < ib
}

/// How many of the first `n` entries place ahead of entry `i`.
pub open spec fn outranking_count(entries: Seq<EntryAccount>, i: int, n: int) -> nat
    decreases n,
{
    if n <= 0 {
        0
    } else {
        outranking_count(entries, i, n - 1) + if outranks(entries[n - 1], n - 1, entries[i], i) {
            1nat
        } else {
            0nat
        }
    }
}

/// Place of entry `i` in the ranking, counted from 1.
pub open spec fn rank_of(entries: Seq<EntryAccount>, i: int) -> int {
    1 + outranking_count(entries, i, entries.len() as int) as int
}

/// The entries with their ranks assigned.
pub open spec fn ranked(entries: Seq<EntryAccount>) -> Seq<EntryAccount> {
    Seq::new(
        entries.len(),
        |i: int| EntryAccount { rank: Some(rank_of(entries, i) as u32), ..entries[i] },
    )
}

/// Why `count_votes` refuses, if it does.
pub open spec fn count_votes_error(ctx: CountVotes) -> Option<ContestError> {
    if ctx.authority != ctx.contest.authority {
        Some(ContestError::Unauthorized)
    } else if ctx.contest.status != ContestStatus::Closed {
        Some(ContestError::ContestNotEnded)
    } else if ctx.entries@.len() != ctx.contest.entry_count {
        Some(ContestError::InsufficientEntries)
    } else if exists|i: int|
        0 <= i < ctx.entries@.len() && #[trigger] ctx.entries@[i].contest != ctx.contest.spec_key() {
        Some(ContestError::EntryContestMismatch)
    } else {
        None
    }
}

fn outranks_exec(a: &EntryAccount, ia: usize, b: &EntryAccount, ib: usize) -> (r: bool)
    ensures
        r == outranks(*a, ia as int, *b, ib as int),
{
    a.weighted_votes > b.weighted_votes || (a.weighted_votes == b.weighted_votes && (a.timestamp
        < b.timestamp || (a.timestamp == b.timestamp && ia < ib)))
}

proof fn lemma_outranking_count_bound(entries: Seq<EntryAccount>, i: int, n: int)
    requires
        0 <= n,
    ensures
        outranking_count(entries, i, n) <= n,
    decreases n,
{
    if n > 0 {
        lemma_outranking_count_bound(entries, i, n - 1);
    }
}

proof fn lemma_outranking_count_excludes_self(entries: Seq<EntryAccount>, i: int, n: int)
    requires
        0 <= i < n,
    ensures
        outranking_count(entries, i, n) <= n - 1,
    decreases n,
{
    lemma_outranking_count_bound(entries, i, n - 1);
    if n - 1 > i {
        lemma_outranking_count_excludes_self(entries, i, n - 1);
    }
}

/// Ranks every entry of a closed contest and records that the winners are
/// decided. The caller must hand over all of the contest's entries. Ranks run
/// from 1, by weighted votes, highest first; ties go to the earlier entry and
/// then to the one listed first. Running it again before finalization gives
/// the same ranks.
pub fn count_votes(ctx: &mut CountVotes) -> (r: Result<(), ContestError>)
    ensures
        r is Ok <==> count_votes_error(*old(ctx)) is None,
        r matches Err(e) ==> count_votes_error(*old(ctx)) == Some(e) && *final(ctx) == *old(ctx),
        r is Ok ==> {
            &&& final(ctx).authority == old(ctx).authority
            &&& final(ctx).contest == (ContestAccount {
                winners_decided: true,
                ..old(ctx).contest
            })
            &&& final(ctx).entries@ == ranked(old(ctx).entries@)
        },
{
    if !ctx.authority.same(&ctx.contest.authority) {
        return Err(ContestError::Unauthorized);
    }
    if ctx.contest.status != ContestStatus::Closed {
        return Err(ContestError::ContestNotEnded);
    }
    let n = ctx.entries.len();
    if n != ctx.contest.entry_count as usize {
        return Err(ContestError::InsufficientEntries);
    }
    let key = ctx.contest.key();
    let mut k: usize = 0;
    while k < n
        invariant
            n == ctx.entries@.len(),
            0 <= k <= n,
            *ctx == *old(ctx),
            ctx.authority == ctx.contest.authority,
            ctx.contest.status == ContestStatus::Closed,
            n == ctx.contest.entry_count,
            key == ctx.contest.spec_key(),
            forall|j: int| 0 <= j < k ==> #[trigger] ctx.entries@[j].contest == key,
        decreases n - k,
    {
        if !ctx.entries[k].contest.same(&key) {
            assert(old(ctx).entries@[k as int].contest != old(ctx).contest.spec_key());
            return Err(ContestError::EntryContestMismatch);
        }
        k = k + 1;
    }
    let ghost original = ctx.entries@;
    let mut ranks: Vec<u32> = Vec::new();
    let mut i: usize = 0;
    while i < n
        invariant
            ctx.entries@ == original,
            n == original.len(),
            n <= u32::MAX,
            0 <= i <= n,
            ranks@.len() == i,
            forall|p: int| 0 <= p < i ==> #[trigger] ranks@[p] == rank_of(original, p),
        decreases n - i,
    {
        let mut count: u32 = 0;
        let mut j: usize = 0;
        while j < n
            invariant
                ctx.entries@ == original,
                n == original.len(),
                n <= u32::MAX,
                0 <= i < n,
                0 <= j <= n,
                count == outranking_count(original, i as int, j as int),
                count <= j,
            decreases n - j,
        {
            if outranks_exec(&ctx.entries[j], j, &ctx.entries[i], i) {
                count = count + 1;
            }
            j = j + 1;
        }
        proof {
            lemma_outranking_count_excludes_self(original, i as int, n as int);
        }
        ranks.push(count + 1);
        i = i + 1;
    }
    let mut m: usize = 0;
    while m < n
        invariant
            n == original.len(),
            ctx.entries@.len() == n,
            ranks@.len() == n,
            0 <= m <= n,
            forall|p: int| 0 <= p < n ==> #[trigger] ranks@[p] == rank_of(original, p),
            forall|p: int| 0 <= p < m ==> #[trigger] ctx.entries@[p] == ranked(original)[p],
            forall|p: int| m <= p < n ==> #[trigger] ctx.entries@[p] == original[p],
            ctx.contest == old(ctx).contest,
            ctx.authority == old(ctx).authority,
            original == old(ctx).entries@,
        decreases n - m,
    {
        ctx.entries[m].rank = Some(ranks[m]);
        m = m + 1;
    }
    assert(ctx.entries@ =~= ranked(original));
    ctx.contest.winners_decided = true;
    Ok(())
}

} // verus!
