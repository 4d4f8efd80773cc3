use vstd::prelude::*;

use crate::context::{SubmitEntry, UpdateEntry};
use crate::errors::ContestError;
use crate::ledger::{credit_payment, paid_contest, paid_treasury, payment_fits, pools_agree};
use crate::state::{ContestAccount, ContestStatus, EntryAccount, Transfer};

verus! {

/// Why `submit_entry` refuses, if it does.
pub open spec fn submit_entry_error(ctx: SubmitEntry) -> Option<ContestError> {
    if ctx.contest.status != ContestStatus::Live {
        Some(ContestError::EntryPeriodEnded)
    } else if ctx.contest.entry_count + 1 > u32::MAX || !payment_fits(
        ctx.contest,
        ctx.treasury,
        ctx.contest.entry_fee as int,
    ) {
        Some(ContestError::ArithmeticOverflow)
    } else {
        None
    }
}

/// Records a paid entry in a live contest. The participant pays the contest's
/// entry fee into its treasury; the contest counts one more entry, and the fee
/// is split between the platform and the prize pool.
pub fn submit_entry(ctx: &mut SubmitEntry, content_uri: String, now: i64) -> (r: Result<
    (EntryAccount, Transfer),
    ContestError,
>)
    ensures
        r is Ok <==> submit_entry_error(*old(ctx)) is None,
        r matches Err(e) ==> submit_entry_error(*old(ctx)) == Some(e) && *final(ctx) == *old(ctx),
        r matches Ok(done) ==> {
            let fee = old(ctx).contest.entry_fee;
            &&& done.0 == (EntryAccount {
                contest: old(ctx).contest.spec_key(),
                participant: old(ctx).participant,
                content_uri,
                timestamp: now,
                vote_count: 0,
                weighted_votes: 0,
                rank: None,
            })
            &&& done.1 == (Transfer {
                from: old(ctx).participant,
                to: old(ctx).contest.treasury,
                amount: fee,
            })
            &&& final(ctx).participant == old(ctx).participant
            &&& final(ctx).contest == paid_contest(
                ContestAccount { entry_count: (old(ctx).contest.entry_count + 1) as u32, ..old(ctx).contest },
                fee as int,
            )
            &&& final(ctx).treasury == paid_treasury(old(ctx).treasury, fee as int)
        },
        old(ctx).treasury.balanced() ==> final(ctx).treasury.balanced(),
        pools_agree(old(ctx).contest, old(ctx).treasury) ==> pools_agree(
            final(ctx).contest,
            final(ctx).treasury,
        ),
{
    if ctx.contest.status != ContestStatus::Live {
        return Err(ContestError::EntryPeriodEnded);
    }
    let entry_count = match ctx.contest.entry_count.checked_add(1) {
        Some(n) => n,
        None => return Err(ContestError::ArithmeticOverflow),
    };
    let fee = ctx.contest.entry_fee;
    credit_payment(&mut ctx.contest, &mut ctx.treasury, fee)?;
    ctx.contest.entry_count = entry_count;
    let entry = EntryAccount {
        contest: ctx.contest.key(),
        participant: ctx.participant,
        content_uri,
        timestamp: now,
        vote_count: 0,
        weighted_votes: 0,
        rank: None,
    };
    let transfer = Transfer { from: ctx.participant, to: ctx.contest.treasury, amount: fee };
    Ok((entry, transfer))
}

/// Why `update_entry` refuses, if it does.
pub open spec fn update_entry_error(ctx: UpdateEntry) -> Option<ContestError> {
    if ctx.contest.status != ContestStatus::Live {
        Some(ContestError::EntryPeriodEnded)
    } else if ctx.entry.participant != ctx.participant {
        Some(ContestError::Unauthorized)
    } else if ctx.entry.contest != ctx.contest.spec_key() {
        Some(ContestError::EntryContestMismatch)
    } else {
        None
    }
}

/// Replaces the content of an entry while its contest is live. Only the
/// entry's participant may do so; no fee is charged.
pub fn update_entry(ctx: &mut UpdateEntry, content_uri: String) -> (r: Result<(), ContestError>)
    ensures
        r is Ok <==> update_entry_error(*old(ctx)) is None,
        r matches Err(e) ==> update_entry_error(*old(ctx)) == Some(e) && *final(ctx) == *old(ctx),
        r is Ok ==> final(ctx).participant == old(ctx).participant && final(ctx).contest == old(
            ctx,
        ).contest && final(ctx).entry == (EntryAccount { content_uri, ..old(ctx).entry }),
{
    if ctx.contest.status != ContestStatus::Live {
        return Err(ContestError::EntryPeriodEnded);
    }
    if !ctx.entry.participant.same(&ctx.participant) {
        return Err(ContestError::Unauthorized);
    }
    if !ctx.entry.contest.same(&ctx.contest.key()) {
        return Err(ContestError::EntryContestMismatch);
    }
    ctx.entry.content_uri = content_uri;
    Ok(())
}

} // verus!
