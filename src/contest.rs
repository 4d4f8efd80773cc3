use vstd::prelude::*;

use crate::constants::{MAX_CONTEST_DURATION, MIN_CONTEST_DURATION, MIN_ENTRIES_FOR_CONTEST};
use crate::context::{CreateContest, InitializePlatform, UpdateContest, UpdateContestStatus};
use crate::errors::ContestError;
use crate::key::Pubkey;
use crate::state::{ContestAccount, ContestStatus, PlatformConfig, TreasuryAccount};

verus! {

/// Creates the platform's settings; the fee share must be a percentage.
pub fn initialize_platform(
    ctx: &InitializePlatform,
    platform_fee_percentage: u8,
    min_entry_fee: u64,
    min_vote_fee: u64,
) -> (r: Result<PlatformConfig, ContestError>)
    ensures
        platform_fee_percentage > 100 ==> r == Err::<PlatformConfig, ContestError>(
            ContestError::InvalidFeePercentage,
        ),
        platform_fee_percentage <= 100 ==> r == Ok::<PlatformConfig, ContestError>(
            PlatformConfig {
                authority: ctx.authority,
                platform_fee_percentage,
                min_entry_fee,
                min_vote_fee,
            },
        ),
        r matches Ok(config) ==> config.wf(),
{
    if platform_fee_percentage > 100 {
        return Err(ContestError::InvalidFeePercentage);
    }
    Ok(PlatformConfig { authority: ctx.authority, platform_fee_percentage, min_entry_fee, min_vote_fee })
}

/// A contest runs after it starts, for at least one day and at most thirty.
pub open spec fn duration_ok(start_time: i64, end_time: i64) -> bool {
    &&& end_time > start_time
    &&& end_time - start_time >= MIN_CONTEST_DURATION
    &&& end_time - start_time <= MAX_CONTEST_DURATION
}

/// Checks `duration_ok` without overflowing on distant timestamps.
pub fn check_duration(start_time: i64, end_time: i64) -> (r: bool)
    ensures
        r == duration_ok(start_time, end_time),
{
    if end_time <= start_time {
        return false;
    }
    let length: i128 = end_time as i128 - start_time as i128;
    length >= MIN_CONTEST_DURATION as i128 && length <= MAX_CONTEST_DURATION as i128
}

/// Why `create_contest` refuses its arguments, if it does.
pub open spec fn create_contest_error(
    config: PlatformConfig,
    start_time: i64,
    end_time: i64,
    entry_fee: u64,
    vote_fee: u64,
    now: i64,
) -> Option<ContestError> {
    if !(start_time > now && duration_ok(start_time, end_time)) {
        Some(ContestError::InvalidTimestamp)
    } else if entry_fee < config.min_entry_fee {
        Some(ContestError::InsufficientEntryFee)
    } else if vote_fee < config.min_vote_fee {
        Some(ContestError::InsufficientVoteFee)
    } else {
        None
    }
}

/// Creates a contest, in `Upcoming` with all totals at zero, together with its
/// empty treasury. The contest must start after `now`, last between the
/// duration bounds, and charge at least the platform's minimum fees.
pub fn create_contest(
    ctx: &CreateContest,
    contest_id: [u8; 32],
    title: String,
    description: String,
    start_time: i64,
    end_time: i64,
    entry_fee: u64,
    vote_fee: u64,
    now: i64,
) -> (r: Result<(ContestAccount, TreasuryAccount), ContestError>)
    ensures
        r is Ok <==> create_contest_error(
            ctx.platform_config,
            start_time,
            end_time,
            entry_fee,
            vote_fee,
            now,
        ) is None,
        r matches Err(e) ==> create_contest_error(
            ctx.platform_config,
            start_time,
            end_time,
            entry_fee,
            vote_fee,
            now,
        ) == Some(e),
        r matches Ok(records) ==> records.0 == (ContestAccount {
            contest_id,
            authority: ctx.authority,
            title,
            description,
            start_time,
            end_time,
            entry_fee,
            vote_fee,
            status: ContestStatus::Upcoming,
            treasury: ctx.treasury,
            entry_count: 0,
            vote_count: 0,
            total_prize_pool: 0,
            winners_decided: false,
        }) && records.1 == (TreasuryAccount {
            contest: Pubkey { bytes: contest_id },
            authority: Pubkey { bytes: contest_id },
            total_funds: 0,
            platform_fee: 0,
            prize_pool: 0,
            is_distributed: false,
        }) && records.1.balanced(),
{
    if !(start_time > now && check_duration(start_time, end_time)) {
        return Err(ContestError::InvalidTimestamp);
    }
    if entry_fee < ctx.platform_config.min_entry_fee {
        return Err(ContestError::InsufficientEntryFee);
    }
    if vote_fee < ctx.platform_config.min_vote_fee {
        return Err(ContestError::InsufficientVoteFee);
    }
    let contest = ContestAccount {
        contest_id,
        authority: ctx.authority,
        title,
        description,
        start_time,
        end_time,
        entry_fee,
        vote_fee,
        status: ContestStatus::Upcoming,
        treasury: ctx.treasury,
        entry_count: 0,
        vote_count: 0,
        total_prize_pool: 0,
        winners_decided: false,
    };
    let key = contest.key();
    let treasury = TreasuryAccount {
        contest: key,
        authority: key,
        total_funds: 0,
        platform_fee: 0,
        prize_pool: 0,
        is_distributed: false,
    };
    Ok((contest, treasury))
}

/// The start time a schedule edit leaves in place.
pub open spec fn effective_start(c: ContestAccount, start_time: Option<i64>) -> i64 {
    match start_time {
        Some(s) => s,
        None => c.start_time,
    }
}

/// The end time a schedule edit leaves in place.
pub open spec fn effective_end(c: ContestAccount, end_time: Option<i64>) -> i64 {
    match end_time {
        Some(e) => e,
        None => c.end_time,
    }
}

/// A new start must lie after `now`; when either bound changes, the pair in
/// effect afterwards must meet the duration rules of creation.
pub open spec fn schedule_edit_ok(
    c: ContestAccount,
    start_time: Option<i64>,
    end_time: Option<i64>,
    now: i64,
) -> bool {
    &&& start_time matches Some(s) ==> s > now
    &&& (start_time is Some || end_time is Some) ==> duration_ok(
        effective_start(c, start_time),
        effective_end(c, end_time),
    )
}

/// The contest with each supplied field replaced.
pub open spec fn edited_contest(
    c: ContestAccount,
    title: Option<String>,
    description: Option<String>,
    start_time: Option<i64>,
    end_time: Option<i64>,
) -> ContestAccount {
    ContestAccount {
        title: match title {
            Some(t) => t,
            None => c.title,
        },
        description: match description {
            Some(d) => d,
            None => c.description,
        },
        start_time: effective_start(c, start_time),
        end_time: effective_end(c, end_time),
        ..c
    }
}

/// Why `update_contest` refuses an edit, if it does.
pub open spec fn update_contest_error(
    ctx: UpdateContest,
    start_time: Option<i64>,
    end_time: Option<i64>,
    now: i64,
) -> Option<ContestError> {
    if ctx.authority != ctx.contest.authority {
        Some(ContestError::Unauthorized)
    } else if ctx.contest.status != ContestStatus::Upcoming {
        Some(ContestError::ContestAlreadyStarted)
    } else if !schedule_edit_ok(ctx.contest, start_time, end_time, now) {
        Some(ContestError::InvalidTimestamp)
    } else {
        None
    }
}

/// Edits the title, description and schedule of a contest that has not
/// started. Only its authority may do so.
pub fn update_contest(
    ctx: &mut UpdateContest,
    title: Option<String>,
    description: Option<String>,
    start_time: Option<i64>,
    end_time: Option<i64>,
    now: i64,
) -> (r: Result<(), ContestError>)
    ensures
        r is Ok <==> update_contest_error(*old(ctx), start_time, end_time, now) is None,
        r matches Err(e) ==> update_contest_error(*old(ctx), start_time, end_time, now) == Some(e)
            && *final(ctx) == *old(ctx),
        r is Ok ==> final(ctx).authority == old(ctx).authority && final(ctx).contest
            == edited_contest(old(ctx).contest, title, description, start_time, end_time),
        duration_ok(old(ctx).contest.start_time, old(ctx).contest.end_time) ==> duration_ok(
            final(ctx).contest.start_time,
            final(ctx).contest.end_time,
        ),
{
    if !ctx.authority.same(&ctx.contest.authority) {
        return Err(ContestError::Unauthorized);
    }
    if ctx.contest.status != ContestStatus::Upcoming {
        return Err(ContestError::ContestAlreadyStarted);
    }
    let new_start = match start_time {
        Some(s) => s,
        None => ctx.contest.start_time,
    };
    let new_end = match end_time {
        Some(e) => e,
        None => ctx.contest.end_time,
    };
    if let Some(s) = start_time {
        if s <= now {
            return Err(ContestError::InvalidTimestamp);
        }
    }
    if (start_time.is_some() || end_time.is_some()) && !check_duration(new_start, new_end) {
        return Err(ContestError::InvalidTimestamp);
    }
    if let Some(t) = title {
        ctx.contest.title = t;
    }
    if let Some(d) = description {
        ctx.contest.description = d;
    }
    ctx.contest.start_time = new_start;
    ctx.contest.end_time = new_end;
    Ok(())
}

/// The four moves of the contest lifecycle.
pub open spec fn is_lifecycle_edge(from: ContestStatus, to: ContestStatus) -> bool {
    ||| from == ContestStatus::Upcoming && to == ContestStatus::Live
    ||| from == ContestStatus::Live && to == ContestStatus::Voting
    ||| from == ContestStatus::Voting && to == ContestStatus::Closed
    ||| from == ContestStatus::Closed && to == ContestStatus::Finalized
}

/// Whether contest `c` may move to `to` at time `now`, and if not, why.
pub open spec fn status_change(c: ContestAccount, to: ContestStatus, now: i64) -> Result<
    (),
    ContestError,
> {
    if c.status == ContestStatus::Upcoming && to == ContestStatus::Live {
        if c.start_time <= now {
            Ok(())
        } else {
            Err(ContestError::InvalidTimestamp)
        }
    } else if c.status == ContestStatus::Live && to == ContestStatus::Voting {
        if c.entry_count >= MIN_ENTRIES_FOR_CONTEST {
            Ok(())
        } else {
            Err(ContestError::MinimumEntriesNotMet)
        }
    } else if c.status == ContestStatus::Voting && to == ContestStatus::Closed {
        if c.end_time <= now {
            Ok(())
        } else {
            Err(ContestError::ContestNotEnded)
        }
    } else if c.status == ContestStatus::Closed && to == ContestStatus::Finalized {
        if c.winners_decided {
            Ok(())
        } else {
            Err(ContestError::WinnersNotDecided)
        }
    } else {
        Err(ContestError::InvalidStatusTransition)
    }
}

/// Moves a contest one step along its lifecycle when the step's guard holds.
/// Only the contest's authority may do so; nothing else changes.
pub fn update_contest_status(ctx: &mut UpdateContestStatus, new_status: ContestStatus, now: i64)
    -> (r: Result<(), ContestError>)
    ensures
        old(ctx).authority != old(ctx).contest.authority ==> r == Err::<(), ContestError>(
            ContestError::Unauthorized,
        ),
        old(ctx).authority == old(ctx).contest.authority ==> r == status_change(
            old(ctx).contest,
            new_status,
            now,
        ),
        r is Ok ==> final(ctx).authority == old(ctx).authority && final(ctx).contest == (
        ContestAccount { status: new_status, ..old(ctx).contest }),
        r is Err ==> *final(ctx) == *old(ctx),
{
    if !ctx.authority.same(&ctx.contest.authority) {
        return Err(ContestError::Unauthorized);
    }
    let contest = &ctx.contest;
    let allowed = match (contest.status, new_status) {
        (ContestStatus::Upcoming, ContestStatus::Live) => {
            if contest.start_time <= now {
                Ok(())
            } else {
                Err(ContestError::InvalidTimestamp)
            }
        },
        (ContestStatus::Live, ContestStatus::Voting) => {
            if contest.entry_count >= MIN_ENTRIES_FOR_CONTEST {
                Ok(())
            } else {
                Err(ContestError::MinimumEntriesNotMet)
            }
        },
        (ContestStatus::Voting, ContestStatus::Closed) => {
            if contest.end_time <= now {
                Ok(())
            } else {
                Err(ContestError::ContestNotEnded)
            }
        },
        (ContestStatus::Closed, ContestStatus::Finalized) => {
            if contest.winners_decided {
                Ok(())
            } else {
                Err(ContestError::WinnersNotDecided)
            }
        },
        _ => Err(ContestError::InvalidStatusTransition),
    };
    if allowed.is_err() {
        return allowed;
    }
    ctx.contest.status = new_status;
    Ok(())
}

} // verus!
