use vstd::prelude::*;

use crate::constants::{FIRST_PLACE_PERCENTAGE, SECOND_PLACE_PERCENTAGE, THIRD_PLACE_PERCENTAGE};
use crate::context::{AddFundsToPrizePool, DistributePrizes};
use crate::errors::ContestError;
use crate::ledger::{
    contribution_fits, credit_contribution, percent_of, percentage_of, pools_agree,
};
use crate::state::{ContestAccount, ContestStatus, Transfer, TreasuryAccount};

verus! {

/// Adds a direct contribution to a contest's prize pool. Anyone may
/// contribute; the platform takes no share of it.
pub fn add_funds_to_prize_pool(ctx: &mut AddFundsToPrizePool, amount: u64) -> (r: Result<
    Transfer,
    ContestError,
>)
    ensures
        r is Ok <==> contribution_fits(old(ctx).contest, old(ctx).treasury, amount as int),
        r is Err ==> r == Err::<Transfer, ContestError>(ContestError::ArithmeticOverflow)
            && *final(ctx) == *old(ctx),
        r matches Ok(t) ==> {
            &&& t == (Transfer {
                from: old(ctx).contributor,
                to: old(ctx).contest.treasury,
                amount,
            })
            &&& final(ctx).contributor == old(ctx).contributor
            &&& final(ctx).contest == (ContestAccount {
                total_prize_pool: (old(ctx).contest.total_prize_pool + amount) as u64,
                ..old(ctx).contest
            })
            &&& final(ctx).treasury == (TreasuryAccount {
                total_funds: (old(ctx).treasury.total_funds + amount) as u64,
                prize_pool: (old(ctx).treasury.prize_pool + amount) as u64,
                ..old(ctx).treasury
            })
        },
        old(ctx).treasury.balanced() ==> final(ctx).treasury.balanced(),
        pools_agree(old(ctx).contest, old(ctx).treasury) ==> pools_agree(
            final(ctx).contest,
            final(ctx).treasury,
        ),
{
    credit_contribution(&mut ctx.contest, &mut ctx.treasury, amount)?;
    Ok(Transfer { from: ctx.contributor, to: ctx.contest.treasury, amount })
}

/// Why `distribute_prizes` refuses, if it does.
pub open spec fn distribute_error(ctx: DistributePrizes) -> Option<ContestError> {
    if ctx.authority != ctx.contest.authority {
        Some(ContestError::Unauthorized)
    } else if ctx.contest.status != ContestStatus::Finalized {
        Some(ContestError::ContestNotEnded)
    } else if !ctx.contest.winners_decided {
        Some(ContestError::WinnersNotDecided)
    } else if ctx.treasury.is_distributed {
        Some(ContestError::PrizesAlreadyDistributed)
    } else if ctx.treasury.prize_pool * FIRST_PLACE_PERCENTAGE > u64::MAX {
        Some(ContestError::ArithmeticOverflow)
    } else {
        None
    }
}

/// The four payments of a settlement, in order: the platform's accumulated
/// fee, then 50%, 30% and 20% of the prize pool, each rounded down, to the
/// first, second and third place.
pub open spec fn payout(ctx: DistributePrizes) -> Seq<Transfer> {
    let from = ctx.contest.treasury;
    let pool = ctx.treasury.prize_pool as int;
    seq![
        Transfer { from, to: ctx.platform_wallet, amount: ctx.treasury.platform_fee },
        Transfer {
            from,
            to: ctx.first_place_recipient,
            amount: percent_of(pool, FIRST_PLACE_PERCENTAGE as int) as u64,
        },
        Transfer {
            from,
            to: ctx.second_place_recipient,
            amount: percent_of(pool, SECOND_PLACE_PERCENTAGE as int) as u64,
        },
        Transfer {
            from,
            to: ctx.third_place_recipient,
            amount: percent_of(pool, THIRD_PLACE_PERCENTAGE as int) as u64,
        },
    ]
}

/// The records after a settlement: the treasury is marked as distributed and
/// keeps its totals, so the rounding remainder stays in it.
pub open spec fn settled(ctx: DistributePrizes) -> DistributePrizes {
    DistributePrizes { treasury: TreasuryAccount { is_distributed: true, ..ctx.treasury }, ..ctx }
}

/// Settles a finalized contest once: returns the four payments of `payout`
/// and marks the treasury as distributed. The recipients are those the
/// authority names. The caller performs the payments and keeps the new
/// records only if all four succeed, so a failed payment leaves the
/// distribution open to a retry.
pub fn distribute_prizes(ctx: &mut DistributePrizes) -> (r: Result<Vec<Transfer>, ContestError>)
    ensures
        r is Ok <==> distribute_error(*old(ctx)) is None,
        r matches Err(e) ==> distribute_error(*old(ctx)) == Some(e) && *final(ctx) == *old(ctx),
        r matches Ok(payments) ==> payments@ == payout(*old(ctx)) && *final(ctx) == settled(
            *old(ctx),
        ),
        old(ctx).treasury.balanced() ==> final(ctx).treasury.balanced(),
{
    if !ctx.authority.same(&ctx.contest.authority) {
        return Err(ContestError::Unauthorized);
    }
    if ctx.contest.status != ContestStatus::Finalized {
        return Err(ContestError::ContestNotEnded);
    }
    if !ctx.contest.winners_decided {
        return Err(ContestError::WinnersNotDecided);
    }
    if ctx.treasury.is_distributed {
        return Err(ContestError::PrizesAlreadyDistributed);
    }
    let pool = ctx.treasury.prize_pool;
    let first = percentage_of(pool, FIRST_PLACE_PERCENTAGE)?;
    let second = percentage_of(pool, SECOND_PLACE_PERCENTAGE)?;
    let third = percentage_of(pool, THIRD_PLACE_PERCENTAGE)?;
    let from = ctx.contest.treasury;
    let mut payments: Vec<Transfer> = Vec::new();
    payments.push(
        Transfer { from, to: ctx.platform_wallet, amount: ctx.treasury.platform_fee },
    );
    payments.push(Transfer { from, to: ctx.first_place_recipient, amount: first });
    payments.push(Transfer { from, to: ctx.second_place_recipient, amount: second });
    payments.push(Transfer { from, to: ctx.third_place_recipient, amount: third });
    ctx.treasury.is_distributed = true;
    assert(payments@ =~= payout(*old(ctx)));
    Ok(payments)
}

} // verus!
