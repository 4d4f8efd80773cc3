use vstd::prelude::*;

use crate::constants::PLATFORM_FEE_PERCENTAGE;
use crate::errors::ContestError;
use crate::state::{ContestAccount, TreasuryAccount};

verus! {

/// `percent` percent of `amount`, rounded down.
pub open spec fn percent_of(amount: int, percent: int) -> int {
    amount * percent / 100
}

/// The platform's share of a fee-bearing payment.
pub open spec fn platform_share_of(amount: int) -> int {
    percent_of(amount, PLATFORM_FEE_PERCENTAGE as int)
}

/// A payment split into the platform's share and the rest.
#[derive(Clone, Copy, Debug, PartialEq, Eq, Structural)]
pub struct FeeSplit {
    pub platform_share: u64,
    pub net_share: u64,
}

/// Whether `split_fee(amount, fee_percent)` can be computed in `u64`.
pub open spec fn split_fits(amount: int, fee_percent: int) -> bool {
    &&& amount * fee_percent <= u64::MAX
    &&& percent_of(amount, fee_percent) <= amount
}

/// `percent` percent of `amount`, rounded down, with a checked product.
pub fn percentage_of(amount: u64, percent: u8) -> (r: Result<u64, ContestError>)
    ensures
        amount * percent <= u64::MAX ==> r == Ok::<u64, ContestError>(
            percent_of(amount as int, percent as int) as u64,
        ),
        amount * percent > u64::MAX ==> r == Err::<u64, ContestError>(
            ContestError::ArithmeticOverflow,
        ),
{
    match amount.checked_mul(percent as u64) {
        Some(product) => Ok(product / 100),
        None => Err(ContestError::ArithmeticOverflow),
    }
}

/// Splits `amount` into `floor(amount * fee_percent / 100)` for the platform
/// and the remainder, so that the two parts add up to `amount` exactly.
pub fn split_fee(amount: u64, fee_percent: u8) -> (r: Result<FeeSplit, ContestError>)
    ensures
        split_fits(amount as int, fee_percent as int) <==> r is Ok,
        r is Err ==> r == Err::<FeeSplit, ContestError>(ContestError::ArithmeticOverflow),
        r matches Ok(s) ==> {
            &&& s.platform_share == percent_of(amount as int, fee_percent as int)
            &&& s.platform_share + s.net_share == amount
        },
{
    let platform_share = percentage_of(amount, fee_percent)?;
    match amount.checked_sub(platform_share) {
        Some(net_share) => Ok(FeeSplit { platform_share, net_share }),
        None => Err(ContestError::ArithmeticOverflow),
    }
}

/// Whether a fee-bearing payment of `amount` can be credited without any
/// accumulator leaving `u64`.
pub open spec fn payment_fits(c: ContestAccount, t: TreasuryAccount, amount: int) -> bool {
    let share = platform_share_of(amount);
    &&& amount * PLATFORM_FEE_PERCENTAGE <= u64::MAX
    &&& t.total_funds + amount <= u64::MAX
    &&& t.platform_fee + share <= u64::MAX
    &&& t.prize_pool + (amount - share) <= u64::MAX
    &&& c.total_prize_pool + (amount - share) <= u64::MAX
}

/// The treasury after a fee-bearing payment: the gross amount to
/// `total_funds`, the platform's share to `platform_fee`, the rest to the
/// prize pool.
pub open spec fn paid_treasury(t: TreasuryAccount, amount: int) -> TreasuryAccount {
    let share = platform_share_of(amount);
    TreasuryAccount {
        total_funds: (t.total_funds + amount) as u64,
        platform_fee: (t.platform_fee + share) as u64,
        prize_pool: (t.prize_pool + (amount - share)) as u64,
        ..t
    }
}

/// The contest after a fee-bearing payment: the net share joins its prize pool.
pub open spec fn paid_contest(c: ContestAccount, amount: int) -> ContestAccount {
    ContestAccount {
        total_prize_pool: (c.total_prize_pool + (amount - platform_share_of(amount))) as u64,
        ..c
    }
}

/// The contest's running prize pool mirrors the treasury's.
pub open spec fn pools_agree(c: ContestAccount, t: TreasuryAccount) -> bool {
    c.total_prize_pool == t.prize_pool
}

/// Credits a fee-bearing payment to a contest and its treasury, or changes
/// nothing when a sum would overflow.
pub fn credit_payment(contest: &mut ContestAccount, treasury: &mut TreasuryAccount, amount: u64)
    -> (r: Result<(), ContestError>)
    ensures
        payment_fits(*old(contest), *old(treasury), amount as int) <==> r is Ok,
        r is Ok ==> *final(contest) == paid_contest(*old(contest), amount as int)
            && *final(treasury) == paid_treasury(*old(treasury), amount as int),
        r is Err ==> r == Err::<(), ContestError>(ContestError::ArithmeticOverflow)
            && *final(contest) == *old(contest) && *final(treasury) == *old(treasury),
        old(treasury).balanced() ==> final(treasury).balanced(),
        pools_agree(*old(contest), *old(treasury)) ==> pools_agree(*final(contest), *final(treasury)),
{
    let total_funds = match treasury.total_funds.checked_add(amount) {
        Some(v) => v,
        None => return Err(ContestError::ArithmeticOverflow),
    };
    let split = split_fee(amount, PLATFORM_FEE_PERCENTAGE)?;
    let platform_fee = match treasury.platform_fee.checked_add(split.platform_share) {
        Some(v) => v,
        None => return Err(ContestError::ArithmeticOverflow),
    };
    let prize_pool = match treasury.prize_pool.checked_add(split.net_share) {
        Some(v) => v,
        None => return Err(ContestError::ArithmeticOverflow),
    };
    let total_prize_pool = match contest.total_prize_pool.checked_add(split.net_share) {
        Some(v) => v,
        None => return Err(ContestError::ArithmeticOverflow),
    };
    treasury.total_funds = total_funds;
    treasury.platform_fee = platform_fee;
    treasury.prize_pool = prize_pool;
    contest.total_prize_pool = total_prize_pool;
    Ok(())
}

/// Whether a direct contribution of `amount` can be credited without any
/// accumulator leaving `u64`.
pub open spec fn contribution_fits(c: ContestAccount, t: TreasuryAccount, amount: int) -> bool {
    &&& t.total_funds + amount <= u64::MAX
    &&& t.prize_pool + amount <= u64::MAX
    &&& c.total_prize_pool + amount <= u64::MAX
}

/// Credits a direct contribution: the whole amount joins the prize pool, the
/// platform takes nothing. Changes nothing when a sum would overflow.
pub fn credit_contribution(
    contest: &mut ContestAccount,
    treasury: &mut TreasuryAccount,
    amount: u64,
) -> (r: Result<(), ContestError>)
    ensures
        contribution_fits(*old(contest), *old(treasury), amount as int) <==> r is Ok,
        r is Ok ==> *final(contest) == (ContestAccount {
            total_prize_pool: (old(contest).total_prize_pool + amount) as u64,
            ..*old(contest)
        }) && *final(treasury) == (TreasuryAccount {
            total_funds: (old(treasury).total_funds + amount) as u64,
            prize_pool: (old(treasury).prize_pool + amount) as u64,
            ..*old(treasury)
        }),
        r is Err ==> r == Err::<(), ContestError>(ContestError::ArithmeticOverflow)
            && *final(contest) == *old(contest) && *final(treasury) == *old(treasury),
        old(treasury).balanced() ==> final(treasury).balanced(),
        pools_agree(*old(contest), *old(treasury)) ==> pools_agree(*final(contest), *final(treasury)),
{
    let total_funds = match treasury.total_funds.checked_add(amount) {
        Some(v) => v,
        None => return Err(ContestError::ArithmeticOverflow),
    };
    let prize_pool = match treasury.prize_pool.checked_add(amount) {
        Some(v) => v,
        None => return Err(ContestError::ArithmeticOverflow),
    };
    let total_prize_pool = match contest.total_prize_pool.checked_add(amount) {
        Some(v) => v,
        None => return Err(ContestError::ArithmeticOverflow),
    };
    treasury.total_funds = total_funds;
    treasury.prize_pool = prize_pool;
    contest.total_prize_pool = total_prize_pool;
    Ok(())
}

} // verus!
