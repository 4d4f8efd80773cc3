use vstd::prelude::*;

use crate::key::Pubkey;

verus! {

/// Platform-wide settings, created once.
#[derive(Clone, Copy, Debug, PartialEq, Eq)]
pub struct PlatformConfig {
    pub authority: Pubkey,
    /// Share the platform takes, in percent (0 to 100).
    pub platform_fee_percentage: u8,
    pub min_entry_fee: u64,
    pub min_vote_fee: u64,
}

impl PlatformConfig {
    pub open spec fn wf(&self) -> bool {
        self.platform_fee_percentage <= 100
    }
}

/// Phase of a contest. The only moves are
/// `Upcoming -> Live -> Voting -> Closed -> Finalized`.
#[derive(Clone, Copy, Debug, PartialEq, Eq, Structural)]
pub enum ContestStatus {
    Upcoming,
    Live,
    Voting,
    Closed,
    Finalized,
}

/// A contest and its running totals.
#[derive(Clone, Debug, PartialEq, Eq)]
pub struct ContestAccount {
    /// The contest's key; its entries, votes and treasury refer to it.
    pub contest_id: [u8; 32],
    pub authority: Pubkey,
    pub title: String,
    pub description: String,
    pub start_time: i64,
    pub end_time: i64,
    pub entry_fee: u64,
    pub vote_fee: u64,
    pub status: ContestStatus,
    /// Address of the treasury that holds the contest's funds.
    pub treasury: Pubkey,
    pub entry_count: u32,
    pub vote_count: u32,
    /// Sum of the net amounts credited by entries, votes and contributions.
    pub total_prize_pool: u64,
    pub winners_decided: bool,
}

impl ContestAccount {
    pub open spec fn spec_key(&self) -> Pubkey {
        Pubkey { bytes: self.contest_id }
    }

    /// The identity under which entries, votes and the treasury refer to this
    /// contest.
    pub fn key(&self) -> (r: Pubkey)
        ensures
            r == self.spec_key(),
    {
        Pubkey { bytes: self.contest_id }
    }
}

/// One participant's submission to a contest.
#[derive(Clone, Debug, PartialEq, Eq)]
pub struct EntryAccount {
    /// Key of the contest the entry belongs to.
    pub contest: Pubkey,
    pub participant: Pubkey,
    pub content_uri: String,
    pub timestamp: i64,
    pub vote_count: u32,
    /// Sum of the stake weights of the votes cast for this entry.
    pub weighted_votes: u64,
    /// Place in the final ranking, from 1; unset until votes are counted.
    pub rank: Option<u32>,
}

/// One paid, stake-weighted vote.
#[derive(Clone, Copy, Debug, PartialEq, Eq)]
pub struct VoteAccount {
    pub voter: Pubkey,
    /// Key of the contest voted in.
    pub contest: Pubkey,
    /// The entry voted for, named by its participant: a contest holds one
    /// entry per participant.
    pub entry: Pubkey,
    pub timestamp: i64,
    pub token_amount: u64,
}

/// The funds held for one contest.
#[derive(Clone, Copy, Debug, PartialEq, Eq)]
pub struct TreasuryAccount {
    /// Key of the contest the treasury serves.
    pub contest: Pubkey,
    pub authority: Pubkey,
    /// Everything collected, gross.
    pub total_funds: u64,
    /// The platform's accumulated share.
    pub platform_fee: u64,
    /// The accumulated net share, to be paid out to the winners.
    pub prize_pool: u64,
    pub is_distributed: bool,
}

impl TreasuryAccount {
    /// Gross funds are exactly the platform's share plus the prize pool.
    pub open spec fn balanced(&self) -> bool {
        self.total_funds == self.platform_fee + self.prize_pool
    }
}

/// A movement of value that an operation asks the environment to perform.
#[derive(Clone, Copy, Debug, PartialEq, Eq)]
pub struct Transfer {
    pub from: Pubkey,
    pub to: Pubkey,
    pub amount: u64,
}

} // verus!
