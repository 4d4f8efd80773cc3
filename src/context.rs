use vstd::prelude::*;

use crate::key::Pubkey;
use crate::state::{ContestAccount, EntryAccount, PlatformConfig, TreasuryAccount};

verus! {

/// The records and identities that each operation works on. The environment
/// loads them, authenticates the caller named in them, and stores back what
/// the operation returns or leaves in them.
#[derive(Clone, Debug, PartialEq, Eq)]
pub struct InitializePlatform {
    pub authority: Pubkey,
}

#[derive(Clone, Debug, PartialEq, Eq)]
pub struct CreateContest {
    pub authority: Pubkey,
    /// Address the environment gave the new contest's treasury.
    pub treasury: Pubkey,
    pub platform_config: PlatformConfig,
}

#[derive(Clone, Debug, PartialEq, Eq)]
pub struct UpdateContest {
    pub authority: Pubkey,
    pub contest: ContestAccount,
}

#[derive(Clone, Debug, PartialEq, Eq)]
pub struct UpdateContestStatus {
    pub authority: Pubkey,
    pub contest: ContestAccount,
}

#[derive(Clone, Debug, PartialEq, Eq)]
pub struct SubmitEntry {
    pub participant: Pubkey,
    pub contest: ContestAccount,
    pub treasury: TreasuryAccount,
}

#[derive(Clone, Debug, PartialEq, Eq)]
pub struct UpdateEntry {
    pub participant: Pubkey,
    pub contest: ContestAccount,
    pub entry: EntryAccount,
}

#[derive(Clone, Debug, PartialEq, Eq)]
pub struct CastVote {
    pub voter: Pubkey,
    pub contest: ContestAccount,
    pub entry: EntryAccount,
    pub treasury: TreasuryAccount,
}

#[derive(Clone, Debug, PartialEq, Eq)]
pub struct CountVotes {
    pub authority: Pubkey,
    pub contest: ContestAccount,
    /// Every entry of the contest.
    pub entries: Vec<EntryAccount>,
}

#[derive(Clone, Debug, PartialEq, Eq)]
pub struct AddFundsToPrizePool {
    pub contributor: Pubkey,
    pub contest: ContestAccount,
    pub treasury: TreasuryAccount,
}

#[derive(Clone, Debug, PartialEq, Eq)]
pub struct DistributePrizes {
    pub authority: Pubkey,
    pub contest: ContestAccount,
    pub treasury: TreasuryAccount,
    pub platform_wallet: Pubkey,
    pub first_place_recipient: Pubkey,
    pub second_place_recipient: Pubkey,
    pub third_place_recipient: Pubkey,
}

} // verus!
