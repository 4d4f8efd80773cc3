use vstd::prelude::*;

verus! {

/// Every way an operation can fail. A failed operation changes no record and
/// moves no funds.
#[derive(Clone, Copy, Debug, PartialEq, Eq, Structural)]
pub enum ContestError {
    ContestAlreadyStarted,
    InvalidStatusTransition,
    EntryPeriodEnded,
    VotingPeriodEnded,
    InsufficientEntryFee,
    InsufficientVoteFee,
    AlreadyVoted,
    PrizesAlreadyDistributed,
    Unauthorized,
    InvalidTimestamp,
    InvalidFeePercentage,
    WinnersNotDecided,
    ContestNotEnded,
    InvalidRanking,
    InsufficientEntries,
    MinimumEntriesNotMet,
    /// An accumulator or a fee computation would leave the range of its type.
    ArithmeticOverflow,
    /// The entry named by the caller belongs to another contest.
    EntryContestMismatch,
    /// The participant already has an entry in the contest.
    EntryAlreadyExists,
}

} // verus!
