use vstd::prelude::*;

verus! {

/// Share of every entry and vote payment that goes to the platform, in percent.
pub const PLATFORM_FEE_PERCENTAGE: u8 = 10;

/// Shortest allowed contest, in seconds (one day).
pub const MIN_CONTEST_DURATION: i64 = 60 * 60 * 24;

/// Longest allowed contest, in seconds (thirty days).
pub const MAX_CONTEST_DURATION: i64 = 60 * 60 * 24 * 30;

/// Entries a contest needs before it may move from `Live` to `Voting`.
pub const MIN_ENTRIES_FOR_CONTEST: u32 = 3;

/// Shares of the prize pool paid to the first three places, in percent.
pub const FIRST_PLACE_PERCENTAGE: u8 = 50;

pub const SECOND_PLACE_PERCENTAGE: u8 = 30;

pub const THIRD_PLACE_PERCENTAGE: u8 = 20;

/// Storage limits of the text fields; the environment enforces them when it
/// stores a record.
pub const MAX_TITLE_LENGTH: usize = 100;

pub const MAX_DESCRIPTION_LENGTH: usize = 1000;

pub const MAX_URI_LENGTH: usize = 200;

} // verus!
