use contest_program::contest::{create_contest, update_contest_status};
use contest_program::context::{
    AddFundsToPrizePool, CastVote, CountVotes, CreateContest, DistributePrizes, SubmitEntry, UpdateContestStatus,
    UpdateEntry,
};
use contest_program::entry::{submit_entry, update_entry};
use contest_program::errors::ContestError;
use contest_program::key::Pubkey;
use contest_program::state::{ContestAccount, ContestStatus, EntryAccount, PlatformConfig, Transfer, TreasuryAccount};
use contest_program::store::RecordStore;
use contest_program::treasury::{add_funds_to_prize_pool, distribute_prizes};
use contest_program::voting::{cast_vote, count_votes};

const DAY: i64 = 86_400;
const START: i64 = 1_000;

fn key(b: u8) -> Pubkey {
    Pubkey::new([b; 32])
}

fn fresh() -> (ContestAccount, TreasuryAccount) {
    let ctx = CreateContest {
        authority: key(1),
        treasury: key(9),
        platform_config: PlatformConfig { authority: key(2), platform_fee_percentage: 10, min_entry_fee: 1, min_vote_fee: 1 },
    };
    create_contest(&ctx, [7; 32], "Memes".to_string(), "Weekly".to_string(), START, START + DAY, 100, 10, 0).unwrap()
}

fn advance(contest: ContestAccount, to: ContestStatus, now: i64) -> ContestAccount {
    let mut ctx = UpdateContestStatus { authority: key(1), contest };
    update_contest_status(&mut ctx, to, now).unwrap();
    ctx.contest
}

fn enter(contest: ContestAccount, treasury: TreasuryAccount, who: u8, now: i64) -> (ContestAccount, TreasuryAccount, EntryAccount, Transfer) {
    let mut ctx = SubmitEntry { participant: key(who), contest, treasury };
    let (entry, transfer) = submit_entry(&mut ctx, format!("ipfs://{}", who), now).unwrap();
    (ctx.contest, ctx.treasury, entry, transfer)
}

fn vote(contest: ContestAccount, treasury: TreasuryAccount, entry: EntryAccount, voter: u8, tokens: u64) -> (ContestAccount, TreasuryAccount, EntryAccount, Transfer) {
    let mut ctx = CastVote { voter: key(voter), contest, entry, treasury };
    let (_, transfer) = cast_vote(&mut ctx, tokens, START + 10).unwrap();
    (ctx.contest, ctx.treasury, ctx.entry, transfer)
}

fn distribute_ctx(contest: ContestAccount, treasury: TreasuryAccount) -> DistributePrizes {
    DistributePrizes {
        authority: key(1),
        contest,
        treasury,
        platform_wallet: key(20),
        first_place_recipient: key(21),
        second_place_recipient: key(22),
        third_place_recipient: key(23),
    }
}

#[test]
fn end_to_end_contest_pays_out_with_remainder() {
    let (contest, treasury) = fresh();
    let contest = advance(contest, ContestStatus::Live, START);
    let (contest, treasury, e1, t1) = enter(contest, treasury, 31, START + 1);
    let (contest, treasury, e2, _) = enter(contest, treasury, 32, START + 2);
    let (contest, treasury, e3, _) = enter(contest, treasury, 33, START + 3);
    assert_eq!(t1, Transfer { from: key(31), to: key(9), amount: 100 });
    assert_eq!((treasury.total_funds, treasury.platform_fee, treasury.prize_pool), (300, 30, 270));
    assert_eq!(contest.entry_count, 3);
    let contest = advance(contest, ContestStatus::Voting, START + 5);
    let (contest, treasury, e2, tv) = vote(contest, treasury, e2, 40, 5);
    assert_eq!(tv, Transfer { from: key(40), to: key(9), amount: 50 });
    assert_eq!((treasury.total_funds, treasury.platform_fee, treasury.prize_pool), (350, 35, 315));
    assert_eq!(contest.total_prize_pool, 315);
    assert_eq!(contest.vote_count, 1);
    assert_eq!((e2.vote_count, e2.weighted_votes), (1, 5));
    let contest = advance(contest, ContestStatus::Closed, START + DAY);
    let mut cv = CountVotes { authority: key(1), contest, entries: vec![e1, e2, e3] };
    assert_eq!(count_votes(&mut cv), Ok(()));
    let ranks: Vec<Option<u32>> = cv.entries.iter().map(|e| e.rank).collect();
    assert_eq!(ranks, vec![Some(2), Some(1), Some(3)]);
    let contest = advance(cv.contest, ContestStatus::Finalized, START + DAY);
    let mut dp = distribute_ctx(contest, treasury);
    let payments = distribute_prizes(&mut dp).unwrap();
    assert_eq!(
        payments,
        vec![
            Transfer { from: key(9), to: key(20), amount: 35 },
            Transfer { from: key(9), to: key(21), amount: 157 },
            Transfer { from: key(9), to: key(22), amount: 94 },
            Transfer { from: key(9), to: key(23), amount: 63 },
        ]
    );
    let paid: u64 = payments.iter().map(|p| p.amount).sum();
    assert_eq!(dp.treasury.total_funds - paid, 1);
    assert!(dp.treasury.is_distributed);
    assert_eq!(dp.treasury.total_funds, dp.treasury.platform_fee + dp.treasury.prize_pool);
}

#[test]
fn second_distribution_is_refused() {
    let (mut contest, mut treasury) = fresh();
    contest.status = ContestStatus::Finalized;
    contest.winners_decided = true;
    treasury.prize_pool = 1_000;
    treasury.total_funds = 1_000;
    let mut dp = distribute_ctx(contest, treasury);
    assert_eq!(distribute_prizes(&mut dp).map(|p| p.len()), Ok(4));
    let after = dp.clone();
    assert_eq!(distribute_prizes(&mut dp), Err(ContestError::PrizesAlreadyDistributed));
    assert_eq!(dp, after);
}

#[test]
fn distribution_guards() {
    let (mut contest, treasury) = fresh();
    contest.status = ContestStatus::Closed;
    contest.winners_decided = true;
    let mut dp = distribute_ctx(contest.clone(), treasury);
    assert_eq!(distribute_prizes(&mut dp), Err(ContestError::ContestNotEnded));
    contest.status = ContestStatus::Finalized;
    contest.winners_decided = false;
    let mut dp = distribute_ctx(contest.clone(), treasury);
    assert_eq!(distribute_prizes(&mut dp), Err(ContestError::WinnersNotDecided));
    contest.winners_decided = true;
    let mut dp = distribute_ctx(contest.clone(), treasury);
    dp.authority = key(5);
    assert_eq!(distribute_prizes(&mut dp), Err(ContestError::Unauthorized));
    let mut big = treasury;
    big.prize_pool = u64::MAX;
    let mut dp = distribute_ctx(contest, big);
    assert_eq!(distribute_prizes(&mut dp), Err(ContestError::ArithmeticOverflow));
    assert!(!dp.treasury.is_distributed);
}

#[test]
fn prize_shares_round_down() {
    let (mut contest, mut treasury) = fresh();
    contest.status = ContestStatus::Finalized;
    contest.winners_decided = true;
    treasury.prize_pool = 99;
    treasury.total_funds = 99;
    let mut dp = distribute_ctx(contest, treasury);
    let amounts: Vec<u64> = distribute_prizes(&mut dp).unwrap().iter().map(|p| p.amount).collect();
    assert_eq!(amounts, vec![0, 49, 29, 19]);
}

#[test]
fn entry_needs_live_contest() {
    let (contest, treasury) = fresh();
    let mut ctx = SubmitEntry { participant: key(30), contest, treasury };
    let before = ctx.clone();
    assert_eq!(submit_entry(&mut ctx, "x".to_string(), START).map(|_| ()), Err(ContestError::EntryPeriodEnded));
    assert_eq!(ctx, before);
}

#[test]
fn entry_overflow_leaves_records_unchanged() {
    let (contest, treasury) = fresh();
    let mut contest = advance(contest, ContestStatus::Live, START);
    contest.total_prize_pool = u64::MAX - 50;
    let mut ctx = SubmitEntry { participant: key(30), contest, treasury };
    let before = ctx.clone();
    assert_eq!(submit_entry(&mut ctx, "x".to_string(), START).map(|_| ()), Err(ContestError::ArithmeticOverflow));
    assert_eq!(ctx, before);
    ctx.contest.total_prize_pool = 0;
    ctx.contest.entry_count = u32::MAX;
    let before = ctx.clone();
    assert_eq!(submit_entry(&mut ctx, "x".to_string(), START).map(|_| ()), Err(ContestError::ArithmeticOverflow));
    assert_eq!(ctx, before);
}

#[test]
fn entry_records_participant_and_content() {
    let (contest, treasury) = fresh();
    let contest = advance(contest, ContestStatus::Live, START);
    let (_, _, entry, _) = enter(contest, treasury, 30, START + 7);
    assert_eq!(entry.participant, key(30));
    assert_eq!(entry.contest, key(7));
    assert_eq!(entry.content_uri, "ipfs://30");
    assert_eq!(entry.timestamp, START + 7);
    assert_eq!((entry.vote_count, entry.weighted_votes, entry.rank), (0, 0, None));
}

#[test]
fn update_entry_rules() {
    let (contest, treasury) = fresh();
    let contest = advance(contest, ContestStatus::Live, START);
    let (contest, _, entry, _) = enter(contest, treasury, 30, START);
    let mut ctx = UpdateEntry { participant: key(31), contest: contest.clone(), entry: entry.clone() };
    assert_eq!(update_entry(&mut ctx, "new".to_string()), Err(ContestError::Unauthorized));
    let mut ctx = UpdateEntry { participant: key(30), contest: contest.clone(), entry: entry.clone() };
    assert_eq!(update_entry(&mut ctx, "new".to_string()), Ok(()));
    assert_eq!(ctx.entry.content_uri, "new");
    let mut other = entry.clone();
    other.contest = key(8);
    let mut ctx = UpdateEntry { participant: key(30), contest: contest.clone(), entry: other };
    assert_eq!(update_entry(&mut ctx, "new".to_string()), Err(ContestError::EntryContestMismatch));
    let mut voting = contest;
    voting.status = ContestStatus::Voting;
    let mut ctx = UpdateEntry { participant: key(30), contest: voting, entry };
    assert_eq!(update_entry(&mut ctx, "new".to_string()), Err(ContestError::EntryPeriodEnded));
    assert_eq!(ctx.entry.content_uri, "ipfs://30");
}

#[test]
fn vote_rules() {
    let (mut contest, treasury) = fresh();
    contest.status = ContestStatus::Live;
    let (contest, treasury, entry, _) = enter(contest, treasury, 30, START);
    let mut ctx = CastVote { voter: key(40), contest: contest.clone(), entry: entry.clone(), treasury };
    assert_eq!(cast_vote(&mut ctx, 1, START).map(|_| ()), Err(ContestError::VotingPeriodEnded));
    let mut voting = contest;
    voting.status = ContestStatus::Voting;
    let mut stray = entry.clone();
    stray.contest = key(8);
    let mut ctx = CastVote { voter: key(40), contest: voting.clone(), entry: stray, treasury };
    assert_eq!(cast_vote(&mut ctx, 1, START).map(|_| ()), Err(ContestError::EntryContestMismatch));
    let mut ctx = CastVote { voter: key(40), contest: voting.clone(), entry: entry.clone(), treasury };
    let before = ctx.clone();
    assert_eq!(cast_vote(&mut ctx, u64::MAX, START).map(|_| ()), Err(ContestError::ArithmeticOverflow));
    assert_eq!(ctx, before);
    let (vote, transfer) = cast_vote(&mut ctx, 3, START + 4).unwrap();
    assert_eq!(vote.token_amount, 3);
    assert_eq!(vote.entry, key(30));
    assert_eq!(vote.contest, key(7));
    assert_eq!(vote.voter, key(40));
    assert_eq!(vote.timestamp, START + 4);
    assert_eq!(transfer.amount, 30);
    assert_eq!((ctx.treasury.total_funds, ctx.treasury.platform_fee, ctx.treasury.prize_pool), (130, 13, 117));
}

#[test]
fn contribution_skips_platform_fee() {
    let (contest, treasury) = fresh();
    let mut ctx = AddFundsToPrizePool { contributor: key(50), contest, treasury };
    let t = add_funds_to_prize_pool(&mut ctx, 500).unwrap();
    assert_eq!(t, Transfer { from: key(50), to: key(9), amount: 500 });
    assert_eq!((ctx.treasury.total_funds, ctx.treasury.platform_fee, ctx.treasury.prize_pool), (500, 0, 500));
    assert_eq!(ctx.contest.total_prize_pool, 500);
    let before = ctx.clone();
    assert_eq!(add_funds_to_prize_pool(&mut ctx, u64::MAX), Err(ContestError::ArithmeticOverflow));
    assert_eq!(ctx, before);
}

fn ranked_entry(who: u8, weight: u64, time: i64) -> EntryAccount {
    EntryAccount {
        contest: key(7),
        participant: key(who),
        content_uri: String::new(),
        timestamp: time,
        vote_count: 0,
        weighted_votes: weight,
        rank: None,
    }
}

#[test]
fn ranking_breaks_ties_by_time_then_position() {
    let (mut contest, _) = fresh();
    contest.status = ContestStatus::Closed;
    contest.entry_count = 5;
    let entries = vec![
        ranked_entry(1, 10, 50),
        ranked_entry(2, 30, 60),
        ranked_entry(3, 10, 40),
        ranked_entry(4, 10, 40),
        ranked_entry(5, 0, 1),
    ];
    let mut ctx = CountVotes { authority: key(1), contest, entries };
    assert_eq!(count_votes(&mut ctx), Ok(()));
    let ranks: Vec<Option<u32>> = ctx.entries.iter().map(|e| e.rank).collect();
    assert_eq!(ranks, vec![Some(4), Some(1), Some(2), Some(3), Some(5)]);
    assert!(ctx.contest.winners_decided);
    // Counting again before finalization gives the same ranks.
    assert_eq!(count_votes(&mut ctx), Ok(()));
    let again: Vec<Option<u32>> = ctx.entries.iter().map(|e| e.rank).collect();
    assert_eq!(again, ranks);
}

#[test]
fn count_votes_guards() {
    let (mut contest, _) = fresh();
    contest.entry_count = 1;
    let mut ctx = CountVotes { authority: key(1), contest: contest.clone(), entries: vec![ranked_entry(1, 0, 0)] };
    assert_eq!(count_votes(&mut ctx), Err(ContestError::ContestNotEnded));
    contest.status = ContestStatus::Closed;
    let mut ctx = CountVotes { authority: key(6), contest: contest.clone(), entries: vec![ranked_entry(1, 0, 0)] };
    assert_eq!(count_votes(&mut ctx), Err(ContestError::Unauthorized));
    let mut ctx = CountVotes { authority: key(1), contest: contest.clone(), entries: vec![] };
    assert_eq!(count_votes(&mut ctx), Err(ContestError::InsufficientEntries));
    let mut stray = ranked_entry(1, 0, 0);
    stray.contest = key(8);
    let mut ctx = CountVotes { authority: key(1), contest: contest.clone(), entries: vec![stray] };
    let before = ctx.clone();
    assert_eq!(count_votes(&mut ctx), Err(ContestError::EntryContestMismatch));
    assert_eq!(ctx, before);
    contest.entry_count = 0;
    let mut ctx = CountVotes { authority: key(1), contest, entries: vec![] };
    assert_eq!(count_votes(&mut ctx), Ok(()));
    assert!(ctx.contest.winners_decided);
}

#[test]
fn store_refuses_duplicates() {
    let mut store = RecordStore::new();
    assert_eq!(store.insert_entry(ranked_entry(1, 0, 0)), Ok(()));
    assert_eq!(store.insert_entry(ranked_entry(2, 0, 0)), Ok(()));
    assert_eq!(store.insert_entry(ranked_entry(1, 5, 9)), Err(ContestError::EntryAlreadyExists));
    let mut elsewhere = ranked_entry(1, 0, 0);
    elsewhere.contest = key(8);
    assert_eq!(store.insert_entry(elsewhere), Ok(()));
    assert_eq!(store.entry_count(), 3);
    assert!(store.has_entry(&key(7), &key(2)));
    assert!(!store.has_entry(&key(8), &key(2)));
    let v = contest_program::state::VoteAccount { voter: key(40), contest: key(7), entry: key(1), timestamp: 0, token_amount: 1 };
    assert_eq!(store.insert_vote(v), Ok(()));
    assert_eq!(store.insert_vote(v), Err(ContestError::AlreadyVoted));
    let mut w = v;
    w.entry = key(2);
    assert_eq!(store.insert_vote(w), Ok(()));
    assert_eq!(store.vote_count(), 2);
    assert!(store.has_vote(&key(40), &key(7), &key(2)));
}
