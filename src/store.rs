use vstd::prelude::*;

use crate::errors::ContestError;
use crate::key::Pubkey;
use crate::state::{EntryAccount, VoteAccount};

verus! {

/// Whether `entries` holds an entry of `participant` in `contest`.
pub open spec fn entry_exists(entries: Seq<EntryAccount>, contest: Pubkey, participant: Pubkey) -> bool {
    exists|i: int|
        0 <= i < entries.len() && #[trigger] entries[i].contest == contest && entries[i].participant
            == participant
}

/// Whether `votes` holds a vote of `voter` for `entry` in `contest`.
pub open spec fn vote_exists(votes: Seq<VoteAccount>, voter: Pubkey, contest: Pubkey, entry: Pubkey) -> bool {
    exists|i: int|
        0 <= i < votes.len() && #[trigger] votes[i].voter == voter && votes[i].contest == contest
            && votes[i].entry == entry
}

/// No two entries share a contest and participant.
pub open spec fn entries_unique(entries: Seq<EntryAccount>) -> bool {
    forall|i: int, j: int|
        0 <= i < entries.len() && 0 <= j < entries.len() && i != j ==> !(#[trigger] entries[i].contest
            == #[trigger] entries[j].contest && entries[i].participant == entries[j].participant)
}

/// No two votes share a voter, contest and entry.
pub open spec fn votes_unique(votes: Seq<VoteAccount>) -> bool {
    forall|i: int, j: int|
        0 <= i < votes.len() && 0 <= j < votes.len() && i != j ==> !(#[trigger] votes[i].voter
            == #[trigger] votes[j].voter && votes[i].contest == votes[j].contest && votes[i].entry
            == votes[j].entry)
}

/// The recorded entries and votes, keyed so that a participant enters a
/// contest once and a voter votes for an entry once.
pub struct RecordStore {
    entries: Vec<EntryAccount>,
    votes: Vec<VoteAccount>,
}

impl RecordStore {
    pub closed spec fn entries(&self) -> Seq<EntryAccount> {
        self.entries@
    }

    pub closed spec fn votes(&self) -> Seq<VoteAccount> {
        self.votes@
    }

    pub open spec fn wf(&self) -> bool {
        entries_unique(self.entries()) && votes_unique(self.votes())
    }

    pub fn new() -> (r: RecordStore)
        ensures
            r.wf(),
            r.entries() == Seq::<EntryAccount>::empty(),
            r.votes() == Seq::<VoteAccount>::empty(),
    {
        RecordStore { entries: Vec::new(), votes: Vec::new() }
    }

    pub fn entry_count(&self) -> (r: usize)
        ensures
            r == self.entries().len(),
    {
        self.entries.len()
    }

    pub fn vote_count(&self) -> (r: usize)
        ensures
            r == self.votes().len(),
    {
        self.votes.len()
    }

    /// Whether `participant` already has an entry in `contest`.
    pub fn has_entry(&self, contest: &Pubkey, participant: &Pubkey) -> (r: bool)
        ensures
            r == entry_exists(self.entries(), *contest, *participant),
    {
        let mut i: usize = 0;
        while i < self.entries.len()
            invariant
                0 <= i <= self.entries@.len(),
                forall|k: int|
                    0 <= k < i ==> !(#[trigger] self.entries@[k].contest == *contest
                        && self.entries@[k].participant == *participant),
            decreases self.entries@.len() - i,
        {
            if self.entries[i].contest.same(contest) && self.entries[i].participant.same(
                participant,
            ) {
                return true;
            }
            i = i + 1;
        }
        false
    }

    /// Whether `voter` already voted for `entry` in `contest`.
    pub fn has_vote(&self, voter: &Pubkey, contest: &Pubkey, entry: &Pubkey) -> (r: bool)
        ensures
            r == vote_exists(self.votes(), *voter, *contest, *entry),
    {
        let mut i: usize = 0;
        while i < self.votes.len()
            invariant
                0 <= i <= self.votes@.len(),
                forall|k: int|
                    0 <= k < i ==> !(#[trigger] self.votes@[k].voter == *voter
                        && self.votes@[k].contest == *contest && self.votes@[k].entry == *entry),
            decreases self.votes@.len() - i,
        {
            let v = &self.votes[i];
            if v.voter.same(voter) && v.contest.same(contest) && v.entry.same(entry) {
                return true;
            }
            i = i + 1;
        }
        false
    }

    /// Stores a new entry, refusing a second one of the same participant in
    /// the same contest.
    pub fn insert_entry(&mut self, entry: EntryAccount) -> (r: Result<(), ContestError>)
        requires
            old(self).wf(),
        ensures
            final(self).wf(),
            final(self).votes() == old(self).votes(),
            entry_exists(old(self).entries(), entry.contest, entry.participant) ==> r == Err::<
                (),
                ContestError,
            >(ContestError::EntryAlreadyExists) && final(self).entries() == old(self).entries(),
            !entry_exists(old(self).entries(), entry.contest, entry.participant) ==> r == Ok::<
                (),
                ContestError,
            >(()) && final(self).entries() == old(self).entries().push(entry),
    {
        if self.has_entry(&entry.contest, &entry.participant) {
            return Err(ContestError::EntryAlreadyExists);
        }
        self.entries.push(entry);
        Ok(())
    }

    /// Stores a new vote, refusing a second one of the same voter for the
    /// same entry.
    pub fn insert_vote(&mut self, vote: VoteAccount) -> (r: Result<(), ContestError>)
        requires
            old(self).wf(),
        ensures
            final(self).wf(),
            final(self).entries() == old(self).entries(),
            vote_exists(old(self).votes(), vote.voter, vote.contest, vote.entry) ==> r == Err::<
                (),
                ContestError,
            >(ContestError::AlreadyVoted) && final(self).votes() == old(self).votes(),
            !vote_exists(old(self).votes(), vote.voter, vote.contest, vote.entry) ==> r == Ok::<
                (),
                ContestError,
            >(()) && final(self).votes() == old(self).votes().push(vote),
    {
        if self.has_vote(&vote.voter, &vote.contest, &vote.entry) {
            return Err(ContestError::AlreadyVoted);
        }
        self.votes.push(vote);
        Ok(())
    }
}

} // verus!
