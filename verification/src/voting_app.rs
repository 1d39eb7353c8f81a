//! The program's instructions, each handed the accounts it works on.

use crate::error::{ErrorVote, VotingError};
use crate::instructions::initialize_candidate::{new_candidate, with_candidate, InitializeCandidate};
use crate::instructions::initialize_poll::{new_poll, InitializePoll};
use crate::instructions::vote::{after_outcome, as_timestamp, vote_verdict, voting_open, Vote};
use vstd::prelude::*;

verus! {

/// Sets up a poll with its name, description and voting window.
pub fn initialize_poll(
    ctx: &mut InitializePoll,
    poll_id: u64,
    poll_start: u64,
    poll_end: u64,
    poll_name: String,
    poll_description: String,
) -> (r: Result<(), VotingError>)
    ensures
        r is Ok,
        final(ctx).poll_account@ == new_poll(poll_name@, poll_description@, poll_start, poll_end),
        final(ctx).poll_account.poll_name@ == poll_name@,
        final(ctx).poll_account.poll_description@ == poll_description@,
        final(ctx).poll_account.poll_voting_start == poll_start,
        final(ctx).poll_account.poll_voting_end == poll_end,
        final(ctx).poll_account.poll_candidates_count == 0,
{
    ctx.init_poll(poll_id, poll_start, poll_end, poll_name, poll_description)
}

/// Registers a candidate under a poll.
pub fn initialize_candidate(
    ctx: &mut InitializeCandidate,
    poll_id: u64,
    candidate_name: String,
) -> (r: Result<(), VotingError>)
    requires
        old(ctx).poll_account.poll_candidates_count < u64::MAX,
    ensures
        r is Ok,
        final(ctx).candidate_account@ == new_candidate(candidate_name@),
        final(ctx).poll_account@ == with_candidate(old(ctx).poll_account@),
        final(ctx).candidate_account.candidate_name@ == candidate_name@,
        final(ctx).candidate_account.candidate_votes == 0,
        final(ctx).poll_account.poll_candidates_count == old(ctx).poll_account.poll_candidates_count + 1,
        final(ctx).poll_account.poll_name == old(ctx).poll_account.poll_name,
        final(ctx).poll_account.poll_description == old(ctx).poll_account.poll_description,
        final(ctx).poll_account.poll_voting_start == old(ctx).poll_account.poll_voting_start,
        final(ctx).poll_account.poll_voting_end == old(ctx).poll_account.poll_voting_end,
{
    ctx.init_canadidate(poll_id, candidate_name)
}

/// Casts a vote for a candidate of a poll at the time the cluster clock reports.
pub fn vote(ctx: &mut Vote, poll_id: u64, candidate_name: String) -> (r: Result<(), VotingError>)
    requires
        as_timestamp(old(ctx).poll_account.poll_voting_start) < as_timestamp(
            old(ctx).poll_account.poll_voting_end,
        ) ==> old(ctx).candidate_account.candidate_votes < u64::MAX,
    ensures
        final(ctx).poll_account == old(ctx).poll_account,
        final(ctx).candidate_account@ == after_outcome(old(ctx).candidate_account@, r),
        r is Err ==> *final(ctx) == *old(ctx),
        r is Ok ==> exists|now: i64| voting_open(old(ctx).poll_account@, now),
        r matches Err(VotingError::Rejected(e)) ==> exists|now: i64|
            #[trigger] vote_verdict(old(ctx).poll_account@, now) == Err::<(), ErrorVote>(e),
{
    ctx.vote(poll_id, candidate_name)
}

} // verus!
