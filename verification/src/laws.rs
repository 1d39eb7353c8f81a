//! What holds of the program across its instructions.

use crate::error::ErrorVote;
use crate::instructions::initialize_candidate::{new_candidate, with_candidate};
use crate::instructions::initialize_poll::new_poll;
use crate::error::VotingError;
use crate::instructions::vote::{
    after_outcome, after_vote, as_timestamp, reported, vote_verdict, voting_open,
};
use crate::state::{CandidateView, PollView};
use vstd::prelude::*;

verus! {

/// The candidate after votes for it are cast at each of `times` in turn.
pub open spec fn votes_over(candidate: CandidateView, poll: PollView, times: Seq<i64>) -> CandidateView
    decreases times.len(),
{
    if times.len() == 0 {
        candidate
    } else {
        after_vote(votes_over(candidate, poll, times.drop_last()), poll, times.last())
    }
}

/// The candidate after successive vote instructions on it reported `outcomes`.
pub open spec fn after_outcomes(candidate: CandidateView, outcomes: Seq<Result<(), VotingError>>) -> CandidateView
    decreases outcomes.len(),
{
    if outcomes.len() == 0 {
        candidate
    } else {
        after_outcome(after_outcomes(candidate, outcomes.drop_last()), outcomes.last())
    }
}

/// How many of `outcomes` are successes.
pub open spec fn successes(outcomes: Seq<Result<(), VotingError>>) -> nat {
    outcomes.filter(|r: Result<(), VotingError>| r is Ok).len()
}

/// How many of `times` fall in the poll's voting window.
pub open spec fn times_in_window(poll: PollView, times: Seq<i64>) -> nat {
    times.filter(|now: i64| voting_open(poll, now)).len()
}

/// The poll after `n` more candidates are registered under it.
pub open spec fn with_candidates(poll: PollView, n: nat) -> PollView
    decreases n,
{
    if n == 0 {
        poll
    } else {
        with_candidate(with_candidates(poll, (n - 1) as nat))
    }
}

/// A poll set up with given texts and window holds exactly those texts and
/// that window, and no candidates.
pub proof fn lemma_new_poll_keeps_inputs(name: Seq<char>, description: Seq<char>, start: u64, end: u64)
    ensures
        new_poll(name, description, start, end).name == name,
        new_poll(name, description, start, end).description == description,
        new_poll(name, description, start, end).voting_start == start,
        new_poll(name, description, start, end).voting_end == end,
        new_poll(name, description, start, end).candidates_count == 0,
{
}

/// A candidate registered under a name holds exactly that name, and no votes.
pub proof fn lemma_new_candidate_keeps_name(name: Seq<char>)
    ensures
        new_candidate(name).name == name,
        new_candidate(name).votes == 0,
{
}

/// Registering a candidate adds one to the poll's count and leaves its name,
/// description and window as they were.
pub proof fn lemma_registration_changes_only_the_count(poll: PollView)
    ensures
        with_candidate(poll).candidates_count == poll.candidates_count + 1,
        with_candidate(poll).name == poll.name,
        with_candidate(poll).description == poll.description,
        with_candidate(poll).voting_start == poll.voting_start,
        with_candidate(poll).voting_end == poll.voting_end,
{
}

/// A stored bound read as a timestamp is the one signed 64-bit value with the
/// same bits: it lies in the signed range and differs from the bound by a
/// multiple of 2^64.
pub proof fn lemma_timestamp_reading(bound: u64)
    ensures
        i64::MIN <= as_timestamp(bound) <= i64::MAX,
        (bound - as_timestamp(bound)) % 0x1_0000_0000_0000_0000 == 0,
        bound <= i64::MAX ==> as_timestamp(bound) == bound,
{
}

/// When the clock reports a time, the vote's report and the candidate after it
/// are those of a vote cast at that time: success exactly inside the window,
/// with one more vote; otherwise the refusal and the candidate unchanged.
pub proof fn lemma_clock_answer_decides(candidate: CandidateView, poll: PollView, now: i64)
    ensures
        reported(vote_verdict(poll, now)) is Ok <==> voting_open(poll, now),
        after_outcome(candidate, reported(vote_verdict(poll, now))) == after_vote(
            candidate,
            poll,
            now,
        ),
        voting_open(poll, now) ==> after_vote(candidate, poll, now).votes == candidate.votes + 1,
        !voting_open(poll, now) ==> after_vote(candidate, poll, now) == candidate,
{
}

/// A vote is accepted exactly when it is cast inside the poll's window: at or
/// after its start, and before its end.
pub proof fn lemma_vote_accepted_iff_in_window(poll: PollView, now: i64)
    ensures
        vote_verdict(poll, now) is Ok <==> as_timestamp(poll.voting_start) <= now < as_timestamp(
            poll.voting_end,
        ),
{
}

/// Once a poll's end has come, every vote is refused as done, whether or not
/// the poll has started.
pub proof fn lemma_vote_after_end_is_done(poll: PollView, now: i64)
    requires
        now >= as_timestamp(poll.voting_end),
    ensures
        vote_verdict(poll, now) == Err::<(), ErrorVote>(ErrorVote::DonePoll),
{
}

/// A poll whose end does not come after its start accepts no vote at any time.
pub proof fn lemma_empty_window_accepts_no_vote(poll: PollView, now: i64)
    requires
        as_timestamp(poll.voting_end) <= as_timestamp(poll.voting_start),
    ensures
        vote_verdict(poll, now) is Err,
{
}

/// A refused vote leaves the candidate as it was; an accepted one adds exactly
/// one vote and keeps the name.
pub proof fn lemma_vote_changes_only_the_count(candidate: CandidateView, poll: PollView, now: i64)
    ensures
        after_vote(candidate, poll, now).name == candidate.name,
        vote_verdict(poll, now) is Err ==> after_vote(candidate, poll, now) == candidate,
        vote_verdict(poll, now) is Ok ==> after_vote(candidate, poll, now).votes == candidate.votes
            + 1,
{
}

/// After votes are cast at each of `times`, a candidate holds the votes it had
/// plus one for each time that fell inside the poll's window; its name stays.
pub proof fn lemma_tally(candidate: CandidateView, poll: PollView, times: Seq<i64>)
    ensures
        votes_over(candidate, poll, times).votes == candidate.votes + times_in_window(poll, times),
        votes_over(candidate, poll, times).name == candidate.name,
    decreases times.len(),
{
    reveal(Seq::filter);
    if times.len() > 0 {
        lemma_tally(candidate, poll, times.drop_last());
    }
}

/// Votes are never taken away: whatever votes are cast, a candidate's count
/// does not go down.
pub proof fn lemma_votes_never_decrease(candidate: CandidateView, poll: PollView, times: Seq<i64>)
    ensures
        votes_over(candidate, poll, times).votes >= candidate.votes,
{
    lemma_tally(candidate, poll, times);
}

/// Across successive vote instructions on one candidate, each leaving it as
/// its report says (one vote more on success, unchanged on failure), the
/// candidate ends with the votes it had plus one per success, keeps its name,
/// and never loses a vote.
pub proof fn lemma_tally_over_calls(candidate: CandidateView, outcomes: Seq<Result<(), VotingError>>)
    ensures
        after_outcomes(candidate, outcomes).votes == candidate.votes + successes(outcomes),
        after_outcomes(candidate, outcomes).votes >= candidate.votes,
        after_outcomes(candidate, outcomes).name == candidate.name,
    decreases outcomes.len(),
{
    reveal(Seq::filter);
    if outcomes.len() > 0 {
        lemma_tally_over_calls(candidate, outcomes.drop_last());
    }
}

/// Registering a candidate changes no vote's answer: the window stays as it was.
pub proof fn lemma_registration_keeps_verdicts(poll: PollView, now: i64)
    ensures
        vote_verdict(with_candidate(poll), now) == vote_verdict(poll, now),
{
}

/// After `n` registrations a poll counts `n` candidates more, and its name,
/// description and window are those it had.
pub proof fn lemma_registrations_count(poll: PollView, n: nat)
    ensures
        with_candidates(poll, n).candidates_count == poll.candidates_count + n,
        with_candidates(poll, n).name == poll.name,
        with_candidates(poll, n).description == poll.description,
        with_candidates(poll, n).voting_start == poll.voting_start,
        with_candidates(poll, n).voting_end == poll.voting_end,
    decreases n,
{
    if n > 0 {
        lemma_registrations_count(poll, (n - 1) as nat);
    }
}

} // verus!
