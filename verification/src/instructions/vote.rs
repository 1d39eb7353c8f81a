use crate::error::{ErrorVote, VotingError};
use crate::state::{CandidateAccount, CandidateView, PollAccaount, PollView};
use anchor_lang::prelude::{Clock, ProgramError, SolanaSysvar};
use vstd::prelude::*;

verus! {

/// A stored time bound read as a signed UNIX timestamp, as the program
/// compares it with the clock: the same 64 bits taken as two's complement, so
/// that a bound above `i64::MAX` reads as a negative time.
pub open spec fn as_timestamp(bound: u64) -> int {
    if bound <= i64::MAX {
        bound as int
    } else {
        bound - 0x1_0000_0000_0000_0000
    }
}

/// The moments at which a poll accepts votes: from its start, up to but not
/// including its end.
pub open spec fn voting_open(poll: PollView, now: i64) -> bool {
    as_timestamp(poll.voting_start) <= now < as_timestamp(poll.voting_end)
}

/// The answer to a vote cast at `now`: a poll whose end has come refuses it
/// as done, one whose start has not come refuses it as not started, and any
/// other accepts it.
pub open spec fn vote_verdict(poll: PollView, now: i64) -> Result<(), ErrorVote> {
    if now >= as_timestamp(poll.voting_end) {
        Err(ErrorVote::DonePoll)
    } else if now < as_timestamp(poll.voting_start) {
        Err(ErrorVote::UnstaredPoll)
    } else {
        Ok(())
    }
}

/// The candidate after a vote for it is cast at `now`: one vote more when the
/// poll accepts the vote, unchanged otherwise.
pub open spec fn after_vote(candidate: CandidateView, poll: PollView, now: i64) -> CandidateView {
    if vote_verdict(poll, now) is Ok {
        CandidateView { votes: candidate.votes + 1, ..candidate }
    } else {
        candidate
    }
}

/// What an instruction reports for a vote's verdict.
pub open spec fn reported(verdict: Result<(), ErrorVote>) -> Result<(), VotingError> {
    match verdict {
        Ok(()) => Ok(()),
        Err(e) => Err(VotingError::Rejected(e)),
    }
}

/// The candidate after a vote instruction reported `r`: one vote more when it
/// succeeded, unchanged when it failed.
pub open spec fn after_outcome(candidate: CandidateView, r: Result<(), VotingError>) -> CandidateView {
    if r is Ok {
        CandidateView { votes: candidate.votes + 1, ..candidate }
    } else {
        candidate
    }
}

/// Reads a poll bound as a signed timestamp.
fn bound_as_timestamp(bound: u64) -> (t: i64)
    ensures
        t as int == as_timestamp(bound),
{
    let t = bound as i64;
    proof {
        if bound > 0x7fff_ffff_ffff_ffff {
            assert(bound > 0x7fff_ffff_ffff_ffff ==> bound as i64 == bound - 0x1_0000_0000_0000_0000)
                by (bit_vector);
        }
    }
    t
}

/// Reads the cluster clock with `Clock::get` (the runtime's clock sysvar) and
/// hands back its `unix_timestamp`, or the `ProgramError` that the runtime
/// reported. Nothing is stated of either: the time is whatever the runtime
/// says, and off-chain the runtime stubs report `UnsupportedSysvar`.
#[verifier::external_body]
fn current_unix_timestamp() -> Result<i64, ProgramError> {
    match Clock::get() {
        Ok(clock) => Ok(clock.unix_timestamp),
        Err(e) => Err(e),
    }
}

impl PollAccaount {
    /// Whether some moment falls inside the poll's voting window, that is,
    /// whether its end comes after its start.
    pub fn has_voting_window(&self) -> (b: bool)
        ensures
            b == (as_timestamp(self.poll_voting_start) < as_timestamp(self.poll_voting_end)),
            b <==> exists|now: i64| voting_open(self@, now),
    {
        let start = bound_as_timestamp(self.poll_voting_start);
        let end = bound_as_timestamp(self.poll_voting_end);
        proof {
            if start < end {
                assert(voting_open(self@, start));
            }
        }
        start < end
    }

    /// Whether the poll accepts a vote cast at `now`.
    pub fn accepts_vote_at(&self, now: i64) -> (b: bool)
        ensures
            b == voting_open(self@, now),
            b <==> vote_verdict(self@, now) is Ok,
    {
        let start = bound_as_timestamp(self.poll_voting_start);
        let end = bound_as_timestamp(self.poll_voting_end);
        start <= now && now < end
    }
}

/// The accounts of a vote: the poll, and the candidate voted for.
pub struct Vote {
    pub poll_account: PollAccaount,
    pub candidate_account: CandidateAccount,
}

impl Vote {
    /// Casts a vote for the candidate at time `now`.
    pub fn vote_at(&mut self, now: i64) -> (r: Result<(), ErrorVote>)
        requires
            voting_open(old(self).poll_account@, now) ==> old(self).candidate_account.candidate_votes
                < u64::MAX,
        ensures
            r == vote_verdict(old(self).poll_account@, now),
            r is Ok <==> voting_open(old(self).poll_account@, now),
            final(self).poll_account == old(self).poll_account,
            final(self).candidate_account@ == after_vote(
                old(self).candidate_account@,
                old(self).poll_account@,
                now,
            ),
            r is Err ==> *final(self) == *old(self),
            now >= as_timestamp(old(self).poll_account.poll_voting_end) ==> r == Err::<(), ErrorVote>(
                ErrorVote::DonePoll,
            ),
            now < as_timestamp(old(self).poll_account.poll_voting_end) && now < as_timestamp(
                old(self).poll_account.poll_voting_start,
            ) ==> r == Err::<(), ErrorVote>(ErrorVote::UnstaredPoll),
            as_timestamp(old(self).poll_account.poll_voting_start) <= now < as_timestamp(
                old(self).poll_account.poll_voting_end,
            ) ==> r == Ok::<(), ErrorVote>(()) && final(self).candidate_account.candidate_votes == old(
                self,
            ).candidate_account.candidate_votes + 1 && final(self).candidate_account.candidate_name
                == old(self).candidate_account.candidate_name,
    {
        let end = bound_as_timestamp(self.poll_account.poll_voting_end);
        let start = bound_as_timestamp(self.poll_account.poll_voting_start);
        if now >= end {
            return Err(ErrorVote::DonePoll);
        } else if now < start {
            return Err(ErrorVote::UnstaredPoll);
        }
        self.candidate_account.candidate_votes = self.candidate_account.candidate_votes + 1;
        Ok(())
    }

    /// Casts a vote for the candidate with what the cluster clock answered:
    /// the time it reported, or the error it failed with.
    pub fn vote_with_clock(&mut self, clock: Result<i64, ProgramError>) -> (r: Result<
        (),
        VotingError,
    >)
        requires
            clock matches Ok(now) ==> (voting_open(old(self).poll_account@, now)
                ==> old(self).candidate_account.candidate_votes < u64::MAX),
        ensures
            clock matches Err(e) ==> r == Err::<(), VotingError>(VotingError::ClockUnavailable(e)),
            clock matches Ok(now) ==> r == reported(vote_verdict(old(self).poll_account@, now)),
            clock matches Ok(now) ==> final(self).candidate_account@ == after_vote(
                old(self).candidate_account@,
                old(self).poll_account@,
                now,
            ),
            final(self).poll_account == old(self).poll_account,
            final(self).candidate_account@ == after_outcome(old(self).candidate_account@, r),
            r is Err ==> *final(self) == *old(self),
            clock matches Ok(now) ==> (now >= as_timestamp(old(self).poll_account.poll_voting_end)
                ==> r == Err::<(), VotingError>(VotingError::Rejected(ErrorVote::DonePoll))),
            clock matches Ok(now) ==> (now < as_timestamp(old(self).poll_account.poll_voting_end)
                && now < as_timestamp(old(self).poll_account.poll_voting_start) ==> r == Err::<
                (),
                VotingError,
            >(VotingError::Rejected(ErrorVote::UnstaredPoll))),
            clock matches Ok(now) ==> (as_timestamp(old(self).poll_account.poll_voting_start) <= now
                < as_timestamp(old(self).poll_account.poll_voting_end) ==> r == Ok::<(), VotingError>(
                ()) && final(self).candidate_account.candidate_votes == old(
                self,
            ).candidate_account.candidate_votes + 1),
    {
        match clock {
            Ok(now) => match self.vote_at(now) {
                Ok(()) => Ok(()),
                Err(e) => Err(VotingError::Rejected(e)),
            },
            Err(e) => Err(VotingError::ClockUnavailable(e)),
        }
    }

    /// Casts a vote for the candidate at the time the cluster clock reports.
    /// The poll and the candidate were chosen when the accounts were handed
    /// over; `poll_id` and `candidate_name` only named them.
    pub fn vote(&mut self, _poll_id: u64, _candidate_name: String) -> (r: Result<(), VotingError>)
        requires
            as_timestamp(old(self).poll_account.poll_voting_start) < as_timestamp(
                old(self).poll_account.poll_voting_end,
            ) ==> old(self).candidate_account.candidate_votes < u64::MAX,
        ensures
            final(self).poll_account == old(self).poll_account,
            final(self).candidate_account@ == after_outcome(old(self).candidate_account@, r),
            r is Err ==> *final(self) == *old(self),
            r is Ok ==> exists|now: i64| voting_open(old(self).poll_account@, now),
            r matches Err(VotingError::Rejected(e)) ==> exists|now: i64|
                #[trigger] vote_verdict(old(self).poll_account@, now) == Err::<(), ErrorVote>(e),
    {
        let clock = current_unix_timestamp();
        proof {
            if let Ok(now) = clock {
                if voting_open(self.poll_account@, now) {
                    assert(as_timestamp(self.poll_account.poll_voting_start) < as_timestamp(
                        self.poll_account.poll_voting_end,
                    ));
                }
            }
        }
        let ghost before = self.poll_account@;
        let ghost answer = clock;
        let r = self.vote_with_clock(clock);
        proof {
            if let Ok(now) = answer {
                assert(r == reported(vote_verdict(before, now)));
                if r is Ok {
                    assert(voting_open(before, now));
                }
            }
        }
        r
    }
}

} // verus!
