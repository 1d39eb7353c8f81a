use crate::error::VotingError;
use crate::state::{CandidateAccount, CandidateView, PollAccaount, PollView};
use vstd::prelude::*;

verus! {

/// The poll after one more candidate is registered under it: one more in its
/// count, all else the same.
pub open spec fn with_candidate(poll: PollView) -> PollView {
    PollView { candidates_count: poll.candidates_count + 1, ..poll }
}

/// A candidate as it stands right after it is registered: its name, and no
/// votes.
pub open spec fn new_candidate(name: Seq<char>) -> CandidateView {
    CandidateView { name, votes: 0 }
}

/// The accounts of a candidate's registration: the poll it joins, and the
/// candidate being created.
pub struct InitializeCandidate {
    pub poll_account: PollAccaount,
    pub candidate_account: CandidateAccount,
}

impl InitializeCandidate {
    /// Registers the candidate under the poll: the candidate gets its name and
    /// no votes, and the poll counts one candidate more.
    pub fn init_canadidate(&mut self, _poll_id: u64, candidate_name: String) -> (r: Result<
        (),
        VotingError,
    >)
        requires
            old(self).poll_account.poll_candidates_count < u64::MAX,
        ensures
            r is Ok,
            final(self).candidate_account@ == new_candidate(candidate_name@),
            final(self).poll_account@ == with_candidate(old(self).poll_account@),
            final(self).candidate_account.candidate_name@ == candidate_name@,
            final(self).candidate_account.candidate_votes == 0,
            final(self).poll_account.poll_candidates_count == old(self).poll_account.poll_candidates_count + 1,
            final(self).poll_account.poll_name == old(self).poll_account.poll_name,
            final(self).poll_account.poll_description == old(self).poll_account.poll_description,
            final(self).poll_account.poll_voting_start == old(self).poll_account.poll_voting_start,
            final(self).poll_account.poll_voting_end == old(self).poll_account.poll_voting_end,
    {
        self.candidate_account.candidate_name = candidate_name;
        self.candidate_account.candidate_votes = 0;
        self.poll_account.poll_candidates_count = self.poll_account.poll_candidates_count + 1;
        Ok(())
    }
}

} // verus!
