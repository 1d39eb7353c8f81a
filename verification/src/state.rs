use vstd::prelude::*;

verus! {

/// The stored data of a poll.
pub struct PollAccaount {
    pub poll_name: String,
    pub poll_description: String,
    /// First moment (UNIX seconds) at which votes are accepted.
    pub poll_voting_start: u64,
    /// First moment (UNIX seconds) at which votes are no longer accepted.
    pub poll_voting_end: u64,
    /// How many candidates have been registered under the poll.
    pub poll_candidates_count: u64,
}

/// The stored data of one candidate of a poll.
pub struct CandidateAccount {
    pub candidate_name: String,
    /// How many votes the candidate has received.
    pub candidate_votes: u64,
}

/// What a poll is, as a mathematical value.
pub struct PollView {
    pub name: Seq<char>,
    pub description: Seq<char>,
    pub voting_start: u64,
    pub voting_end: u64,
    pub candidates_count: nat,
}

/// What a candidate is, as a mathematical value.
pub struct CandidateView {
    pub name: Seq<char>,
    pub votes: nat,
}

impl View for PollAccaount {
    type V = PollView;

    open spec fn view(&self) -> PollView {
        PollView {
            name: self.poll_name@,
            description: self.poll_description@,
            voting_start: self.poll_voting_start,
            voting_end: self.poll_voting_end,
            candidates_count: self.poll_candidates_count as nat,
        }
    }
}

impl View for CandidateAccount {
    type V = CandidateView;

    open spec fn view(&self) -> CandidateView {
        CandidateView { name: self.candidate_name@, votes: self.candidate_votes as nat }
    }
}

impl Default for PollAccaount {
    /// A poll account as it is when first created: empty texts and zeros.
    fn default() -> (poll: Self)
        ensures
            poll@ == (PollView {
                name: Seq::empty(),
                description: Seq::empty(),
                voting_start: 0,
                voting_end: 0,
                candidates_count: 0,
            }),
    {
        PollAccaount {
            poll_name: String::new(),
            poll_description: String::new(),
            poll_voting_start: 0,
            poll_voting_end: 0,
            poll_candidates_count: 0,
        }
    }
}

impl Default for CandidateAccount {
    /// A candidate account as it is when first created: an empty name and no votes.
    fn default() -> (candidate: Self)
        ensures
            candidate@ == (CandidateView { name: Seq::empty(), votes: 0 }),
    {
        CandidateAccount { candidate_name: String::new(), candidate_votes: 0 }
    }
}

} // verus!
