use crate::error::VotingError;
use crate::state::{PollAccaount, PollView};
use vstd::prelude::*;

verus! {

/// A poll as it stands right after it is set up: the given texts and voting
/// window, and no candidates yet.
pub open spec fn new_poll(
    name: Seq<char>,
    description: Seq<char>,
    voting_start: u64,
    voting_end: u64,
) -> PollView {
    PollView { name, description, voting_start, voting_end, candidates_count: 0 }
}

/// The accounts of a poll's set-up: the poll being created.
pub struct InitializePoll {
    pub poll_account: PollAccaount,
}

impl InitializePoll {
    /// Sets up the poll: its name, description and voting window, with no
    /// candidates. The poll's address was chosen from `poll_id` when the
    /// account was created.
    pub fn init_poll(
        &mut self,
        _poll_id: u64,
        poll_start: u64,
        poll_end: u64,
        poll_name: String,
        poll_description: String,
    ) -> (r: Result<(), VotingError>)
        ensures
            r is Ok,
            final(self).poll_account@ == new_poll(
                poll_name@,
                poll_description@,
                poll_start,
                poll_end,
            ),
            final(self).poll_account.poll_name@ == poll_name@,
            final(self).poll_account.poll_description@ == poll_description@,
            final(self).poll_account.poll_voting_start == poll_start,
            final(self).poll_account.poll_voting_end == poll_end,
            final(self).poll_account.poll_candidates_count == 0,
    {
        self.poll_account.poll_name = poll_name;
        self.poll_account.poll_description = poll_description;
        self.poll_account.poll_voting_start = poll_start;
        self.poll_account.poll_voting_end = poll_end;
        self.poll_account.poll_candidates_count = 0;
        Ok(())
    }
}

} // verus!
