use anchor_lang::prelude::ProgramError;
use voting_app::voting_app::{initialize_candidate, initialize_poll, vote};
use voting_app::{
    CandidateAccount, ErrorVote, InitializeCandidate, InitializePoll, PollAccaount, Vote,
    VotingError,
};

/// The time that the test validator's clock starts at.
const GENESIS_TIME: i64 = 0;

fn set_up_poll(poll_start: u64, poll_end: u64) -> PollAccaount {
    let mut ctx = InitializePoll { poll_account: PollAccaount::default() };
    ctx.init_poll(
        1,
        poll_start,
        poll_end,
        String::from("POLL TEST"),
        String::from("Test Poll init"),
    )
    .expect("Initialize poll transaction failed");
    ctx.poll_account
}

fn register(poll: PollAccaount, name: &str) -> (PollAccaount, CandidateAccount) {
    let mut ctx = InitializeCandidate {
        poll_account: poll,
        candidate_account: CandidateAccount::default(),
    };
    ctx.init_canadidate(1, name.to_string())
        .expect("Initialize candidate transaction failed");
    (ctx.poll_account, ctx.candidate_account)
}

#[test]
fn test_init_poll() {
    let poll = set_up_poll(0, i64::MAX as u64);
    assert_eq!(poll.poll_name, "POLL TEST");
    assert_eq!(poll.poll_description, "Test Poll init");
    assert_eq!(poll.poll_voting_start, 0);
    assert_eq!(poll.poll_voting_end, i64::MAX as u64);
}

#[test]
fn test_init_candidate() {
    let poll = set_up_poll(0, i64::MAX as u64);
    let (poll, candidate) = register(poll, "Noha");
    assert_eq!(poll.poll_name, "POLL TEST");
    assert_eq!(poll.poll_description, "Test Poll init");
    assert_eq!(poll.poll_voting_start, 0);
    assert_eq!(poll.poll_voting_end, i64::MAX as u64);
    assert_eq!(candidate.candidate_name, "Noha");
    assert_eq!(poll.poll_candidates_count, 1);
}

#[test]
fn test_vote() {
    let poll = set_up_poll(0, i64::MAX as u64);
    let (poll, candidate) = register(poll, "Noha");
    let mut ctx = Vote { poll_account: poll, candidate_account: candidate };
    ctx.vote_at(GENESIS_TIME).expect("vote transaction failed");
    let poll = &ctx.poll_account;
    assert_eq!(poll.poll_name, "POLL TEST");
    assert_eq!(poll.poll_description, "Test Poll init");
    assert_eq!(poll.poll_voting_start, 0);
    assert_eq!(poll.poll_voting_end, i64::MAX as u64);
    assert_eq!(ctx.candidate_account.candidate_name, "Noha");
    assert_eq!(ctx.candidate_account.candidate_votes, 1);
}

#[test]
fn test_vote_end_fails() {
    let poll = set_up_poll(0, 0);
    let (poll, candidate) = register(poll, "Noha");
    let mut ctx = Vote { poll_account: poll, candidate_account: candidate };
    let result = ctx.vote_at(GENESIS_TIME);
    assert!(result.is_err(), "Transaction should fail because the poll has ended");
}

#[test]
fn vote_before_start_is_refused_as_not_started() {
    let poll = set_up_poll(100, 200);
    let (poll, candidate) = register(poll, "Noha");
    let mut ctx = Vote { poll_account: poll, candidate_account: candidate };
    assert_eq!(ctx.vote_at(99), Err(ErrorVote::UnstaredPoll));
    assert_eq!(ctx.candidate_account.candidate_votes, 0);
    assert_eq!(ctx.candidate_account.candidate_name, "Noha");
}

#[test]
fn vote_at_end_is_refused_as_done() {
    let poll = set_up_poll(100, 200);
    let (poll, candidate) = register(poll, "Noha");
    let mut ctx = Vote { poll_account: poll, candidate_account: candidate };
    assert_eq!(ctx.vote_at(200), Err(ErrorVote::DonePoll));
    assert_eq!(ctx.vote_at(i64::MAX), Err(ErrorVote::DonePoll));
    assert_eq!(ctx.candidate_account.candidate_votes, 0);
}

#[test]
fn window_bounds_start_inclusive_end_exclusive() {
    let poll = set_up_poll(100, 200);
    let (poll, candidate) = register(poll, "Noha");
    let mut ctx = Vote { poll_account: poll, candidate_account: candidate };
    assert_eq!(ctx.vote_at(100), Ok(()));
    assert_eq!(ctx.vote_at(199), Ok(()));
    assert_eq!(ctx.candidate_account.candidate_votes, 2);
}

#[test]
fn vote_after_end_before_start_reports_done() {
    // start after end: every time is either past the end or before the start;
    // the end is checked first
    let poll = set_up_poll(300, 200);
    let (poll, candidate) = register(poll, "Noha");
    let mut ctx = Vote { poll_account: poll, candidate_account: candidate };
    assert_eq!(ctx.vote_at(250), Err(ErrorVote::DonePoll));
    assert_eq!(ctx.vote_at(150), Err(ErrorVote::UnstaredPoll));
    assert_eq!(ctx.vote_at(350), Err(ErrorVote::DonePoll));
    assert_eq!(ctx.candidate_account.candidate_votes, 0);
}

#[test]
fn end_above_signed_range_reads_as_past() {
    // u64::MAX read as a signed timestamp is -1: the poll is already over
    let poll = set_up_poll(0, u64::MAX);
    let (poll, candidate) = register(poll, "Noha");
    let mut ctx = Vote { poll_account: poll, candidate_account: candidate };
    assert_eq!(ctx.vote_at(0), Err(ErrorVote::DonePoll));
    assert_eq!(ctx.vote_at(-1), Err(ErrorVote::DonePoll));
    assert_eq!(ctx.vote_at(-2), Err(ErrorVote::UnstaredPoll));
}

#[test]
fn start_above_signed_range_reads_as_past() {
    // a start of 2^63 reads as i64::MIN, so the poll has always been open
    let poll = set_up_poll(1u64 << 63, 10);
    let (poll, candidate) = register(poll, "Noha");
    let mut ctx = Vote { poll_account: poll, candidate_account: candidate };
    assert_eq!(ctx.vote_at(i64::MIN), Ok(()));
    assert_eq!(ctx.vote_at(9), Ok(()));
    assert_eq!(ctx.vote_at(10), Err(ErrorVote::DonePoll));
    assert_eq!(ctx.candidate_account.candidate_votes, 2);
}

#[test]
fn tally_counts_only_votes_in_window() {
    let poll = set_up_poll(10, 20);
    let (poll, candidate) = register(poll, "Noha");
    let mut ctx = Vote { poll_account: poll, candidate_account: candidate };
    let times = [5, 10, 15, 20, 25, 19, 9];
    for t in times {
        let _ = ctx.vote_at(t);
    }
    assert_eq!(ctx.candidate_account.candidate_votes, 3);
    assert_eq!(ctx.candidate_account.candidate_name, "Noha");
}

#[test]
fn registrations_count_candidates_and_keep_window() {
    let poll = set_up_poll(10, 20);
    let (poll, first) = register(poll, "Noha");
    let (poll, second) = register(poll, "Sam");
    let (poll, third) = register(poll, "Lea");
    assert_eq!(poll.poll_candidates_count, 3);
    assert_eq!(poll.poll_voting_start, 10);
    assert_eq!(poll.poll_voting_end, 20);
    assert_eq!(poll.poll_name, "POLL TEST");
    assert_eq!(first.candidate_name, "Noha");
    assert_eq!(second.candidate_name, "Sam");
    assert_eq!(third.candidate_name, "Lea");
    assert_eq!(third.candidate_votes, 0);
}

#[test]
fn new_poll_overwrites_everything() {
    let mut ctx = InitializePoll {
        poll_account: PollAccaount {
            poll_name: String::from("old"),
            poll_description: String::from("old"),
            poll_voting_start: 7,
            poll_voting_end: 8,
            poll_candidates_count: 9,
        },
    };
    assert_eq!(ctx.init_poll(3, 1, 2, String::from("n"), String::from("d")), Ok(()));
    assert_eq!(ctx.poll_account.poll_candidates_count, 0);
    assert_eq!(ctx.poll_account.poll_voting_start, 1);
    assert_eq!(ctx.poll_account.poll_voting_end, 2);
    assert_eq!(ctx.poll_account.poll_name, "n");
    assert_eq!(ctx.poll_account.poll_description, "d");
}

#[test]
fn new_candidate_starts_without_votes() {
    let poll = set_up_poll(0, 10);
    let mut ctx = InitializeCandidate {
        poll_account: poll,
        candidate_account: CandidateAccount {
            candidate_name: String::from("stale"),
            candidate_votes: 42,
        },
    };
    assert_eq!(ctx.init_canadidate(1, String::from("Noha")), Ok(()));
    assert_eq!(ctx.candidate_account.candidate_votes, 0);
    assert_eq!(ctx.candidate_account.candidate_name, "Noha");
    assert_eq!(ctx.poll_account.poll_candidates_count, 1);
}

#[test]
fn entry_points_forward_to_the_instructions() {
    let mut init = InitializePoll { poll_account: PollAccaount::default() };
    assert_eq!(
        initialize_poll(&mut init, 1, 0, 5, String::from("p"), String::from("q")),
        Ok(())
    );
    assert_eq!(init.poll_account.poll_voting_end, 5);
    let mut reg = InitializeCandidate {
        poll_account: init.poll_account,
        candidate_account: CandidateAccount::default(),
    };
    assert_eq!(initialize_candidate(&mut reg, 1, String::from("Noha")), Ok(()));
    assert_eq!(reg.poll_account.poll_candidates_count, 1);
    assert_eq!(reg.candidate_account.candidate_name, "Noha");
}

#[test]
fn vote_without_a_clock_changes_nothing() {
    // off-chain the runtime has no clock sysvar to hand out
    let poll = set_up_poll(0, i64::MAX as u64);
    let (poll, candidate) = register(poll, "Noha");
    let mut ctx = Vote { poll_account: poll, candidate_account: candidate };
    let result = vote(&mut ctx, 1, String::from("Noha"));
    assert!(matches!(result, Err(VotingError::ClockUnavailable(_))));
    assert_eq!(ctx.candidate_account.candidate_votes, 0);
    let result = ctx.vote(1, String::from("Noha"));
    assert!(matches!(result, Err(VotingError::ClockUnavailable(_))));
    assert_eq!(ctx.candidate_account.candidate_votes, 0);
}

#[test]
fn error_codes_names_and_messages() {
    assert_eq!(ErrorVote::UnstaredPoll.code(), 6000);
    assert_eq!(ErrorVote::DonePoll.code(), 6001);
    assert_eq!(ErrorVote::UnstaredPoll.name(), "UnstaredPoll");
    assert_eq!(ErrorVote::DonePoll.name(), "DonePoll");
    assert_eq!(ErrorVote::UnstaredPoll.message(), "The poll did not start yet");
    assert_eq!(ErrorVote::DonePoll.message(), "The poll is done");
}

#[test]
fn default_accounts_are_empty() {
    let poll = PollAccaount::default();
    assert_eq!(poll.poll_name, "");
    assert_eq!(poll.poll_candidates_count, 0);
    assert_eq!(poll.poll_voting_end, 0);
    let candidate = CandidateAccount::default();
    assert_eq!(candidate.candidate_name, "");
    assert_eq!(candidate.candidate_votes, 0);
}

#[test]
fn voting_window_presence() {
    assert!(set_up_poll(0, i64::MAX as u64).has_voting_window());
    assert!(!set_up_poll(5, 5).has_voting_window());
    assert!(!set_up_poll(6, 5).has_voting_window());
    assert!(!set_up_poll(0, u64::MAX).has_voting_window());
    assert!(set_up_poll(u64::MAX, 0).has_voting_window());
}

#[test]
fn vote_with_clock_reports_clock_failure_and_changes_nothing() {
    let poll = set_up_poll(0, i64::MAX as u64);
    let (poll, candidate) = register(poll, "Noha");
    let mut ctx = Vote { poll_account: poll, candidate_account: candidate };
    let r = ctx.vote_with_clock(Err(ProgramError::UnsupportedSysvar));
    assert_eq!(r, Err(VotingError::ClockUnavailable(ProgramError::UnsupportedSysvar)));
    assert_eq!(ctx.candidate_account.candidate_votes, 0);
}

#[test]
fn vote_with_clock_follows_the_reported_time() {
    let poll = set_up_poll(10, 20);
    let (poll, candidate) = register(poll, "Noha");
    let mut ctx = Vote { poll_account: poll, candidate_account: candidate };
    assert_eq!(ctx.vote_with_clock(Ok(9)), Err(VotingError::Rejected(ErrorVote::UnstaredPoll)));
    assert_eq!(ctx.vote_with_clock(Ok(20)), Err(VotingError::Rejected(ErrorVote::DonePoll)));
    assert_eq!(ctx.vote_with_clock(Ok(15)), Ok(()));
    assert_eq!(ctx.candidate_account.candidate_votes, 1);
    assert_eq!(ctx.poll_account.poll_voting_start, 10);
}

#[test]
fn full_counter_outside_window_is_refused_not_overflowed() {
    let poll = set_up_poll(10, 20);
    let mut ctx = Vote {
        poll_account: poll,
        candidate_account: CandidateAccount {
            candidate_name: String::from("Noha"),
            candidate_votes: u64::MAX,
        },
    };
    assert_eq!(ctx.vote_with_clock(Ok(25)), Err(VotingError::Rejected(ErrorVote::DonePoll)));
    assert_eq!(ctx.vote_at(5), Err(ErrorVote::UnstaredPoll));
    assert_eq!(ctx.candidate_account.candidate_votes, u64::MAX);
}

#[test]
fn accepts_vote_at_matches_the_window() {
    let poll = set_up_poll(10, 20);
    assert!(!poll.accepts_vote_at(9));
    assert!(poll.accepts_vote_at(10));
    assert!(poll.accepts_vote_at(19));
    assert!(!poll.accepts_vote_at(20));
}

#[test]
fn successive_calls_count_successes() {
    let poll = set_up_poll(10, 20);
    let (poll, candidate) = register(poll, "Noha");
    let mut ctx = Vote { poll_account: poll, candidate_account: candidate };
    let mut successes = 0u64;
    for t in [11, 30, 12, 1, 13] {
        if ctx.vote_with_clock(Ok(t)).is_ok() {
            successes += 1;
        }
    }
    assert_eq!(successes, 3);
    assert_eq!(ctx.candidate_account.candidate_votes, 3);
}
