//! A poll-and-vote program: polls with a voting window, candidates registered
//! under a poll, and votes counted per candidate while the window is open.

pub mod error;
pub mod instructions;
pub mod laws;
pub mod state;
pub mod voting_app;

pub use error::{ErrorVote, VotingError};
pub use instructions::initialize_candidate::InitializeCandidate;
pub use instructions::initialize_poll::InitializePoll;
pub use instructions::vote::Vote;
pub use state::{CandidateAccount, PollAccaount};
