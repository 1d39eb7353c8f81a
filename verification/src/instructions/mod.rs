pub mod initialize_candidate;
pub mod initialize_poll;
pub mod vote;
