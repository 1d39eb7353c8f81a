use anchor_lang::prelude::ProgramError;
use vstd::prelude::*;

verus! {

/// Reads `anchor_lang::error::ERROR_CODE_OFFSET`, the first error code that a
/// program may give its own errors (the codes below it belong to the
/// framework). The framework's source defines it as 6000, and that is what the
/// contract claims.
#[verifier::external_body]
fn error_code_offset() -> (offset: u32)
    ensures
        offset == 6000,
{
    anchor_lang::error::ERROR_CODE_OFFSET
}

/// Why a vote was refused.
#[derive(Debug, Clone, Copy, PartialEq, Eq, Structural)]
pub enum ErrorVote {
    /// The clock is still before the poll's start.
    UnstaredPoll,
    /// The clock has reached the poll's end.
    DonePoll,
}

impl ErrorVote {
    /// Position of the variant in the declaration.
    pub open spec fn index(self) -> u32 {
        match self {
            ErrorVote::UnstaredPoll => 0,
            ErrorVote::DonePoll => 1,
        }
    }

    /// The error code that the program reports for this error: the
    /// variant's position past the framework's offset for program errors.
    pub fn code(&self) -> (code: u32)
        ensures
            code == 6000 + self.index(),
    {
        match self {
            ErrorVote::UnstaredPoll => error_code_offset(),
            ErrorVote::DonePoll => error_code_offset() + 1,
        }
    }

    /// The variant's name.
    pub fn name(&self) -> (name: String)
        ensures
            name@ == (match self {
                ErrorVote::UnstaredPoll => "UnstaredPoll"@,
                ErrorVote::DonePoll => "DonePoll"@,
            }),
    {
        match self {
            ErrorVote::UnstaredPoll => "UnstaredPoll".to_owned(),
            ErrorVote::DonePoll => "DonePoll".to_owned(),
        }
    }

    /// The message shown for the error.
    pub fn message(&self) -> (message: String)
        ensures
            message@ == (match self {
                ErrorVote::UnstaredPoll => "The poll did not start yet"@,
                ErrorVote::DonePoll => "The poll is done"@,
            }),
    {
        match self {
            ErrorVote::UnstaredPoll => "The poll did not start yet".to_owned(),
            ErrorVote::DonePoll => "The poll is done".to_owned(),
        }
    }
}

/// The runtime's own error type, carried through unchanged.
#[verifier::external_type_specification]
#[verifier::external_body]
pub struct ExProgramError(ProgramError);

/// Why an instruction of the program failed.
#[derive(Debug, PartialEq, Eq)]
pub enum VotingError {
    /// The vote was refused by the poll's rules.
    Rejected(ErrorVote),
    /// The runtime could not tell the current time.
    ClockUnavailable(ProgramError),
}

} // verus!
