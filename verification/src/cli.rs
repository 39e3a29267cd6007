//! Parsing and validation of the two positional command-line arguments:
//! the operation mode and the recording identifier.

use vstd::prelude::*;

use crate::ident::{valid_recording_id, validate_bbb_id};
use crate::stage::{stage_token, RecordingStage};
use crate::text::str_eq;

verus! {

/// Why the command-line arguments were refused.
#[derive(Clone, Copy, Debug, PartialEq, Eq, Structural)]
pub enum UsageError {
    /// Not exactly two positional arguments were given.
    WrongArgumentCount,
    /// The mode token is outside the closed set of stages.
    InvalidStage,
    /// The identifier does not match the recording identifier grammar.
    InvalidRecordingId,
}

/// Whether a token names one of the two stages.
pub open spec fn is_stage_token(s: Seq<char>) -> bool {
    s == stage_token(RecordingStage::PROCESS) || s == stage_token(RecordingStage::PUBLISH)
}

/// Parses a mode token against the closed stage set; case-sensitive, exact.
pub fn parse_stage(token: &str) -> (r: Option<RecordingStage>)
    ensures
        token@ == stage_token(RecordingStage::PROCESS)
            ==> r == Some(RecordingStage::PROCESS),
        token@ == stage_token(RecordingStage::PUBLISH)
            ==> r == Some(RecordingStage::PUBLISH),
        !is_stage_token(token@) ==> r is None,
        r matches Some(stage) ==> stage_token(stage) == token@,
{
    proof {
        reveal_strlit("process");
        reveal_strlit("publish");
        assert("process"@[1] == 'r' && "publish"@[1] == 'u');
    }
    if str_eq(token, "process") {
        Some(RecordingStage::PROCESS)
    } else if str_eq(token, "publish") {
        Some(RecordingStage::PUBLISH)
    } else {
        None
    }
}

/// The validated result of argument parsing: a stage from the closed set and
/// an identifier that matches the grammar.
#[derive(Debug)]
pub struct ParsedArgs {
    pub stage: RecordingStage,
    pub recording_id: String,
}

/// Parses the positional arguments that follow the program name.
///
/// Exactly two are expected: a mode token and a recording identifier. The
/// identifier grammar is enforced unconditionally, whatever the mode, before
/// the identifier can reach the privileged invocation.
pub fn parse_args(args: &Vec<String>) -> (r: Result<ParsedArgs, UsageError>)
    ensures
        args@.len() != 2
            ==> r == Err::<ParsedArgs, UsageError>(UsageError::WrongArgumentCount),
        args@.len() == 2 && !is_stage_token(args@[0]@)
            ==> r == Err::<ParsedArgs, UsageError>(UsageError::InvalidStage),
        args@.len() == 2 && is_stage_token(args@[0]@) && !valid_recording_id(args@[1]@)
            ==> r == Err::<ParsedArgs, UsageError>(UsageError::InvalidRecordingId),
        args@.len() == 2 && is_stage_token(args@[0]@) && valid_recording_id(args@[1]@)
            ==> (r matches Ok(p)
                && stage_token(p.stage) == args@[0]@
                && p.recording_id@ == args@[1]@),
{
    if args.len() != 2 {
        return Err(UsageError::WrongArgumentCount);
    }
    let stage = match parse_stage(args[0].as_str()) {
        Some(stage) => stage,
        None => {
            return Err(UsageError::InvalidStage);
        },
    };
    if !validate_bbb_id(args[1].as_str()) {
        return Err(UsageError::InvalidRecordingId);
    }
    Ok(ParsedArgs { stage, recording_id: args[1].clone() })
}

} // verus!
