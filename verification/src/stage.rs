//! The closed set of recording operation modes.

use vstd::prelude::*;

verus! {

/// The operation mode of one launcher invocation. Exactly two modes exist;
/// an unrecognized mode token is a fatal input error, never a default.
#[derive(Clone, Copy, Debug, PartialEq, Eq, Structural)]
pub enum RecordingStage {
    PROCESS,
    PUBLISH,
}

/// The fixed command-line token of a stage.
pub open spec fn stage_token(stage: RecordingStage) -> Seq<char> {
    match stage {
        RecordingStage::PROCESS => "process"@,
        RecordingStage::PUBLISH => "publish"@,
    }
}

impl RecordingStage {
    /// The stage's token as a string slice.
    pub fn token(&self) -> (r: &'static str)
        ensures
            r@ == stage_token(*self),
    {
        match self {
            RecordingStage::PROCESS => "process",
            RecordingStage::PUBLISH => "publish",
        }
    }
}

} // verus!
