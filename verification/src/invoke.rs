//! Construction of the privileged invocation plan: the exact argument vector
//! and execution settings for the sandboxed container command. The plan is
//! built once from validated data, is never mutated, and is the only thing
//! the thin binary hands to the process-launch primitive — as a discrete
//! vector, never through a shell.

use vstd::prelude::*;

use crate::cli::{is_stage_token, parse_args, UsageError};
use crate::ident::{format_bbb_id, formatted_id, valid_recording_id};
use crate::privilege::{verify_privilege, PermissionError};
use crate::stage::{stage_token, RecordingStage};
use crate::text::{decimal_digits, u32_to_decimal};

verus! {

/// The in-container script selected by the stage.
pub open spec fn script_path(stage: RecordingStage) -> Seq<char> {
    stage_token(stage) + "/capture.rb"@
}

/// The full argument vector handed to the container runtime: run flags, the
/// real (unprivileged) user identity, the two fixed read-write bind mounts,
/// the fixed image reference, the stage's script, and the formatted
/// identifier as the sole positional argument.
pub open spec fn invocation_args(stage: RecordingStage, id: Seq<char>, ruid: u32) -> Seq<
    Seq<char>,
> {
    seq![
        "run"@,
        "--rm"@,
        "--user"@,
        decimal_digits(ruid as nat),
        "--mount"@,
        "type=bind,src=/var/bigbluebutton,dst=/var/bigbluebutton"@,
        "--mount"@,
        "type=bind,src=/var/log/bigbluebutton,dst=/var/log/bigbluebutton"@,
        "bbb-playback-capture:latest"@,
        script_path(stage),
        "-m"@,
        formatted_id(stage, id),
    ]
}

/// The derived, read-only invocation: program, argument vector, and the
/// fixed execution settings. The child's environment is fully cleared and
/// its working directory is the filesystem root.
pub struct InvocationPlan {
    pub program: String,
    pub args: Vec<String>,
    pub working_dir: String,
    pub clear_env: bool,
}

impl InvocationPlan {
    /// The argument vector as character sequences.
    pub open spec fn args_view(&self) -> Seq<Seq<char>> {
        self.args@.map_values(|s: String| s@)
    }
}

/// Builds the invocation plan for a validated identifier and the real
/// identity yielded by the privilege gate (never the privileged identity 0).
pub fn build_invocation(stage: RecordingStage, recording_id: String, ruid: u32) -> (r:
    InvocationPlan)
    requires
        valid_recording_id(recording_id@),
        ruid != 0,
    ensures
        r.program@ == "docker"@,
        r.args_view() == invocation_args(stage, recording_id@, ruid),
        r.working_dir@ == "/"@,
        r.clear_env,
{
    let ghost id_view = recording_id@;
    let mut args: Vec<String> = Vec::new();
    args.push(String::from_str("run"));
    args.push(String::from_str("--rm"));
    args.push(String::from_str("--user"));
    args.push(u32_to_decimal(ruid));
    args.push(String::from_str("--mount"));
    args.push(String::from_str("type=bind,src=/var/bigbluebutton,dst=/var/bigbluebutton"));
    args.push(String::from_str("--mount"));
    args.push(String::from_str("type=bind,src=/var/log/bigbluebutton,dst=/var/log/bigbluebutton"));
    args.push(String::from_str("bbb-playback-capture:latest"));
    args.push(String::from_str(stage.token()).concat("/capture.rb"));
    args.push(String::from_str("-m"));
    args.push(format_bbb_id(stage, recording_id));
    let r = InvocationPlan {
        program: String::from_str("docker"),
        args,
        working_dir: String::from_str("/"),
        clear_env: true,
    };
    proof {
        assert(r.args_view() =~= invocation_args(stage, id_view, ruid));
    }
    r
}

/// Why the launcher refuses to start a child at all.
#[derive(Clone, Copy, Debug, PartialEq, Eq, Structural)]
pub enum LaunchRefusal {
    /// The privilege gate refused; the arguments were never looked at.
    Permission(PermissionError),
    /// The privilege gate passed and an argument gate refused.
    Usage(UsageError),
}

/// The stage named by a token from the closed set.
pub open spec fn stage_of_token(s: Seq<char>) -> RecordingStage {
    if s == stage_token(RecordingStage::PROCESS) {
        RecordingStage::PROCESS
    } else {
        RecordingStage::PUBLISH
    }
}

/// The launcher's whole decision, its gates in their fixed order: the
/// privilege gate first — before the arguments are looked at — then the
/// argument count, the mode token, the identifier grammar, and only then
/// the invocation plan. A plan exists exactly for a setuid-root credential
/// triple with a distinct real identity, a mode from the closed set, and an
/// identifier matching the grammar.
pub fn plan_launch(ruid: u32, euid: u32, suid: u32, args: &Vec<String>) -> (r: Result<
    InvocationPlan,
    LaunchRefusal,
>)
    ensures
        euid != 0
            ==> r == Err::<InvocationPlan, LaunchRefusal>(
                LaunchRefusal::Permission(PermissionError::NotSetuidRoot),
            ),
        euid == 0 && ruid == 0
            ==> r == Err::<InvocationPlan, LaunchRefusal>(
                LaunchRefusal::Permission(PermissionError::RealEqualsEffective),
            ),
        euid == 0 && ruid != 0 && args@.len() != 2
            ==> r == Err::<InvocationPlan, LaunchRefusal>(
                LaunchRefusal::Usage(UsageError::WrongArgumentCount),
            ),
        euid == 0 && ruid != 0 && args@.len() == 2 && !is_stage_token(args@[0]@)
            ==> r == Err::<InvocationPlan, LaunchRefusal>(
                LaunchRefusal::Usage(UsageError::InvalidStage),
            ),
        euid == 0 && ruid != 0 && args@.len() == 2 && is_stage_token(args@[0]@)
            && !valid_recording_id(args@[1]@)
            ==> r == Err::<InvocationPlan, LaunchRefusal>(
                LaunchRefusal::Usage(UsageError::InvalidRecordingId),
            ),
        euid == 0 && ruid != 0 && args@.len() == 2 && is_stage_token(args@[0]@)
            && valid_recording_id(args@[1]@)
            ==> (r matches Ok(plan)
                && plan.program@ == "docker"@
                && plan.args_view() == invocation_args(stage_of_token(args@[0]@), args@[1]@, ruid)
                && plan.working_dir@ == "/"@
                && plan.clear_env),
{
    proof {
        reveal_strlit("process");
        reveal_strlit("publish");
        assert("process"@[1] == 'r' && "publish"@[1] == 'u');
    }
    let real_uid = match verify_privilege(ruid, euid, suid) {
        Ok(real_uid) => real_uid,
        Err(err) => {
            return Err(LaunchRefusal::Permission(err));
        },
    };
    let parsed = match parse_args(args) {
        Ok(parsed) => parsed,
        Err(err) => {
            return Err(LaunchRefusal::Usage(err));
        },
    };
    Ok(build_invocation(parsed.stage, parsed.recording_id, real_uid))
}

/// The launcher's own exit status once the child process has run: the
/// child's code when it reported one, 1 when it was terminated by a signal
/// and reported none. A zero status falls through to a normal exit.
pub fn child_exit_code(code: Option<i32>) -> (r: i32)
    ensures
        code matches Some(c) ==> r == c,
        code is None ==> r == 1,
{
    match code {
        Some(c) => c,
        None => 1,
    }
}

} // verus!
