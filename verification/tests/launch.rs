use capture_wrapper::cli::UsageError;
use capture_wrapper::invoke::{plan_launch, LaunchRefusal};
use capture_wrapper::privilege::PermissionError;

const VALID_ID: &str = "0a838768c250342c90eed02b34b6d66c97fde0c9-1588887004652";

#[test]
fn launch_process_stage_end_to_end() {
    let args = vec!["process".to_owned(), VALID_ID.to_owned()];
    let plan = plan_launch(998, 0, 0, &args).unwrap();
    assert_eq!(plan.program, "docker");
    let n = plan.args.len();
    assert_eq!(&plan.args[n - 2..], &["-m", VALID_ID]);
    assert!(plan.args[n - 3].ends_with("process/capture.rb"));
    assert_eq!(plan.args[3], "998");
}

#[test]
fn launch_publish_stage_end_to_end() {
    let args = vec!["publish".to_owned(), VALID_ID.to_owned()];
    let plan = plan_launch(998, 0, 0, &args).unwrap();
    let n = plan.args.len();
    assert_eq!(
        plan.args[n - 1],
        "0a838768c250342c90eed02b34b6d66c97fde0c9-1588887004652-capture"
    );
    assert!(plan.args[n - 3].ends_with("publish/capture.rb"));
}

#[test]
fn launch_refuses_short_identifier_before_any_plan_exists() {
    // 39 hex characters before the hyphen: no plan, so no child can ever be
    // built from this identifier.
    let args = vec![
        "process".to_owned(),
        "8768c250342c90eed02b34b6d66c97fd-1588887004652".to_owned(),
    ];
    assert!(matches!(
        plan_launch(998, 0, 0, &args),
        Err(LaunchRefusal::Usage(UsageError::InvalidRecordingId))
    ));
}

#[test]
fn launch_refuses_root_invocation_before_looking_at_arguments() {
    // real == effective == 0: the privilege gate refuses, and the refusal is
    // a permission error even though the arguments are also malformed.
    let args = vec!["delete".to_owned(), "not-an-id".to_owned()];
    assert!(matches!(
        plan_launch(0, 0, 0, &args),
        Err(LaunchRefusal::Permission(PermissionError::RealEqualsEffective))
    ));
}

#[test]
fn launch_refuses_without_effective_root() {
    let args = vec!["process".to_owned(), VALID_ID.to_owned()];
    assert!(matches!(
        plan_launch(1000, 1000, 1000, &args),
        Err(LaunchRefusal::Permission(PermissionError::NotSetuidRoot))
    ));
}

#[test]
fn launch_refuses_unknown_stage_with_privilege_held() {
    let args = vec!["archive".to_owned(), VALID_ID.to_owned()];
    assert!(matches!(
        plan_launch(998, 0, 0, &args),
        Err(LaunchRefusal::Usage(UsageError::InvalidStage))
    ));
}

#[test]
fn launch_refuses_wrong_argument_count() {
    let args = vec!["process".to_owned()];
    assert!(matches!(
        plan_launch(998, 0, 0, &args),
        Err(LaunchRefusal::Usage(UsageError::WrongArgumentCount))
    ));
}
