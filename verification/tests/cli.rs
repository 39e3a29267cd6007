use capture_wrapper::cli::{parse_args, parse_stage, UsageError};
use capture_wrapper::stage::RecordingStage;

const VALID_ID: &str = "0a838768c250342c90eed02b34b6d66c97fde0c9-1588887004652";

#[test]
fn parse_stage_accepts_exactly_the_two_tokens() {
    assert_eq!(parse_stage("process"), Some(RecordingStage::PROCESS));
    assert_eq!(parse_stage("publish"), Some(RecordingStage::PUBLISH));
    assert_eq!(parse_stage("Process"), None);
    assert_eq!(parse_stage("PUBLISH"), None);
    assert_eq!(parse_stage("delete"), None);
    assert_eq!(parse_stage(""), None);
    assert_eq!(parse_stage("processs"), None);
}

#[test]
fn stage_tokens_are_fixed() {
    assert_eq!(RecordingStage::PROCESS.token(), "process");
    assert_eq!(RecordingStage::PUBLISH.token(), "publish");
}

#[test]
fn parse_args_accepts_valid_mode_and_id() {
    let args = vec!["process".to_owned(), VALID_ID.to_owned()];
    let parsed = parse_args(&args).unwrap();
    assert!(matches!(parsed.stage, RecordingStage::PROCESS));
    assert_eq!(parsed.recording_id, VALID_ID);

    let args = vec!["publish".to_owned(), VALID_ID.to_owned()];
    let parsed = parse_args(&args).unwrap();
    assert!(matches!(parsed.stage, RecordingStage::PUBLISH));
    assert_eq!(parsed.recording_id, VALID_ID);
}

#[test]
fn parse_args_rejects_wrong_argument_count() {
    let none: Vec<String> = vec![];
    assert!(matches!(parse_args(&none), Err(UsageError::WrongArgumentCount)));
    let one = vec!["process".to_owned()];
    assert!(matches!(parse_args(&one), Err(UsageError::WrongArgumentCount)));
    let three = vec![
        "process".to_owned(),
        VALID_ID.to_owned(),
        "extra".to_owned(),
    ];
    assert!(matches!(
        parse_args(&three),
        Err(UsageError::WrongArgumentCount)
    ));
}

#[test]
fn parse_args_rejects_mode_outside_closed_set() {
    // A mode token outside {process, publish} fails before anything else
    // could act on the identifier, however well-formed it is.
    let args = vec!["archive".to_owned(), VALID_ID.to_owned()];
    assert!(matches!(parse_args(&args), Err(UsageError::InvalidStage)));
}

#[test]
fn parse_args_rejects_malformed_identifier() {
    // 39 hex characters before the hyphen: not a valid identifier.
    let args = vec![
        "process".to_owned(),
        "8768c250342c90eed02b34b6d66c97fd-1588887004652".to_owned(),
    ];
    assert!(matches!(
        parse_args(&args),
        Err(UsageError::InvalidRecordingId)
    ));
    let args = vec![
        "publish".to_owned(),
        format!("{}/../passwd", VALID_ID),
    ];
    assert!(matches!(
        parse_args(&args),
        Err(UsageError::InvalidRecordingId)
    ));
}
