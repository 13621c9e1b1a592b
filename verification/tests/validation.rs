use ps_launcher::args::{parse_invocation, show_usage, validate_arguments};
use ps_launcher::params::{
    sanitize_parameters, validate_parameters, ParameterValidationError,
};
use ps_launcher::script::{
    classify_script_path, validate_script_path, FileStatus, ScriptValidationError,
};

#[test]
fn test_validate_arguments_insufficient() {
    let args = vec!["program".to_string()];
    assert!(validate_arguments(&args).is_err());
}

#[test]
fn test_validate_arguments_wrong_flag() {
    let args = vec![
        "program".to_string(),
        "-WrongFlag".to_string(),
        "script.ps1".to_string(),
    ];
    assert!(validate_arguments(&args).is_err());
}

#[test]
fn test_validate_arguments_valid() {
    let args = vec![
        "program".to_string(),
        "-Script".to_string(),
        "script.ps1".to_string(),
    ];
    assert!(validate_arguments(&args).is_ok());
}

#[test]
fn test_parse_accepts_any_flag_casing() {
    for flag in ["-Script", "-script", "-SCRIPT", "-sCrIpT"] {
        let args = vec![
            "prog".to_string(),
            flag.to_string(),
            "script.ps1".to_string(),
        ];
        let parsed = parse_invocation(&args).unwrap();
        assert_eq!(parsed.script_path, "script.ps1");
        assert!(parsed.parameters.is_empty());
    }
}

#[test]
fn test_parse_keeps_parameter_order() {
    let args = vec![
        "prog".to_string(),
        "-Script".to_string(),
        "run.ps1".to_string(),
        "-Name".to_string(),
        "John Doe".to_string(),
        "-Verbose".to_string(),
    ];
    let parsed = parse_invocation(&args).unwrap();
    assert_eq!(parsed.script_path, "run.ps1");
    assert_eq!(
        parsed.parameters,
        vec![
            "-Name".to_string(),
            "John Doe".to_string(),
            "-Verbose".to_string()
        ]
    );
}

#[test]
fn test_validate_parameters_dangerous_semicolon() {
    let params = vec!["test;whoami".to_string()];
    assert!(validate_parameters(&params).is_err());
}

#[test]
fn test_validate_parameters_dangerous_pipe() {
    let params = vec!["test|whoami".to_string()];
    assert!(validate_parameters(&params).is_err());
}

#[test]
fn test_validate_parameters_dangerous_ampersand() {
    let params = vec!["test&whoami".to_string()];
    assert!(validate_parameters(&params).is_err());
}

#[test]
fn test_validate_parameters_safe() {
    let params = vec![
        "-FilePath".to_string(),
        "C:\\temp\\test.txt".to_string(),
        "-Verbose".to_string(),
    ];
    assert!(validate_parameters(&params).is_ok());
}

#[test]
fn test_validate_parameters_too_long() {
    let long_param = "a".repeat(2000);
    let params = vec![long_param];
    assert!(validate_parameters(&params).is_err());
}

#[test]
fn test_forbidden_character_is_reported() {
    let params = vec!["safe".to_string(), "test;whoami".to_string()];
    let err = validate_parameters(&params).unwrap_err();
    assert!(matches!(
        err,
        ParameterValidationError::ForbiddenCharacter { index: 1, ch: ';' }
    ));
}

#[test]
fn test_every_denylisted_character_rejected() {
    for ch in [
        ';', '&', '|', '<', '>', '`', '$', '(', ')', '{', '}', '[', ']', '\n', '\r',
    ] {
        let params = vec![format!("test{}whoami", ch)];
        let err = validate_parameters(&params).unwrap_err();
        assert!(matches!(
            err,
            ParameterValidationError::ForbiddenCharacter { index: 0, ch: c } if c == ch
        ));
    }
}

#[test]
fn test_too_long_parameter_reports_index() {
    let params = vec!["ok".to_string(), "b".repeat(1025)];
    let err = validate_parameters(&params).unwrap_err();
    assert!(matches!(
        err,
        ParameterValidationError::ParameterTooLong { index: 1 }
    ));
}

#[test]
fn test_parameter_of_exactly_maximum_length_passes() {
    let params = vec!["c".repeat(1024)];
    assert!(validate_parameters(&params).is_ok());
}

#[test]
fn test_aggregate_length_bound() {
    let params: Vec<String> = (0..9).map(|_| "d".repeat(1000)).collect();
    let err = validate_parameters(&params).unwrap_err();
    assert!(matches!(err, ParameterValidationError::TotalLengthExceeded));
    let params: Vec<String> = (0..8).map(|_| "d".repeat(1000)).collect();
    assert!(validate_parameters(&params).is_ok());
}

#[test]
fn test_sanitized_parameters_unchanged() {
    let params = vec![
        "-FilePath".to_string(),
        "C:\\temp\\test.txt".to_string(),
        "-Verbose".to_string(),
    ];
    let sanitized = sanitize_parameters(params.clone()).unwrap();
    assert_eq!(sanitized.list(), &params);
}

#[test]
fn test_validate_script_path_empty() {
    assert!(validate_script_path("").is_err());
}

#[test]
fn test_empty_script_path_reported_as_such() {
    let err = validate_script_path("").unwrap_err();
    assert!(matches!(err, ScriptValidationError::EmptyPath));
}

#[test]
fn test_missing_script_reported_as_not_found() {
    let err = validate_script_path("/no/such/directory/no-such-script.ps1").unwrap_err();
    assert!(matches!(err, ScriptValidationError::NotFound));
}

#[test]
fn test_directory_rejected_as_not_a_file() {
    let err = validate_script_path(".").unwrap_err();
    assert!(matches!(err, ScriptValidationError::NotAFile));
}

#[test]
fn test_classification_of_probe_answers() {
    let err = classify_script_path("script.ps1", FileStatus::Missing, None).unwrap_err();
    assert!(matches!(err, ScriptValidationError::NotFound));
    let err = classify_script_path("script.ps1", FileStatus::NotRegular, None).unwrap_err();
    assert!(matches!(err, ScriptValidationError::NotAFile));
    let err = classify_script_path("script.ps1", FileStatus::Regular, None).unwrap_err();
    assert!(matches!(err, ScriptValidationError::ResolutionFailed));
    let ok = classify_script_path(
        "script.ps1",
        FileStatus::Regular,
        Some("C:\\scripts\\script.ps1".to_string()),
    )
    .unwrap();
    assert_eq!(ok.path().as_str(), "C:\\scripts\\script.ps1");
}

#[test]
fn test_usage_message_contains_examples() {
    let usage = show_usage();
    assert!(usage.contains("Examples"));
    assert!(usage.contains("-Script"));
}

#[test]
fn test_validation_stages_idempotent() {
    let args = vec![
        "prog".to_string(),
        "-Script".to_string(),
        "run.ps1".to_string(),
        "-Name".to_string(),
        "John Doe".to_string(),
    ];
    let first = parse_invocation(&args).unwrap();
    let second = parse_invocation(&args).unwrap();
    assert_eq!(first.script_path, second.script_path);
    assert_eq!(first.parameters, second.parameters);
    let s1 = sanitize_parameters(first.parameters.clone()).unwrap();
    let s2 = sanitize_parameters(second.parameters.clone()).unwrap();
    assert_eq!(s1.list(), s2.list());
}
