use ps_launcher::interpreter::get_powershell_path;
use ps_launcher::launch::{build_interpreter_argv, map_child_outcome, ExecutionError};
use ps_launcher::params::sanitize_parameters;
use ps_launcher::pipeline::{prepare_launch, LaunchError};
use ps_launcher::script::{classify_script_path, FileStatus};

#[test]
fn test_interpreter_argv_shape() {
    let script = classify_script_path(
        "C:\\scripts\\test.ps1",
        FileStatus::Regular,
        Some("C:\\scripts\\test.ps1".to_string()),
    )
    .unwrap();
    let params = sanitize_parameters(vec!["-Name".to_string(), "John Doe".to_string()]).unwrap();
    let argv = build_interpreter_argv(&script, &params);
    assert_eq!(
        argv,
        vec![
            "-NonInteractive".to_string(),
            "-NoProfile".to_string(),
            "-ExecutionPolicy".to_string(),
            "Bypass".to_string(),
            "-File".to_string(),
            "C:\\scripts\\test.ps1".to_string(),
            "-Name".to_string(),
            "John Doe".to_string(),
        ]
    );
}

#[test]
fn test_interpreter_missing_on_this_machine() {
    // The fixed interpreter location is a Windows system path, so on a
    // machine without it the locator must report the installation fault.
    assert!(get_powershell_path().is_err());
}

#[test]
fn test_pipeline_reports_missing_interpreter_after_input_checks() {
    // A script path that exists as a regular file wherever the tests run,
    // so that the pipeline reaches the interpreter stage.
    let args = vec![
        "prog".to_string(),
        "-Script".to_string(),
        "/proc/self/status".to_string(),
    ];
    let err = prepare_launch(&args).unwrap_err();
    assert!(matches!(err, LaunchError::Interpreter(_)));
}

#[test]
fn test_pipeline_rejects_malformed_invocation() {
    let err = prepare_launch(&vec!["prog".to_string()]).unwrap_err();
    assert!(matches!(err, LaunchError::Usage(_)));
    let err = prepare_launch(&vec![
        "prog".to_string(),
        "-WrongFlag".to_string(),
        "x.ps1".to_string(),
    ])
    .unwrap_err();
    assert!(matches!(err, LaunchError::Usage(_)));
}

#[test]
fn test_pipeline_rejects_bad_parameter_before_interpreter_lookup() {
    let args = vec![
        "prog".to_string(),
        "-Script".to_string(),
        "/proc/self/status".to_string(),
        "evil;rm".to_string(),
    ];
    let err = prepare_launch(&args).unwrap_err();
    assert!(matches!(err, LaunchError::Parameter(_)));
}

#[test]
fn test_exit_code_passes_through() {
    assert_eq!(map_child_outcome(Some(0), String::new()).unwrap(), 0);
    assert_eq!(map_child_outcome(Some(3), String::new()).unwrap(), 3);
    assert_eq!(map_child_outcome(Some(0), "noise".to_string()).unwrap(), 0);
}

#[test]
fn test_abnormal_termination_defaults_to_one() {
    assert_eq!(map_child_outcome(None, String::new()).unwrap(), 1);
}

#[test]
fn test_nonzero_exit_with_diagnostics_is_an_error() {
    let err = map_child_outcome(Some(5), "boom".to_string()).unwrap_err();
    match err {
        ExecutionError::ChildFailed { exit_code, stderr } => {
            assert_eq!(exit_code, 5);
            assert_eq!(stderr, "boom");
        }
        ExecutionError::SpawnFailed { .. } => panic!("wrong error variant"),
    }
    let err = map_child_outcome(None, "killed".to_string()).unwrap_err();
    assert!(matches!(
        err,
        ExecutionError::ChildFailed { exit_code: 1, .. }
    ));
}
