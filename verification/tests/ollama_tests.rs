use analysis_shell::ollama::check_ollama_status_outcome;
use analysis_shell::ollama::install_model_outcome;
use analysis_shell::ollama::parse_models;
use analysis_shell::types::ProcOutcome;

#[test]
fn status_lists_models_from_clean_exit() {
    let outcome = ProcOutcome::Finished {
        exit_success: true,
        stdout: "NAME\nfoo:latest  123MB\nbar:latest 45MB\n".to_string(),
        stderr: String::new(),
    };
    let status = check_ollama_status_outcome(&outcome);
    assert!(status.available);
    assert!(status.error.is_none());
    assert_eq!(status.models, vec!["foo:latest".to_string(), "bar:latest".to_string()]);
}

#[test]
fn status_absent_binary_reports_not_installed() {
    let outcome = ProcOutcome::LaunchFailed { message: "No such file or directory".to_string() };
    let status = check_ollama_status_outcome(&outcome);
    assert!(!status.available);
    assert!(status.models.is_empty());
    let error = status.error.unwrap();
    assert!(!error.is_empty());
    assert!(error.contains("not installed"));
    assert_eq!(error, "Ollama not installed: No such file or directory");
}

#[test]
fn status_failing_service_reports_not_running() {
    let outcome = ProcOutcome::Finished {
        exit_success: false,
        stdout: String::new(),
        stderr: "connection refused".to_string(),
    };
    let status = check_ollama_status_outcome(&outcome);
    assert!(!status.available);
    assert!(status.models.is_empty());
    let error = status.error.unwrap();
    assert!(!error.is_empty());
    assert!(error.contains("not running"));
    assert_eq!(error, "Ollama service not running");
}

#[test]
fn parse_models_skips_header_and_blanks() {
    assert_eq!(parse_models("NAME\n  \n  baz 1GB\n"), vec!["baz".to_string()]);
    assert_eq!(parse_models("NAME SIZE\n\n\n"), Vec::<String>::new());
    assert_eq!(parse_models(""), Vec::<String>::new());
    assert_eq!(parse_models("NAME"), Vec::<String>::new());
}

#[test]
fn parse_models_takes_first_token_per_line() {
    let out = parse_models("NAME ID SIZE\nllama2:7b abcd 3.8GB\n\tmistral latest\n");
    assert_eq!(out, vec!["llama2:7b".to_string(), "mistral".to_string()]);
}

#[test]
fn parse_models_handles_carriage_returns() {
    let out = parse_models("NAME\r\nfoo 1\r\nbar 2\r\n");
    assert_eq!(out, vec!["foo".to_string(), "bar".to_string()]);
}

#[test]
fn install_reports_success() {
    let outcome = ProcOutcome::Finished {
        exit_success: true,
        stdout: "pulling manifest".to_string(),
        stderr: String::new(),
    };
    let msg = install_model_outcome(&"llama2".to_string(), &outcome).unwrap();
    assert_eq!(msg, "Successfully installed model: llama2");
}

#[test]
fn install_surfaces_exit_failure() {
    let outcome = ProcOutcome::Finished {
        exit_success: false,
        stdout: String::new(),
        stderr: "no such model".to_string(),
    };
    let err = install_model_outcome(&"llama2".to_string(), &outcome).unwrap_err();
    assert_eq!(err, "Failed to install model llama2: no such model");
}

#[test]
fn install_surfaces_launch_failure() {
    let outcome = ProcOutcome::LaunchFailed { message: "not found".to_string() };
    let err = install_model_outcome(&"llama2".to_string(), &outcome).unwrap_err();
    assert_eq!(err, "Failed to pull model: not found");
}

#[test]
fn parse_models_without_trailing_newline() {
    assert_eq!(parse_models("NAME\nfoo"), vec!["foo".to_string()]);
    assert_eq!(parse_models("NAME\nfoo 1GB\nbar"), vec!["foo".to_string(), "bar".to_string()]);
}

#[test]
fn parse_models_splits_on_unicode_whitespace() {
    // NBSP and EN SPACE delimit tokens just as split_whitespace would
    let out = parse_models("NAME\nfoo\u{00A0}100MB\nbar\u{2002}2\n");
    assert_eq!(out, vec!["foo".to_string(), "bar".to_string()]);
    assert_eq!(parse_models("NAME\n\u{00A0}\u{3000}\n"), Vec::<String>::new());
}
