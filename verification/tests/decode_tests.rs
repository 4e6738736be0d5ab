use analysis_shell::analysis::analyze_code_outcome;
use analysis_shell::analysis::analyze_directory_outcome;
use analysis_shell::decode::decode_analysis;
use analysis_shell::decode::decode_directory;
use analysis_shell::types::ProcOutcome;

const GOOD: &str = "{\"language\":\"python\",\"filename\":\"a.py\",\"static_analysis\":{},\"ai_analysis\":{},\"response\":\"3 issues found\",\"lines\":10,\"size\":200,\"success\":true}";

#[test]
fn decode_well_formed_analysis() {
    let a = decode_analysis(GOOD).unwrap();
    assert_eq!(a.language, "python");
    assert_eq!(a.filename, "a.py");
    assert_eq!(a.response, "3 issues found");
    assert_eq!(a.lines, 10);
    assert_eq!(a.size, 200);
    assert!(a.success);
}

#[test]
fn decode_keeps_opaque_payloads() {
    let text = "{\"language\":\"go\",\"filename\":\"m.go\",\"static_analysis\":{\"warnings\":[1,2]},\"ai_analysis\":{\"score\":7},\"response\":\"ok\",\"lines\":1,\"size\":2,\"success\":true}";
    let a = decode_analysis(text).unwrap();
    let expected: serde_json::Value = serde_json::from_str("{\"warnings\":[1,2]}").unwrap();
    assert_eq!(a.static_analysis, expected);
    let expected_ai: serde_json::Value = serde_json::from_str("{\"score\":7}").unwrap();
    assert_eq!(a.ai_analysis, expected_ai);
}

#[test]
fn decode_rejects_malformed_json() {
    assert!(decode_analysis("not json at all").is_err());
    assert!(decode_analysis("{\"language\":").is_err());
}

#[test]
fn decode_rejects_missing_field() {
    let text = "{\"language\":\"python\",\"filename\":\"a.py\",\"static_analysis\":{},\"ai_analysis\":{},\"response\":\"ok\",\"lines\":10,\"success\":true}";
    let err = decode_analysis(text).unwrap_err();
    assert_eq!(err, "analyzer output does not match the expected shape");
}

#[test]
fn decode_rejects_mistyped_field() {
    let text = "{\"language\":7,\"filename\":\"a.py\",\"static_analysis\":{},\"ai_analysis\":{},\"response\":\"ok\",\"lines\":10,\"size\":200,\"success\":true}";
    assert!(decode_analysis(text).is_err());
}

#[test]
fn decode_rejects_negative_and_oversized_counts() {
    let neg = "{\"language\":\"c\",\"filename\":\"a.c\",\"static_analysis\":{},\"ai_analysis\":{},\"response\":\"ok\",\"lines\":-1,\"size\":200,\"success\":true}";
    assert!(decode_analysis(neg).is_err());
    let big = "{\"language\":\"c\",\"filename\":\"a.c\",\"static_analysis\":{},\"ai_analysis\":{},\"response\":\"ok\",\"lines\":1,\"size\":2147483648,\"success\":true}";
    assert!(decode_analysis(big).is_err());
}

#[test]
fn decode_rejects_silent_failure() {
    // a failed verdict must explain itself
    let text = "{\"language\":\"c\",\"filename\":\"a.c\",\"static_analysis\":{},\"ai_analysis\":{},\"response\":\"\",\"lines\":1,\"size\":2,\"success\":false}";
    assert!(decode_analysis(text).is_err());
    let ok = "{\"language\":\"c\",\"filename\":\"a.c\",\"static_analysis\":{},\"ai_analysis\":{},\"response\":\"parse error\",\"lines\":1,\"size\":2,\"success\":false}";
    assert!(decode_analysis(ok).is_ok());
}

#[test]
fn decode_directory_document() {
    let text = format!(
        "{{\"type\":\"directory\",\"path\":\"/src\",\"total_files\":3,\"analyzed_files\":1,\"results\":[{}],\"project_analysis\":{{\"grade\":\"B\"}}}}",
        GOOD
    );
    let d = decode_directory(&text).unwrap();
    assert_eq!(d.kind, "directory");
    assert_eq!(d.path, "/src");
    assert_eq!(d.total_files, 3);
    assert_eq!(d.analyzed_files, 1);
    assert_eq!(d.results.len(), 1);
    assert_eq!(d.results[0].language, "python");
}

#[test]
fn decode_directory_rejects_excess_analyzed_count() {
    let text = "{\"type\":\"directory\",\"path\":\"/src\",\"total_files\":1,\"analyzed_files\":2,\"results\":[],\"project_analysis\":null}";
    assert!(decode_directory(text).is_err());
}

#[test]
fn decode_directory_rejects_bad_result_element() {
    let text = "{\"type\":\"directory\",\"path\":\"/src\",\"total_files\":1,\"analyzed_files\":1,\"results\":[{\"language\":\"py\"}],\"project_analysis\":null}";
    assert!(decode_directory(text).is_err());
}

#[test]
fn analyze_code_launch_failure_message() {
    let outcome = ProcOutcome::LaunchFailed { message: "No such file or directory".to_string() };
    let err = analyze_code_outcome(&outcome).unwrap_err();
    assert_eq!(err, "Failed to execute Python processor: No such file or directory");
}

#[test]
fn analyze_code_exit_failure_carries_stderr() {
    let outcome = ProcOutcome::Finished {
        exit_success: false,
        stdout: String::new(),
        stderr: "Traceback: boom".to_string(),
    };
    let err = analyze_code_outcome(&outcome).unwrap_err();
    assert_eq!(err, "Python processor failed: Traceback: boom");
}

#[test]
fn analyze_code_decode_failure_message() {
    let outcome = ProcOutcome::Finished {
        exit_success: true,
        stdout: "garbage".to_string(),
        stderr: String::new(),
    };
    let err = analyze_code_outcome(&outcome).unwrap_err();
    assert!(err.starts_with("Failed to parse Python response: "));
}

#[test]
fn analyze_code_success_decodes() {
    let outcome = ProcOutcome::Finished {
        exit_success: true,
        stdout: GOOD.to_string(),
        stderr: String::new(),
    };
    let a = analyze_code_outcome(&outcome).unwrap();
    assert_eq!(a.language, "python");
    assert_eq!(a.lines, 10);
}

#[test]
fn analyze_directory_outcome_messages() {
    let launch = ProcOutcome::LaunchFailed { message: "gone".to_string() };
    assert_eq!(
        analyze_directory_outcome(&launch).unwrap_err(),
        "Failed to execute Python processor: gone"
    );
    let failed = ProcOutcome::Finished {
        exit_success: false,
        stdout: String::new(),
        stderr: "denied".to_string(),
    };
    assert_eq!(analyze_directory_outcome(&failed).unwrap_err(), "Directory analysis failed: denied");
    let garbage = ProcOutcome::Finished {
        exit_success: true,
        stdout: "[1,2".to_string(),
        stderr: String::new(),
    };
    let err = analyze_directory_outcome(&garbage).unwrap_err();
    assert!(err.starts_with("Failed to parse directory analysis response: "));
}
