use analysis_shell::analysis::analyze_batch_outcomes;
use analysis_shell::analysis::analyze_code_outcome;
use analysis_shell::analysis::batch_from_results;
use analysis_shell::analysis::validate_directory_request;
use analysis_shell::types::FileData;
use analysis_shell::types::ProcOutcome;

fn ok_stdout(response: &str) -> String {
    format!(
        "{{\"language\":\"python\",\"filename\":\"a.py\",\"static_analysis\":{{}},\"ai_analysis\":{{}},\"response\":\"{}\",\"lines\":10,\"size\":200,\"success\":true}}",
        response
    )
}

fn finished(exit_success: bool, stdout: &str, stderr: &str) -> ProcOutcome {
    ProcOutcome::Finished {
        exit_success,
        stdout: stdout.to_string(),
        stderr: stderr.to_string(),
    }
}

#[test]
fn batch_counts_and_order_with_one_failure() {
    let files = vec![
        FileData { name: "a.py".to_string(), content: "print(1)".to_string(), path: None },
        FileData { name: "b.py".to_string(), content: "print(2)".to_string(), path: None },
    ];
    let outcomes = vec![
        finished(true, &ok_stdout("3 issues found"), ""),
        finished(false, "", "boom"),
    ];
    let batch = analyze_batch_outcomes(&files, &outcomes);
    assert_eq!(batch.total_files, 2);
    assert_eq!(batch.successful_analyses, 1);
    assert_eq!(batch.results.len(), 2);
    // order preserved: the first entry is the decoded success
    assert!(batch.results[0].success);
    assert_eq!(batch.results[0].language, "python");
    // the failed call stays in place, carrying the process's stderr
    assert!(!batch.results[1].success);
    assert_eq!(batch.results[1].language, "unknown");
    assert_eq!(batch.results[1].filename, "b.py");
    assert!(batch.results[1].response.contains("boom"));
    assert_eq!(batch.results[1].lines, 0);
    assert_eq!(batch.results[1].size, 0);
}

#[test]
fn batch_summary_counts_issue_mentions() {
    let files = vec![
        FileData { name: "a.py".to_string(), content: "x".to_string(), path: None },
        FileData { name: "b.py".to_string(), content: "y".to_string(), path: None },
    ];
    let outcomes = vec![
        finished(true, &ok_stdout("3 issues found"), ""),
        finished(false, "", "boom"),
    ];
    let batch = analyze_batch_outcomes(&files, &outcomes);
    assert_eq!(
        batch.summary,
        "Batch analysis complete: 1/2 files analyzed successfully. 1 issues found across all files."
    );
}

#[test]
fn batch_appends_path_to_successful_filename() {
    let files = vec![FileData {
        name: "a.py".to_string(),
        content: "x".to_string(),
        path: Some("/tmp/src/a.py".to_string()),
    }];
    let outcomes = vec![finished(true, &ok_stdout("clean"), "")];
    let batch = analyze_batch_outcomes(&files, &outcomes);
    assert_eq!(batch.results[0].filename, "a.py (/tmp/src/a.py)");
}

#[test]
fn batch_without_path_keeps_filename() {
    let files = vec![FileData { name: "a.py".to_string(), content: "x".to_string(), path: None }];
    let outcomes = vec![finished(true, &ok_stdout("clean"), "")];
    let batch = analyze_batch_outcomes(&files, &outcomes);
    assert_eq!(batch.results[0].filename, "a.py");
}

#[test]
fn batch_failure_entry_ignores_path() {
    let files = vec![FileData {
        name: "a.py".to_string(),
        content: "x".to_string(),
        path: Some("/tmp/a.py".to_string()),
    }];
    let outcomes = vec![finished(false, "", "broken")];
    let batch = analyze_batch_outcomes(&files, &outcomes);
    assert_eq!(batch.results[0].filename, "a.py");
    assert!(!batch.results[0].success);
}

#[test]
fn batch_failure_entries_carry_null_payloads() {
    let files = vec![FileData { name: "a.py".to_string(), content: "x".to_string(), path: None }];
    let outcomes = vec![ProcOutcome::LaunchFailed { message: "no python".to_string() }];
    let batch = analyze_batch_outcomes(&files, &outcomes);
    assert!(batch.results[0].static_analysis.is_null());
    assert!(batch.results[0].ai_analysis.is_null());
    assert!(batch.results[0].response.contains("no python"));
}

#[test]
fn batch_empty_input() {
    let files: Vec<FileData> = Vec::new();
    let outcomes: Vec<ProcOutcome> = Vec::new();
    let batch = analyze_batch_outcomes(&files, &outcomes);
    assert_eq!(batch.total_files, 0);
    assert_eq!(batch.successful_analyses, 0);
    assert!(batch.results.is_empty());
    assert_eq!(
        batch.summary,
        "Batch analysis complete: 0/0 files analyzed successfully. 0 issues found across all files."
    );
}

#[test]
fn batch_from_results_counts_decoded_failures() {
    // a decoded verdict with success == false counts as unsuccessful even
    // though the process call itself went through
    let files = vec![
        FileData { name: "a.py".to_string(), content: "x".to_string(), path: None },
        FileData { name: "b.py".to_string(), content: "y".to_string(), path: None },
    ];
    let ok = analyze_code_outcome(&finished(true, &ok_stdout("fine"), "")).unwrap();
    let failed_stdout = "{\"language\":\"python\",\"filename\":\"b.py\",\"static_analysis\":{},\"ai_analysis\":{},\"response\":\"did not run\",\"lines\":0,\"size\":0,\"success\":false}";
    let failed = analyze_code_outcome(&finished(true, failed_stdout, "")).unwrap();
    assert!(!failed.success);
    let batch = batch_from_results(&files, vec![Ok(ok), Ok(failed)]);
    assert_eq!(batch.total_files, 2);
    assert_eq!(batch.successful_analyses, 1);
}

#[test]
fn directory_request_checks_path_first() {
    let path = "/definitely/not/here".to_string();
    let err = validate_directory_request(&path, false).unwrap_err();
    assert_eq!(err, "Directory does not exist: /definitely/not/here");
    assert!(validate_directory_request(&"/".to_string(), true).is_ok());
}

#[test]
fn batch_decode_failure_becomes_failed_entry() {
    let files = vec![FileData { name: "a.py".to_string(), content: "x".to_string(), path: None }];
    let outcomes = vec![finished(true, "not json", "")];
    let batch = analyze_batch_outcomes(&files, &outcomes);
    assert_eq!(batch.successful_analyses, 0);
    assert!(!batch.results[0].success);
    assert!(batch.results[0].response.starts_with("Analysis failed: Failed to parse Python response: "));
}
