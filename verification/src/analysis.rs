//! The analysis facade: what each operation returns for every possible
//! outcome of the external analyzer call, and the batch aggregation.

use vstd::prelude::*;
use vstd::string::StrSliceExecFns;
use vstd::string::StringExecFns;

use crate::decode::analysis_matches_fields;
use crate::decode::decode_analysis;
use crate::decode::decode_directory;
use crate::decode::dir_fields_ok;
use crate::decode::directory_matches_fields;
use crate::decode::fields_ok;
use crate::json::analysis_fields_of;
use crate::json::directory_fields_of;
use crate::json::json_null;
use crate::json::json_parses;
use crate::strings::contains_str;
use crate::strings::contains_sub;
use crate::strings::dec_str;
use crate::strings::starts_with;
use crate::strings::u32_to_string;
use crate::types::analysis_wf;
use crate::types::directory_response_wf;
use crate::types::BatchAnalysisResponse;
use crate::types::CodeAnalysisResponse;
use crate::types::DirectoryAnalysisResponse;
use crate::types::FileData;
use crate::types::ProcOutcome;
use crate::types::ProgressUpdate;

verus! {

/// What single-file analysis owes for each process outcome: a launch
/// failure or a non-zero exit becomes an error carrying the cause; on a
/// clean exit the result is Ok exactly when stdout is well-formed JSON
/// whose extracted fields have the owed shape, and then carries exactly
/// those fields; anything else is an error with the parse-failure prefix.
pub open spec fn code_outcome_spec(
    outcome: ProcOutcome,
    r: Result<CodeAnalysisResponse, String>,
) -> bool {
    match outcome {
        ProcOutcome::LaunchFailed { message } => r matches Err(e) && e@
            == "Failed to execute Python processor: "@ + message@,
        ProcOutcome::Finished { exit_success, stdout, stderr } => {
            if !exit_success {
                r matches Err(e) && e@ == "Python processor failed: "@ + stderr@
            } else {
                &&& r is Ok <==> json_parses(stdout@) && fields_ok(analysis_fields_of(stdout@))
                &&& r matches Ok(a) ==> analysis_matches_fields(a, analysis_fields_of(stdout@))
                    && analysis_wf(a)
                &&& r matches Err(e) ==> starts_with(e@, "Failed to parse Python response: "@)
            }
        },
    }
}

/// Single-file analysis, given the outcome of the analyzer process.
pub fn analyze_code_outcome(outcome: &ProcOutcome) -> (r: Result<CodeAnalysisResponse, String>)
    ensures
        code_outcome_spec(*outcome, r),
{
    match outcome {
        ProcOutcome::LaunchFailed { message } => {
            let mut e = String::from_str("Failed to execute Python processor: ");
            e.append(message.as_str());
            Err(e)
        },
        ProcOutcome::Finished { exit_success, stdout, stderr } => {
            if !*exit_success {
                let mut e = String::from_str("Python processor failed: ");
                e.append(stderr.as_str());
                Err(e)
            } else {
                match decode_analysis(stdout.as_str()) {
                    Ok(a) => Ok(a),
                    Err(d) => {
                        let mut e = String::from_str("Failed to parse Python response: ");
                        e.append(d.as_str());
                        proof {
                            assert(e@.subrange(
                                0,
                                "Failed to parse Python response: "@.len() as int,
                            ) =~= "Failed to parse Python response: "@);
                        }
                        Err(e)
                    },
                }
            }
        },
    }
}

/// The directory path check made before any process is spawned.
pub fn validate_directory_request(directory_path: &String, is_dir: bool) -> (r: Result<(), String>)
    ensures
        is_dir <==> r is Ok,
        r matches Err(e) ==> e@ == "Directory does not exist: "@ + directory_path@,
{
    if is_dir {
        Ok(())
    } else {
        let mut e = String::from_str("Directory does not exist: ");
        e.append(directory_path.as_str());
        Err(e)
    }
}

/// What directory analysis owes for each process outcome: as for a single
/// file, with the directory document's fields.
pub open spec fn directory_outcome_spec(
    outcome: ProcOutcome,
    r: Result<DirectoryAnalysisResponse, String>,
) -> bool {
    match outcome {
        ProcOutcome::LaunchFailed { message } => r matches Err(e) && e@
            == "Failed to execute Python processor: "@ + message@,
        ProcOutcome::Finished { exit_success, stdout, stderr } => {
            if !exit_success {
                r matches Err(e) && e@ == "Directory analysis failed: "@ + stderr@
            } else {
                &&& r is Ok <==> json_parses(stdout@) && dir_fields_ok(directory_fields_of(
                    stdout@,
                ))
                &&& r matches Ok(d) ==> directory_matches_fields(d, directory_fields_of(stdout@))
                    && directory_response_wf(d)
                &&& r matches Err(e) ==> starts_with(
                    e@,
                    "Failed to parse directory analysis response: "@,
                )
            }
        },
    }
}

/// Directory analysis, given the outcome of the analyzer process. The path
/// must have been validated first (`validate_directory_request`).
pub fn analyze_directory_outcome(outcome: &ProcOutcome) -> (r: Result<
    DirectoryAnalysisResponse,
    String,
>)
    ensures
        directory_outcome_spec(*outcome, r),
{
    match outcome {
        ProcOutcome::LaunchFailed { message } => {
            let mut e = String::from_str("Failed to execute Python processor: ");
            e.append(message.as_str());
            Err(e)
        },
        ProcOutcome::Finished { exit_success, stdout, stderr } => {
            if !*exit_success {
                let mut e = String::from_str("Directory analysis failed: ");
                e.append(stderr.as_str());
                Err(e)
            } else {
                match decode_directory(stdout.as_str()) {
                    Ok(d) => Ok(d),
                    Err(d) => {
                        let mut e = String::from_str(
                            "Failed to parse directory analysis response: ",
                        );
                        e.append(d.as_str());
                        proof {
                            assert(e@.subrange(
                                0,
                                "Failed to parse directory analysis response: "@.len() as int,
                            ) =~= "Failed to parse directory analysis response: "@);
                        }
                        Err(e)
                    },
                }
            }
        },
    }
}

/// How many verdicts in the sequence report success.
pub open spec fn count_successes(s: Seq<CodeAnalysisResponse>) -> int
    decreases s.len(),
{
    if s.len() == 0 {
        0
    } else {
        count_successes(s.drop_last()) + if s.last().success {
            1int
        } else {
            0int
        }
    }
}

/// How many verdicts' narrative text mentions the literal phrase
/// "issues found" — the summary's heuristic count.
pub open spec fn count_issue_mentions(s: Seq<CodeAnalysisResponse>) -> int
    decreases s.len(),
{
    if s.len() == 0 {
        0
    } else {
        count_issue_mentions(s.drop_last()) + if contains_sub(s.last().response@, "issues found"@) {
            1int
        } else {
            0int
        }
    }
}

/// A batch never reports more successful analyses than it has results:
/// `successfulAnalyses` is at most `totalFiles`.
pub proof fn lemma_count_successes_bound(s: Seq<CodeAnalysisResponse>)
    ensures
        0 <= count_successes(s) <= s.len(),
    decreases s.len(),
{
    if s.len() > 0 {
        lemma_count_successes_bound(s.drop_last());
    }
}

/// The entry a batch produces for one file, given what single-file
/// analysis returned for it: a successful verdict is kept, with the file's
/// path (when it carried one) appended to the display name; a failure
/// becomes a failed-but-present entry that embeds the failure text.
///
/// The path is appended to the verdict's own filename, the one the analyzer
/// echoed back. The analyzer echoes the submitted name, under which this is
/// the file record's name with the path in parentheses; the no-path branch
/// (the name kept unchanged) presupposes the same echo.
pub open spec fn batch_entry_spec(
    file: FileData,
    outcome: Result<CodeAnalysisResponse, String>,
    entry: CodeAnalysisResponse,
) -> bool {
    match outcome {
        Ok(res) => {
            &&& entry.language == res.language
            &&& entry.static_analysis == res.static_analysis
            &&& entry.ai_analysis == res.ai_analysis
            &&& entry.response == res.response
            &&& entry.lines == res.lines
            &&& entry.size == res.size
            &&& entry.success == res.success
            &&& entry.filename@ == match file.path {
                Some(p) => res.filename@ + " ("@ + p@ + ")"@,
                None => res.filename@,
            }
        },
        Err(e) => {
            &&& !entry.success
            &&& entry.language@ == "unknown"@
            &&& entry.filename@ == file.name@
            &&& entry.response@ == "Analysis failed: "@ + e@
            &&& entry.lines == 0
            &&& entry.size == 0
        },
    }
}

/// The batch summary sentence for the given counts.
pub open spec fn batch_summary_spec(successful: int, total: int, issues: int) -> Seq<char> {
    "Batch analysis complete: "@ + dec_str(successful) + "/"@ + dec_str(total)
        + " files analyzed successfully. "@ + dec_str(issues) + " issues found across all files."@
}

/// Aggregates per-file analysis results into the batch response: one entry
/// per file in input order, the success count, and the summary sentence.
/// Never fails as a whole.
pub fn batch_from_results(
    files: &Vec<FileData>,
    results: Vec<Result<CodeAnalysisResponse, String>>,
) -> (r: BatchAnalysisResponse)
    requires
        results@.len() == files@.len(),
        files@.len() <= i32::MAX,
    ensures
        r.total_files as int == files@.len(),
        r.results@.len() == files@.len(),
        forall|i: int|
            0 <= i < files@.len() ==> batch_entry_spec(
                files@[i],
                results@[i],
                #[trigger] r.results@[i],
            ),
        r.successful_analyses as int == count_successes(r.results@),
        0 <= r.successful_analyses <= r.total_files,
        r.summary@ == batch_summary_spec(
            count_successes(r.results@),
            files@.len() as int,
            count_issue_mentions(r.results@),
        ),
{
    let ghost orig = results@;
    let mut rest = results;
    let total: i32 = files.len() as i32;
    let mut out: Vec<CodeAnalysisResponse> = Vec::new();
    let mut successful: i32 = 0;
    let mut issues: i32 = 0;
    let mut i: usize = 0;
    while i < files.len()
        invariant
            orig.len() == files@.len() <= i32::MAX,
            0 <= i <= files@.len(),
            rest@ =~= orig.subrange(i as int, orig.len() as int),
            out@.len() == i,
            forall|j: int|
                0 <= j < i ==> batch_entry_spec(files@[j], orig[j], #[trigger] out@[j]),
            successful as int == count_successes(out@),
            0 <= successful <= i,
            issues as int == count_issue_mentions(out@),
            0 <= issues <= i,
        decreases files@.len() - i,
    {
        let one = rest.remove(0);
        proof {
            assert(rest@ =~= orig.subrange(i + 1, orig.len() as int));
        }
        let entry = match one {
            Ok(res) => {
                let CodeAnalysisResponse {
                    language,
                    filename,
                    static_analysis,
                    ai_analysis,
                    response,
                    lines,
                    size,
                    success,
                } = res;
                let filename = match &files[i].path {
                    Some(p) => filename.concat(" (").concat(p.as_str()).concat(")"),
                    None => filename,
                };
                CodeAnalysisResponse {
                    language,
                    filename,
                    static_analysis,
                    ai_analysis,
                    response,
                    lines,
                    size,
                    success,
                }
            },
            Err(e) => {
                let mut response = String::from_str("Analysis failed: ");
                response.append(e.as_str());
                CodeAnalysisResponse {
                    language: String::from_str("unknown"),
                    filename: files[i].name.clone(),
                    static_analysis: json_null(),
                    ai_analysis: json_null(),
                    response,
                    lines: 0,
                    size: 0,
                    success: false,
                }
            },
        };
        if entry.success {
            successful += 1;
        }
        if contains_str(entry.response.as_str(), "issues found") {
            issues += 1;
        }
        proof {
            assert(out@.push(entry).drop_last() =~= out@);
        }
        out.push(entry);
        i += 1;
    }
    let mut summary = String::from_str("Batch analysis complete: ");
    let s1 = u32_to_string(successful as u32);
    summary.append(s1.as_str());
    summary.append("/");
    let s2 = u32_to_string(total as u32);
    summary.append(s2.as_str());
    summary.append(" files analyzed successfully. ");
    let s3 = u32_to_string(issues as u32);
    summary.append(s3.as_str());
    summary.append(" issues found across all files.");
    proof {
        assert(summary@ =~= batch_summary_spec(
            count_successes(out@),
            files@.len() as int,
            count_issue_mentions(out@),
        ));
    }
    BatchAnalysisResponse { total_files: total, successful_analyses: successful, results: out, summary }
}

/// The entry a batch produces for one file, stated over the raw process
/// outcome for that file: a launch failure or a non-zero exit gives the
/// failed-but-present entry carrying the cause; a clean exit whose stdout
/// decodes gives exactly the decoded fields, with the path suffix on the
/// filename; a clean exit whose stdout does not decode gives the
/// failed-but-present entry with the parse-failure text.
pub open spec fn batch_outcome_entry_spec(
    file: FileData,
    outcome: ProcOutcome,
    entry: CodeAnalysisResponse,
) -> bool {
    match outcome {
        ProcOutcome::LaunchFailed { message } => {
            &&& !entry.success
            &&& entry.language@ == "unknown"@
            &&& entry.filename@ == file.name@
            &&& entry.response@ == "Analysis failed: "@ + "Failed to execute Python processor: "@
                + message@
        },
        ProcOutcome::Finished { exit_success, stdout, stderr } => {
            if !exit_success {
                &&& !entry.success
                &&& entry.language@ == "unknown"@
                &&& entry.filename@ == file.name@
                &&& entry.response@ == "Analysis failed: "@ + "Python processor failed: "@
                    + stderr@
            } else {
                let f = analysis_fields_of(stdout@);
                &&& analysis_wf(entry)
                &&& if json_parses(stdout@) && fields_ok(f) {
                    &&& f.language == Some(entry.language@)
                    &&& f.response == Some(entry.response@)
                    &&& f.lines == Some(entry.lines as int)
                    &&& f.size == Some(entry.size as int)
                    &&& f.success == Some(entry.success)
                    &&& entry.filename@ == match file.path {
                        Some(p) => f.filename->0 + " ("@ + p@ + ")"@,
                        None => f.filename->0,
                    }
                } else {
                    &&& !entry.success
                    &&& entry.language@ == "unknown"@
                    &&& entry.filename@ == file.name@
                    &&& starts_with(entry.response@, "Analysis failed: "@)
                    &&& entry.lines == 0
                    &&& entry.size == 0
                }
            }
        },
    }
}

proof fn lemma_batch_outcome_entry(
    file: FileData,
    outcome: ProcOutcome,
    one: Result<CodeAnalysisResponse, String>,
    entry: CodeAnalysisResponse,
)
    requires
        code_outcome_spec(outcome, one),
        batch_entry_spec(file, one, entry),
    ensures
        batch_outcome_entry_spec(file, outcome, entry),
{
    match outcome {
        ProcOutcome::LaunchFailed { message } => {
            let e = one->Err_0;
            assert(entry.response@ =~= "Analysis failed: "@
                + "Failed to execute Python processor: "@ + message@);
        },
        ProcOutcome::Finished { exit_success, stdout, stderr } => {
            if !exit_success {
                let e = one->Err_0;
                assert(entry.response@ =~= "Analysis failed: "@ + "Python processor failed: "@
                    + stderr@);
            } else {
                match one {
                    Ok(res) => {},
                    Err(e) => {
                        reveal_strlit("Analysis failed: ");
                        assert(entry.response@.subrange(0, "Analysis failed: "@.len() as int)
                            =~= "Analysis failed: "@);
                        assert(entry.response@.len() > 0);
                    },
                }
            }
        },
    }
}

/// Batch analysis: runs every file's outcome through single-file analysis,
/// in input order, and aggregates. A per-file failure becomes a
/// failed-but-present entry; the batch itself never fails.
pub fn analyze_batch_outcomes(files: &Vec<FileData>, outcomes: &Vec<ProcOutcome>) -> (r:
    BatchAnalysisResponse)
    requires
        outcomes@.len() == files@.len(),
        files@.len() <= i32::MAX,
    ensures
        r.total_files as int == files@.len(),
        r.results@.len() == files@.len(),
        forall|i: int|
            0 <= i < files@.len() ==> batch_outcome_entry_spec(
                files@[i],
                outcomes@[i],
                #[trigger] r.results@[i],
            ),
        r.successful_analyses as int == count_successes(r.results@),
        0 <= r.successful_analyses <= r.total_files,
        r.summary@ == batch_summary_spec(
            count_successes(r.results@),
            files@.len() as int,
            count_issue_mentions(r.results@),
        ),
{
    let mut results: Vec<Result<CodeAnalysisResponse, String>> = Vec::new();
    let mut i: usize = 0;
    while i < outcomes.len()
        invariant
            outcomes@.len() == files@.len(),
            0 <= i <= outcomes@.len(),
            results@.len() == i,
            forall|j: int|
                0 <= j < i ==> code_outcome_spec(outcomes@[j], #[trigger] results@[j]),
        decreases outcomes@.len() - i,
    {
        let one = analyze_code_outcome(&outcomes[i]);
        results.push(one);
        i += 1;
    }
    let r = batch_from_results(files, results);
    proof {
        assert forall|k: int| 0 <= k < files@.len() implies batch_outcome_entry_spec(
            files@[k],
            outcomes@[k],
            #[trigger] r.results@[k],
        ) by {
            lemma_batch_outcome_entry(files@[k], outcomes@[k], results@[k], r.results@[k]);
        }
    }
    r
}

/// The four progress steps reported while one file is analyzed.
pub fn progress_updates(filename: &String) -> (r: Vec<ProgressUpdate>)
    ensures
        r@.len() == 4,
        r@[0].step@ == "reading"@ && r@[0].progress == 10 && r@[0].message@ == "Reading "@
            + filename@ && (r@[0].current_file matches Some(f) && f@ == filename@),
        r@[1].step@ == "parsing"@ && r@[1].progress == 40 && r@[1].message@
            == "Running static analysis..."@ && (r@[1].current_file matches Some(f) && f@
            == filename@),
        r@[2].step@ == "analyzing"@ && r@[2].progress == 70 && r@[2].message@
            == "AI processing..."@ && (r@[2].current_file matches Some(f) && f@ == filename@),
        r@[3].step@ == "complete"@ && r@[3].progress == 100 && r@[3].message@
            == "Analysis complete!"@ && r@[3].current_file is None,
{
    let mut reading_msg = String::from_str("Reading ");
    reading_msg.append(filename.as_str());
    let mut r: Vec<ProgressUpdate> = Vec::new();
    r.push(
        ProgressUpdate {
            step: String::from_str("reading"),
            progress: 10,
            message: reading_msg,
            current_file: Some(filename.clone()),
        },
    );
    r.push(
        ProgressUpdate {
            step: String::from_str("parsing"),
            progress: 40,
            message: String::from_str("Running static analysis..."),
            current_file: Some(filename.clone()),
        },
    );
    r.push(
        ProgressUpdate {
            step: String::from_str("analyzing"),
            progress: 70,
            message: String::from_str("AI processing..."),
            current_file: Some(filename.clone()),
        },
    );
    r.push(
        ProgressUpdate {
            step: String::from_str("complete"),
            progress: 100,
            message: String::from_str("Analysis complete!"),
            current_file: None,
        },
    );
    r
}

} // verus!
