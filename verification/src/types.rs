//! The value records that the operations exchange, and their
//! well-formedness predicates.

use vstd::prelude::*;

verus! {

/// A single-file analysis request: the source text and the name it is
/// known by.
pub struct CodeAnalysisRequest {
    pub code: String,
    pub filename: String,
}

/// A request to analyze every file under one directory.
pub struct DirectoryAnalysisRequest {
    pub directory_path: String,
}

/// One file handed to batch analysis: its display name, its content, and
/// optionally the path it came from.
pub struct FileData {
    pub name: String,
    pub content: String,
    pub path: Option<String>,
}

/// A batch of files to analyze in the given order.
pub struct BatchAnalysisRequest {
    pub files: Vec<FileData>,
}

/// What became of one attempt to run an external process, as plain values:
/// either the process ran to completion, with its exit status and captured
/// output, or it could not be launched at all.
pub enum ProcOutcome {
    Finished { exit_success: bool, stdout: String, stderr: String },
    LaunchFailed { message: String },
}

/// The analyzer's verdict on one file. The two `serde_json::Value` fields
/// are opaque structured values: the analyzer's output carried through
/// without interpretation.
#[derive(Debug)]
pub struct CodeAnalysisResponse {
    pub language: String,
    pub filename: String,
    pub static_analysis: serde_json::Value,
    pub ai_analysis: serde_json::Value,
    pub response: String,
    pub lines: i32,
    pub size: i32,
    pub success: bool,
}

/// Line and byte counts are non-negative, and a failed analysis always
/// carries a non-empty narrative explaining the failure.
pub open spec fn analysis_wf(r: CodeAnalysisResponse) -> bool {
    &&& 0 <= r.lines
    &&& 0 <= r.size
    &&& !r.success ==> r.response@.len() > 0
}

/// The analyzer's verdict on a whole directory.
#[derive(Debug)]
pub struct DirectoryAnalysisResponse {
    pub kind: String,
    pub path: String,
    pub total_files: i32,
    pub analyzed_files: i32,
    pub results: Vec<CodeAnalysisResponse>,
    pub project_analysis: serde_json::Value,
}

/// No more files analyzed than present, and every per-file verdict
/// well-formed.
pub open spec fn directory_response_wf(r: DirectoryAnalysisResponse) -> bool {
    &&& 0 <= r.analyzed_files <= r.total_files
    &&& forall|i: int| 0 <= i < r.results@.len() ==> analysis_wf(#[trigger] r.results@[i])
}

/// The aggregate of a batch run: counts, the per-file verdicts in input
/// order, and a one-sentence summary.
pub struct BatchAnalysisResponse {
    pub total_files: i32,
    pub successful_analyses: i32,
    pub results: Vec<CodeAnalysisResponse>,
    pub summary: String,
}

/// The model-serving CLI's reported state.
pub struct OllamaStatus {
    pub available: bool,
    pub models: Vec<String>,
    pub error: Option<String>,
}

/// One step of progress while a file is analyzed; written to a diagnostic
/// stream only, never delivered to a caller.
pub struct ProgressUpdate {
    pub step: String,
    pub progress: i32,
    pub message: String,
    pub current_file: Option<String>,
}

/// What one immediate directory entry contributes to validation: whether it
/// is a file, and its extension if it has one.
pub struct DirEntry {
    pub is_file: bool,
    pub extension: Option<String>,
}

/// The verdict on a directory handed in for analysis.
#[derive(Debug)]
pub struct DirectoryInfo {
    pub path: String,
    pub total_files: i32,
    pub code_files: i32,
    pub supported_extensions: Vec<String>,
    pub is_valid: bool,
}

/// Host platform and the human-readable list of supported languages.
pub struct SystemInfo {
    pub os: String,
    pub arch: String,
    pub supported_languages: Vec<String>,
}

} // verus!
