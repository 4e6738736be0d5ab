//! Decoding of the external analyzer's JSON output into typed responses.
//!
//! serde_json parses the text and extracts the raw fields (named by
//! `analysis_fields_of` / `directory_fields_of`); everything after that —
//! which fields must be present, with which types, the data-model
//! invariants they must satisfy, and what value is assembled — is verified
//! code here, so decoding succeeds exactly when the extracted fields have
//! the owed shape.

use vstd::prelude::*;

use crate::json::analysis_fields_of;
use crate::json::directory_fields_of;
use crate::json::extract_analysis;
use crate::json::extract_directory;
use crate::json::json_parses;
use crate::json::parse_json;
use crate::json::AnalysisFieldsSpec;
use crate::json::DirectoryFieldsSpec;
use crate::json::RawAnalysisFields;
use crate::types::analysis_wf;
use crate::types::directory_response_wf;
use crate::types::CodeAnalysisResponse;
use crate::types::DirectoryAnalysisResponse;

verus! {

/// The message every shape failure decodes to.
pub open spec fn shape_error_msg() -> Seq<char> {
    "analyzer output does not match the expected shape"@
}

fn shape_err() -> (r: String)
    ensures
        r@ == shape_error_msg(),
{
    String::from_str("analyzer output does not match the expected shape")
}

/// The shape one verdict owes: every field present and typed, counts
/// non-negative and within 32 bits, and a non-empty narrative on failure.
pub open spec fn raw_fields_valid(f: RawAnalysisFields) -> bool {
    &&& f.language is Some
    &&& f.filename is Some
    &&& f.static_analysis is Some
    &&& f.ai_analysis is Some
    &&& f.response is Some
    &&& f.lines is Some && 0 <= f.lines->0 <= i32::MAX
    &&& f.size is Some && 0 <= f.size->0 <= i32::MAX
    &&& f.success is Some
    &&& (f.success == Some(false) ==> f.response->0@.len() > 0)
}

/// The same shape, stated of the named extraction of a text.
pub open spec fn fields_ok(f: AnalysisFieldsSpec) -> bool {
    &&& f.language is Some
    &&& f.filename is Some
    &&& f.has_static
    &&& f.has_ai
    &&& f.response is Some
    &&& f.lines is Some && 0 <= f.lines->0 <= i32::MAX
    &&& f.size is Some && 0 <= f.size->0 <= i32::MAX
    &&& f.success is Some
    &&& (f.success == Some(false) ==> f.response->0.len() > 0)
}

/// The verdict `a` carries exactly the plain fields the text's extraction
/// yielded.
pub open spec fn analysis_matches_fields(a: CodeAnalysisResponse, f: AnalysisFieldsSpec) -> bool {
    &&& f.language == Some(a.language@)
    &&& f.filename == Some(a.filename@)
    &&& f.response == Some(a.response@)
    &&& f.lines == Some(a.lines as int)
    &&& f.size == Some(a.size as int)
    &&& f.success == Some(a.success)
}

/// Builds one verdict from its raw fields; succeeds exactly when the
/// fields have the owed shape, and then copies them over unchanged.
pub fn assemble_analysis(f: RawAnalysisFields) -> (r: Result<CodeAnalysisResponse, String>)
    ensures
        r is Ok <==> raw_fields_valid(f),
        r matches Ok(a) ==> {
            &&& a.language == f.language->0
            &&& a.filename == f.filename->0
            &&& a.static_analysis == f.static_analysis->0
            &&& a.ai_analysis == f.ai_analysis->0
            &&& a.response == f.response->0
            &&& a.lines == f.lines->0 as i32
            &&& a.size == f.size->0 as i32
            &&& a.success == f.success->0
            &&& analysis_wf(a)
        },
        r matches Err(e) ==> e@ == shape_error_msg(),
{
    let RawAnalysisFields {
        language,
        filename,
        static_analysis,
        ai_analysis,
        response,
        lines,
        size,
        success,
    } = f;
    let language = match language {
        Some(x) => x,
        None => { return Err(shape_err()) },
    };
    let filename = match filename {
        Some(x) => x,
        None => { return Err(shape_err()) },
    };
    let static_analysis = match static_analysis {
        Some(x) => x,
        None => { return Err(shape_err()) },
    };
    let ai_analysis = match ai_analysis {
        Some(x) => x,
        None => { return Err(shape_err()) },
    };
    let response = match response {
        Some(x) => x,
        None => { return Err(shape_err()) },
    };
    let lines: i32 = match lines {
        Some(l) => {
            if 0 <= l && l <= i32::MAX as i64 {
                l as i32
            } else {
                return Err(shape_err());
            }
        },
        None => { return Err(shape_err()) },
    };
    let size: i32 = match size {
        Some(l) => {
            if 0 <= l && l <= i32::MAX as i64 {
                l as i32
            } else {
                return Err(shape_err());
            }
        },
        None => { return Err(shape_err()) },
    };
    let success = match success {
        Some(x) => x,
        None => { return Err(shape_err()) },
    };
    if !success && response.as_str().unicode_len() == 0 {
        return Err(shape_err());
    }
    Ok(
        CodeAnalysisResponse {
            language,
            filename,
            static_analysis,
            ai_analysis,
            response,
            lines,
            size,
            success,
        },
    )
}

/// Decodes one verdict out of a text: the extraction's fields, assembled.
/// Succeeds exactly when the extracted fields have the owed shape.
fn decode_analysis_text(text: &str) -> (r: Result<CodeAnalysisResponse, String>)
    ensures
        r is Ok <==> fields_ok(analysis_fields_of(text@)),
        r matches Ok(a) ==> analysis_matches_fields(a, analysis_fields_of(text@)) && analysis_wf(
            a,
        ),
        r matches Err(e) ==> e@ == shape_error_msg(),
{
    let f = extract_analysis(text);
    proof {
        assert(raw_fields_valid(f) <==> fields_ok(analysis_fields_of(text@)));
    }
    assemble_analysis(f)
}

/// Decodes the analyzer's stdout as one single-file response: it succeeds
/// exactly when the text is well-formed JSON whose extracted fields have
/// the owed shape, and then returns exactly those fields.
pub fn decode_analysis(stdout: &str) -> (r: Result<CodeAnalysisResponse, String>)
    ensures
        r is Ok <==> json_parses(stdout@) && fields_ok(analysis_fields_of(stdout@)),
        r matches Ok(a) ==> analysis_matches_fields(a, analysis_fields_of(stdout@)) && analysis_wf(
            a,
        ),
        r matches Err(e) ==> json_parses(stdout@) ==> e@ == shape_error_msg(),
{
    match parse_json(stdout) {
        Ok(_) => decode_analysis_text(stdout),
        Err(e) => Err(e),
    }
}

/// The shape a directory verdict owes: scalar fields present and typed,
/// `0 <= analyzedFiles <= totalFiles`, and every element of `results`
/// itself a well-shaped verdict.
pub open spec fn dir_fields_ok(f: DirectoryFieldsSpec) -> bool {
    &&& f.kind is Some
    &&& f.path is Some
    &&& f.total_files is Some && 0 <= f.total_files->0 <= i32::MAX
    &&& f.analyzed_files is Some && 0 <= f.analyzed_files->0 <= f.total_files->0
    &&& f.has_project
    &&& f.results is Some
    &&& forall|i: int|
        0 <= i < f.results->0.len() ==> fields_ok(analysis_fields_of(#[trigger] f.results->0[i]))
}

/// The directory verdict `d` carries exactly the fields the text's
/// extraction yielded, each per-file result decoded from its element text.
pub open spec fn directory_matches_fields(
    d: DirectoryAnalysisResponse,
    f: DirectoryFieldsSpec,
) -> bool {
    &&& f.kind == Some(d.kind@)
    &&& f.path == Some(d.path@)
    &&& f.total_files == Some(d.total_files as int)
    &&& f.analyzed_files == Some(d.analyzed_files as int)
    &&& f.results is Some && f.results->0.len() == d.results@.len()
    &&& forall|i: int|
        0 <= i < d.results@.len() ==> analysis_matches_fields(
            #[trigger] d.results@[i],
            analysis_fields_of(f.results->0[i]),
        )
}

/// Decodes the analyzer's stdout as a directory response: it succeeds
/// exactly when the text is well-formed JSON whose extracted fields — the
/// scalars and every element of `results` — have the owed shape, and then
/// returns exactly those fields.
pub fn decode_directory(stdout: &str) -> (r: Result<DirectoryAnalysisResponse, String>)
    ensures
        r is Ok <==> json_parses(stdout@) && dir_fields_ok(directory_fields_of(stdout@)),
        r matches Ok(d) ==> directory_matches_fields(d, directory_fields_of(stdout@))
            && directory_response_wf(d),
        r matches Err(e) ==> json_parses(stdout@) ==> e@ == shape_error_msg(),
{
    match parse_json(stdout) {
        Ok(_) => {},
        Err(e) => { return Err(e) },
    };
    let raw = extract_directory(stdout);
    let ghost name = directory_fields_of(stdout@);
    let kind = match raw.kind {
        Some(x) => x,
        None => { return Err(shape_err()) },
    };
    let path = match raw.path {
        Some(x) => x,
        None => { return Err(shape_err()) },
    };
    let total_files: i32 = match raw.total_files {
        Some(l) => {
            if 0 <= l && l <= i32::MAX as i64 {
                l as i32
            } else {
                return Err(shape_err());
            }
        },
        None => { return Err(shape_err()) },
    };
    let analyzed_files: i32 = match raw.analyzed_files {
        Some(l) => {
            if 0 <= l && l <= total_files as i64 {
                l as i32
            } else {
                return Err(shape_err());
            }
        },
        None => { return Err(shape_err()) },
    };
    let project_analysis = match raw.project_analysis {
        Some(x) => x,
        None => { return Err(shape_err()) },
    };
    let texts = match raw.results {
        Some(ts) => ts,
        None => { return Err(shape_err()) },
    };
    proof {
        assert(name.results == Some(texts@.map_values(|s: String| s@)));
    }
    let mut results: Vec<CodeAnalysisResponse> = Vec::new();
    let mut idx: usize = 0;
    while idx < texts.len()
        invariant
            name == directory_fields_of(stdout@),
            name.results == Some(texts@.map_values(|s: String| s@)),
            results@.len() == idx,
            0 <= idx <= texts@.len(),
            forall|i: int| 0 <= i < idx ==> analysis_wf(#[trigger] results@[i]),
            forall|i: int|
                0 <= i < idx ==> fields_ok(analysis_fields_of(#[trigger] name.results->0[i])),
            forall|i: int|
                0 <= i < idx ==> analysis_matches_fields(
                    #[trigger] results@[i],
                    analysis_fields_of(name.results->0[i]),
                ),
        decreases texts@.len() - idx,
    {
        proof {
            assert(name.results->0[idx as int] == texts@[idx as int]@);
        }
        match decode_analysis_text(texts[idx].as_str()) {
            Ok(a) => results.push(a),
            Err(e) => {
                proof {
                    assert(!fields_ok(analysis_fields_of(name.results->0[idx as int])));
                }
                return Err(e);
            },
        }
        idx += 1;
    }
    proof {
        assert(dir_fields_ok(name));
    }
    Ok(
        DirectoryAnalysisResponse {
            kind,
            path,
            total_files,
            analyzed_files,
            results,
            project_analysis,
        },
    )
}

} // verus!
