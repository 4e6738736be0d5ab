//! Trusted boundary to serde_json: the opaque JSON document type, the
//! parse call, and the two field-extraction calls the decoder makes.
//! What the extractions return is a function of the text alone, so each is
//! given a name; everything that judges or assembles the extracted fields
//! is verified code in `decode`.

use vstd::prelude::*;

verus! {

/// serde_json's JSON document type, carried through this library as an
/// opaque structured value.
#[verifier::external_type_specification]
#[verifier::external_body]
pub struct ExValue(serde_json::Value);

/// Whether serde_json accepts the text as one well-formed JSON document.
pub uninterp spec fn json_parses(s: Seq<char>) -> bool;

/// Relies on serde_json::from_str::<Value>: it returns Ok exactly when the
/// input is one well-formed JSON document; on failure the error's text
/// names what went wrong.
#[verifier::external_body]
pub(crate) fn parse_json(s: &str) -> (r: Result<serde_json::Value, String>)
    ensures
        r is Ok <==> json_parses(s@),
{
    serde_json::from_str::<serde_json::Value>(s).map_err(|e| e.to_string())
}

/// What extracting one analyzer verdict's fields from a text yields: each
/// plain field if the document is an object carrying it with the right
/// type, and whether the two opaque payload fields are present. A text that
/// is not a JSON object yields no fields.
pub struct AnalysisFieldsSpec {
    pub language: Option<Seq<char>>,
    pub filename: Option<Seq<char>>,
    pub has_static: bool,
    pub has_ai: bool,
    pub response: Option<Seq<char>>,
    pub lines: Option<int>,
    pub size: Option<int>,
    pub success: Option<bool>,
}

/// The fields that extracting one analyzer verdict from the text yields;
/// a function of the text alone.
pub uninterp spec fn analysis_fields_of(s: Seq<char>) -> AnalysisFieldsSpec;

/// The extracted fields as values: present only where the document carries
/// them with the right type.
pub struct RawAnalysisFields {
    pub language: Option<String>,
    pub filename: Option<String>,
    pub static_analysis: Option<serde_json::Value>,
    pub ai_analysis: Option<serde_json::Value>,
    pub response: Option<String>,
    pub lines: Option<i64>,
    pub size: Option<i64>,
    pub success: Option<bool>,
}

pub open spec fn opt_str_view(o: Option<String>) -> Option<Seq<char>> {
    match o {
        Some(s) => Some(s@),
        None => None,
    }
}

pub open spec fn opt_i64_view(o: Option<i64>) -> Option<int> {
    match o {
        Some(n) => Some(n as int),
        None => None,
    }
}

pub open spec fn opt_vec_str_view(o: Option<Vec<String>>) -> Option<Seq<Seq<char>>> {
    match o {
        Some(v) => Some(v@.map_values(|s: String| s@)),
        None => None,
    }
}

/// Relies on serde_json::from_str::<Value>, Value::get, as_str, as_i64,
/// as_bool and Clone: pulls one verdict's fields out of the text, each
/// present only if the document is an object carrying it with the right
/// type. Deterministic in the text.
#[verifier::external_body]
pub(crate) fn extract_analysis(s: &str) -> (r: RawAnalysisFields)
    ensures
        opt_str_view(r.language) == analysis_fields_of(s@).language,
        opt_str_view(r.filename) == analysis_fields_of(s@).filename,
        r.static_analysis is Some <==> analysis_fields_of(s@).has_static,
        r.ai_analysis is Some <==> analysis_fields_of(s@).has_ai,
        opt_str_view(r.response) == analysis_fields_of(s@).response,
        opt_i64_view(r.lines) == analysis_fields_of(s@).lines,
        opt_i64_view(r.size) == analysis_fields_of(s@).size,
        r.success == analysis_fields_of(s@).success,
{
    let v = serde_json::from_str::<serde_json::Value>(s).ok();
    let g = |k: &str| v.as_ref().and_then(|d| d.get(k));
    RawAnalysisFields {
        language: g("language").and_then(|x| x.as_str()).map(str::to_owned),
        filename: g("filename").and_then(|x| x.as_str()).map(str::to_owned),
        static_analysis: g("static_analysis").cloned(),
        ai_analysis: g("ai_analysis").cloned(),
        response: g("response").and_then(|x| x.as_str()).map(str::to_owned),
        lines: g("lines").and_then(|x| x.as_i64()),
        size: g("size").and_then(|x| x.as_i64()),
        success: g("success").and_then(|x| x.as_bool()),
    }
}

/// What extracting a directory verdict's fields from a text yields. The
/// per-file results come back as the texts of the array's elements, each
/// decodable on its own through `analysis_fields_of`.
pub struct DirectoryFieldsSpec {
    pub kind: Option<Seq<char>>,
    pub path: Option<Seq<char>>,
    pub total_files: Option<int>,
    pub analyzed_files: Option<int>,
    pub results: Option<Seq<Seq<char>>>,
    pub has_project: bool,
}

/// The fields that extracting a directory verdict from the text yields;
/// a function of the text alone.
pub uninterp spec fn directory_fields_of(s: Seq<char>) -> DirectoryFieldsSpec;

/// The extracted directory fields as values.
pub struct RawDirectoryFields {
    pub kind: Option<String>,
    pub path: Option<String>,
    pub total_files: Option<i64>,
    pub analyzed_files: Option<i64>,
    pub results: Option<Vec<String>>,
    pub project_analysis: Option<serde_json::Value>,
}

/// Relies on serde_json::from_str::<Value>, Value::get, as_str, as_i64,
/// as_array, Clone and Value's Display: pulls a directory verdict's fields
/// out of the text; the `results` array comes back re-serialized element by
/// element. Deterministic in the text.
#[verifier::external_body]
pub(crate) fn extract_directory(s: &str) -> (r: RawDirectoryFields)
    ensures
        opt_str_view(r.kind) == directory_fields_of(s@).kind,
        opt_str_view(r.path) == directory_fields_of(s@).path,
        opt_i64_view(r.total_files) == directory_fields_of(s@).total_files,
        opt_i64_view(r.analyzed_files) == directory_fields_of(s@).analyzed_files,
        opt_vec_str_view(r.results) == directory_fields_of(s@).results,
        r.project_analysis is Some <==> directory_fields_of(s@).has_project,
{
    let v = serde_json::from_str::<serde_json::Value>(s).ok();
    let g = |k: &str| v.as_ref().and_then(|d| d.get(k));
    RawDirectoryFields {
        kind: g("type").and_then(|x| x.as_str()).map(str::to_owned),
        path: g("path").and_then(|x| x.as_str()).map(str::to_owned),
        total_files: g("total_files").and_then(|x| x.as_i64()),
        analyzed_files: g("analyzed_files").and_then(|x| x.as_i64()),
        results: g("results").and_then(|x| x.as_array()).map(
            |a| a.iter().map(|x| x.to_string()).collect(),
        ),
        project_analysis: g("project_analysis").cloned(),
    }
}

/// Relies on serde_json::Value::Null being a plain constructor.
#[verifier::external_body]
pub(crate) fn json_null() -> serde_json::Value {
    serde_json::Value::Null
}

} // verus!
