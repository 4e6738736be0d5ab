//! The model-service gateway: parsing the model CLI's `list` output and
//! deciding what `status` and `install` report for every process outcome.

use vstd::prelude::*;
use vstd::string::StrSliceExecFns;
use vstd::string::StringExecFns;

use crate::strings::contains_sub;
use crate::types::OllamaStatus;
use crate::types::ProcOutcome;

verus! {

/// The characters that delimit tokens within a line: the Unicode
/// White_Space set, as `char::is_whitespace` has it.
pub open spec fn is_ws(c: char) -> bool {
    c == ' ' || c == '\t' || c == '\n' || c == '\r' || c == '\u{000B}' || c == '\u{000C}'
        || c == '\u{0085}' || c == '\u{00A0}' || c == '\u{1680}' || c == '\u{2000}'
        || c == '\u{2001}' || c == '\u{2002}' || c == '\u{2003}' || c == '\u{2004}'
        || c == '\u{2005}' || c == '\u{2006}' || c == '\u{2007}' || c == '\u{2008}'
        || c == '\u{2009}' || c == '\u{200A}' || c == '\u{2028}' || c == '\u{2029}'
        || c == '\u{202F}' || c == '\u{205F}' || c == '\u{3000}'
}

fn ws_char(c: char) -> (r: bool)
    ensures
        r == is_ws(c),
{
    c == ' ' || c == '\t' || c == '\n' || c == '\r' || c == '\u{000B}' || c == '\u{000C}'
        || c == '\u{0085}' || c == '\u{00A0}' || c == '\u{1680}' || c == '\u{2000}'
        || c == '\u{2001}' || c == '\u{2002}' || c == '\u{2003}' || c == '\u{2004}'
        || c == '\u{2005}' || c == '\u{2006}' || c == '\u{2007}' || c == '\u{2008}'
        || c == '\u{2009}' || c == '\u{200A}' || c == '\u{2028}' || c == '\u{2029}'
        || c == '\u{202F}' || c == '\u{205F}' || c == '\u{3000}'
}

/// Index of the first newline at or after `pos`, or the text's length.
pub open spec fn line_end(s: Seq<char>, pos: int) -> int
    decreases s.len() - pos when 0 <= pos <= s.len()
{
    if pos >= s.len() {
        s.len() as int
    } else if s[pos] == '\n' {
        pos
    } else {
        line_end(s, pos + 1)
    }
}

pub proof fn lemma_line_end(s: Seq<char>, pos: int)
    requires
        0 <= pos <= s.len(),
    ensures
        pos <= line_end(s, pos) <= s.len(),
        line_end(s, pos) < s.len() ==> s[line_end(s, pos)] == '\n',
    decreases s.len() - pos,
{
    if pos < s.len() && s[pos] != '\n' {
        lemma_line_end(s, pos + 1);
    }
}

proof fn lemma_line_end_at(s: Seq<char>, pos: int, i: int)
    requires
        0 <= pos <= i <= s.len(),
        forall|j: int| pos <= j < i ==> s[j] != '\n',
        i < s.len() ==> s[i] == '\n',
    ensures
        line_end(s, pos) == i,
    decreases i - pos,
{
    if pos < i {
        lemma_line_end_at(s, pos + 1, i);
    }
}

/// Index of the first non-whitespace character in `[pos, e)`, or `e`.
pub open spec fn skip_ws(s: Seq<char>, pos: int, e: int) -> int
    decreases e - pos when pos <= e
{
    if pos >= e {
        e
    } else if is_ws(s[pos]) {
        skip_ws(s, pos + 1, e)
    } else {
        pos
    }
}

proof fn lemma_skip_ws_at(s: Seq<char>, pos: int, e: int, i: int)
    requires
        pos <= i <= e,
        forall|j: int| pos <= j < i ==> is_ws(s[j]),
        i < e ==> !is_ws(s[i]),
    ensures
        skip_ws(s, pos, e) == i,
    decreases i - pos,
{
    if pos < i {
        lemma_skip_ws_at(s, pos + 1, e, i);
    }
}

/// Index of the first whitespace character in `[pos, e)`, or `e`.
pub open spec fn token_end(s: Seq<char>, pos: int, e: int) -> int
    decreases e - pos when pos <= e
{
    if pos >= e {
        e
    } else if is_ws(s[pos]) {
        pos
    } else {
        token_end(s, pos + 1, e)
    }
}

proof fn lemma_token_end_at(s: Seq<char>, pos: int, e: int, i: int)
    requires
        pos <= i <= e,
        forall|j: int| pos <= j < i ==> !is_ws(s[j]),
        i < e ==> is_ws(s[i]),
    ensures
        token_end(s, pos, e) == i,
    decreases i - pos,
{
    if pos < i {
        lemma_token_end_at(s, pos + 1, e, i);
    }
}

/// The first whitespace-delimited token of `s[pos..e)`; empty when the
/// range holds only whitespace.
pub open spec fn first_token(s: Seq<char>, pos: int, e: int) -> Seq<char> {
    let a = skip_ws(s, pos, e);
    s.subrange(a, token_end(s, a, e))
}

/// The model names listed from position `pos` on: for each remaining line,
/// its first whitespace-delimited token, empty tokens skipped.
pub open spec fn models_from(s: Seq<char>, pos: int) -> Seq<Seq<char>>
    decreases s.len() - pos when 0 <= pos <= s.len() via models_from_dec
{
    if pos >= s.len() {
        seq![]
    } else {
        let e = line_end(s, pos);
        let t = first_token(s, pos, e);
        let next = if e < s.len() {
            e + 1
        } else {
            e
        };
        let rest = models_from(s, next);
        if t.len() > 0 {
            seq![t] + rest
        } else {
            rest
        }
    }
}

#[via_fn]
proof fn models_from_dec(s: Seq<char>, pos: int) {
    if 0 <= pos < s.len() {
        lemma_line_end(s, pos);
    }
}

/// The model names parsed out of the CLI's `list` output: the first line is
/// a header and is discarded; each later line contributes its first
/// whitespace-delimited token, lines without one are skipped.
pub open spec fn models_spec(s: Seq<char>) -> Seq<Seq<char>> {
    let h = line_end(s, 0);
    models_from(
        s,
        if h < s.len() {
            h + 1
        } else {
            h
        },
    )
}

fn find_line_end(s: &str, pos: usize) -> (r: usize)
    requires
        pos <= s@.len(),
    ensures
        r == line_end(s@, pos as int),
        pos <= r <= s@.len(),
        r < s@.len() ==> s@[r as int] == '\n',
{
    let n = s.unicode_len();
    let mut i = pos;
    while i < n
        invariant
            pos <= i <= n,
            n == s@.len(),
            forall|j: int| pos <= j < i ==> s@[j] != '\n',
        decreases n - i,
    {
        if s.get_char(i) == '\n' {
            proof {
                lemma_line_end_at(s@, pos as int, i as int);
            }
            return i;
        }
        i += 1;
    }
    proof {
        lemma_line_end_at(s@, pos as int, i as int);
    }
    i
}

/// Parses the `list` output into the model names, against `models_spec`.
pub fn parse_models(stdout: &str) -> (r: Vec<String>)
    ensures
        r@.map_values(|m: String| m@) == models_spec(stdout@),
{
    let n = stdout.unicode_len();
    let h = find_line_end(stdout, 0);
    let mut pos = if h < n {
        h + 1
    } else {
        h
    };
    let mut out: Vec<String> = Vec::new();
    proof {
        assert(out@.map_values(|m: String| m@) + models_from(stdout@, pos as int)
            =~= models_spec(stdout@));
    }
    while pos < n
        invariant
            n == stdout@.len(),
            0 <= pos <= n,
            out@.map_values(|m: String| m@) + models_from(stdout@, pos as int) =~= models_spec(
                stdout@,
            ),
        decreases n - pos,
    {
        let ghost pos0 = pos as int;
        let e = find_line_end(stdout, pos);
        // skip leading whitespace of the line
        let mut a = pos;
        while a < e
            invariant
                pos <= a <= e,
                e <= n == stdout@.len(),
                forall|j: int| pos <= j < a ==> is_ws(stdout@[j]),
            ensures
                pos <= a <= e,
                forall|j: int| pos <= j < a ==> is_ws(stdout@[j]),
                a < e ==> !is_ws(stdout@[a as int]),
            decreases e - a,
        {
            if !ws_char(stdout.get_char(a)) {
                break;
            }
            a += 1;
        }
        proof {
            lemma_skip_ws_at(stdout@, pos as int, e as int, a as int);
        }
        // take the token's non-whitespace run
        let mut k = a;
        while k < e
            invariant
                a <= k <= e,
                e <= n == stdout@.len(),
                forall|j: int| a <= j < k ==> !is_ws(stdout@[j]),
            ensures
                a <= k <= e,
                forall|j: int| a <= j < k ==> !is_ws(stdout@[j]),
                k < e ==> is_ws(stdout@[k as int]),
            decreases e - k,
        {
            if ws_char(stdout.get_char(k)) {
                break;
            }
            k += 1;
        }
        proof {
            lemma_token_end_at(stdout@, a as int, e as int, k as int);
        }
        let t = stdout.substring_char(a, k);
        proof {
            assert(t@ == first_token(stdout@, pos0, e as int));
        }
        if t.unicode_len() > 0 {
            let m = t.to_owned();
            proof {
                assert(out@.push(m).map_values(|x: String| x@) =~= out@.map_values(
                    |x: String| x@,
                ).push(t@));
            }
            out.push(m);
        }
        pos = if e < n {
            e + 1
        } else {
            e
        };
        proof {
            assert(out@.map_values(|m: String| m@) + models_from(stdout@, pos as int)
                =~= models_spec(stdout@));
        }
    }
    proof {
        assert(out@.map_values(|m: String| m@) =~= models_spec(stdout@));
    }
    out
}

/// What `status` owes for each outcome of the model CLI's `list` call:
/// a launch failure and a non-zero exit are both downgraded to a reported
/// unavailable state, never an error; a clean exit yields the parsed
/// model names.
pub open spec fn ollama_status_spec(outcome: ProcOutcome, r: OllamaStatus) -> bool {
    match outcome {
        ProcOutcome::LaunchFailed { message } => {
            &&& !r.available
            &&& r.models@.len() == 0
            &&& r.error matches Some(e) && e@ == "Ollama not installed: "@ + message@
        },
        ProcOutcome::Finished { exit_success, stdout, stderr } => {
            if !exit_success {
                &&& !r.available
                &&& r.models@.len() == 0
                &&& r.error matches Some(e) && e@ == "Ollama service not running"@
            } else {
                &&& r.available
                &&& r.error is None
                &&& r.models@.map_values(|m: String| m@) == models_spec(stdout@)
            }
        },
    }
}

/// The model service's status, given the outcome of the `list` call.
pub fn check_ollama_status_outcome(outcome: &ProcOutcome) -> (r: OllamaStatus)
    ensures
        ollama_status_spec(*outcome, r),
{
    match outcome {
        ProcOutcome::LaunchFailed { message } => {
            let mut e = String::from_str("Ollama not installed: ");
            e.append(message.as_str());
            OllamaStatus { available: false, models: Vec::new(), error: Some(e) }
        },
        ProcOutcome::Finished { exit_success, stdout, stderr: _ } => {
            if !*exit_success {
                OllamaStatus {
                    available: false,
                    models: Vec::new(),
                    error: Some(String::from_str("Ollama service not running")),
                }
            } else {
                OllamaStatus { available: true, models: parse_models(stdout.as_str()), error: None }
            }
        },
    }
}

/// The unavailable-state message for an absent binary is never empty and
/// always mentions "not installed", whatever the launch failure's cause.
pub proof fn lemma_not_installed_message(cause: Seq<char>)
    ensures
        ("Ollama not installed: "@ + cause).len() > 0,
        contains_sub("Ollama not installed: "@ + cause, "not installed"@),
{
    reveal_strlit("Ollama not installed: ");
    reveal_strlit("not installed");
    let msg = "Ollama not installed: "@ + cause;
    let needle = "not installed"@;
    assert(msg.subrange(7, 7 + needle.len() as int) =~= needle);
}

/// The unavailable-state message for a failing service is never empty and
/// mentions "not running".
pub proof fn lemma_not_running_message()
    ensures
        "Ollama service not running"@.len() > 0,
        contains_sub("Ollama service not running"@, "not running"@),
{
    reveal_strlit("Ollama service not running");
    reveal_strlit("not running");
    let msg = "Ollama service not running"@;
    let needle = "not running"@;
    assert(msg.subrange(15, 15 + needle.len() as int) =~= needle);
}

/// Model installation, given the outcome of the `pull` call. Unlike
/// `status`, a failure here is surfaced as an error.
pub fn install_model_outcome(model: &String, outcome: &ProcOutcome) -> (r: Result<String, String>)
    ensures
        (*outcome) matches ProcOutcome::LaunchFailed { message } ==> (r matches Err(e) && e@
            == "Failed to pull model: "@ + message@),
        (*outcome) matches ProcOutcome::Finished { exit_success, stderr, .. } ==> {
            &&& exit_success ==> (r matches Ok(m) && m@ == "Successfully installed model: "@
                + model@)
            &&& !exit_success ==> (r matches Err(e) && e@ == "Failed to install model "@ + model@
                + ": "@ + stderr@)
        },
{
    match outcome {
        ProcOutcome::LaunchFailed { message } => {
            let mut e = String::from_str("Failed to pull model: ");
            e.append(message.as_str());
            Err(e)
        },
        ProcOutcome::Finished { exit_success, stdout: _, stderr } => {
            if *exit_success {
                let mut m = String::from_str("Successfully installed model: ");
                m.append(model.as_str());
                Ok(m)
            } else {
                let mut e = String::from_str("Failed to install model ");
                e.append(model.as_str());
                e.append(": ");
                e.append(stderr.as_str());
                proof {
                    assert(e@ =~= "Failed to install model "@ + model@ + ": "@ + stderr@);
                }
                Err(e)
            }
        },
    }
}

} // verus!
