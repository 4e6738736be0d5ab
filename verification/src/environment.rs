//! The environment inspector: the extension allow-list, directory
//! validation, host information, and the desktop-path rule. All pure local
//! computation; the surrounding binary supplies what it read from the
//! filesystem as plain values.

use vstd::prelude::*;
use vstd::string::StrSliceExecFns;
use vstd::string::StringExecFns;

use crate::strings::str_eq;
use crate::types::DirEntry;
use crate::types::DirectoryInfo;
use crate::types::SystemInfo;

verus! {

/// The fixed allow-list of code-file extensions.
pub open spec fn ext_list() -> Seq<Seq<char>> {
    seq![
        "py"@,
        "js"@,
        "ts"@,
        "jsx"@,
        "tsx"@,
        "java"@,
        "cpp"@,
        "c"@,
        "h"@,
        "hpp"@,
        "rs"@,
        "go"@,
        "php"@,
        "rb"@,
        "swift"@,
        "kt"@,
        "cs"@,
        "html"@,
        "css"@,
        "scss"@,
        "sass"@,
        "json"@,
        "xml"@,
        "yaml"@,
        "yml"@,
        "md"@,
        "txt"@,
        "lua"@,
        "luau"@,
        "r"@,
        "sql"@,
        "sh"@,
        "bash"@,
        "ps1"@,
        "vue"@,
        "svelte"@,
    ]
}

/// Membership in the allow-list.
pub open spec fn is_supported_ext(x: Seq<char>) -> bool {
    exists|i: int| 0 <= i < ext_list().len() && #[trigger] ext_list()[i] == x
}

/// The allow-list as values, in its fixed order.
pub fn supported_extensions() -> (r: Vec<String>)
    ensures
        r@.map_values(|s: String| s@) == ext_list(),
{
    let mut r: Vec<String> = Vec::new();
    r.push(String::from_str("py"));
    r.push(String::from_str("js"));
    r.push(String::from_str("ts"));
    r.push(String::from_str("jsx"));
    r.push(String::from_str("tsx"));
    r.push(String::from_str("java"));
    r.push(String::from_str("cpp"));
    r.push(String::from_str("c"));
    r.push(String::from_str("h"));
    r.push(String::from_str("hpp"));
    r.push(String::from_str("rs"));
    r.push(String::from_str("go"));
    r.push(String::from_str("php"));
    r.push(String::from_str("rb"));
    r.push(String::from_str("swift"));
    r.push(String::from_str("kt"));
    r.push(String::from_str("cs"));
    r.push(String::from_str("html"));
    r.push(String::from_str("css"));
    r.push(String::from_str("scss"));
    r.push(String::from_str("sass"));
    r.push(String::from_str("json"));
    r.push(String::from_str("xml"));
    r.push(String::from_str("yaml"));
    r.push(String::from_str("yml"));
    r.push(String::from_str("md"));
    r.push(String::from_str("txt"));
    r.push(String::from_str("lua"));
    r.push(String::from_str("luau"));
    r.push(String::from_str("r"));
    r.push(String::from_str("sql"));
    r.push(String::from_str("sh"));
    r.push(String::from_str("bash"));
    r.push(String::from_str("ps1"));
    r.push(String::from_str("vue"));
    r.push(String::from_str("svelte"));
    proof {
        assert(r@.map_values(|s: String| s@) =~= ext_list());
    }
    r
}

/// Whether one extension is on the allow-list.
pub fn ext_supported(x: &str) -> (r: bool)
    ensures
        r == is_supported_ext(x@),
{
    let exts = supported_extensions();
    let mut i: usize = 0;
    while i < exts.len()
        invariant
            exts@.map_values(|s: String| s@) == ext_list(),
            exts@.len() == ext_list().len(),
            0 <= i <= exts@.len(),
            forall|j: int| 0 <= j < i ==> #[trigger] ext_list()[j] != x@,
        decreases exts@.len() - i,
    {
        if str_eq(exts[i].as_str(), x) {
            proof {
                assert(ext_list()[i as int] == x@);
            }
            return true;
        }
        proof {
            assert(ext_list()[i as int] == exts@.map_values(|s: String| s@)[i as int]);
        }
        i += 1;
    }
    false
}

/// An entry that counts as a code file: a file whose extension is on the
/// allow-list.
pub open spec fn entry_is_code(en: DirEntry) -> bool {
    en.is_file && (en.extension matches Some(e) && is_supported_ext(e@))
}

/// How many entries are files.
pub open spec fn count_files(s: Seq<DirEntry>) -> int
    decreases s.len(),
{
    if s.len() == 0 {
        0
    } else {
        count_files(s.drop_last()) + if s.last().is_file {
            1int
        } else {
            0int
        }
    }
}

/// How many entries are code files.
pub open spec fn count_code_files(s: Seq<DirEntry>) -> int
    decreases s.len(),
{
    if s.len() == 0 {
        0
    } else {
        count_code_files(s.drop_last()) + if entry_is_code(s.last()) {
            1int
        } else {
            0int
        }
    }
}

/// An empty directory holds no files and no code files, so its verdict is
/// never valid.
pub proof fn lemma_empty_directory_counts(s: Seq<DirEntry>)
    requires
        s.len() == 0,
    ensures
        count_files(s) == 0,
        count_code_files(s) == 0,
{
}

/// A directory's code files are among its files: `codeFiles` never exceeds
/// `totalFiles`.
pub proof fn lemma_code_files_le_files(s: Seq<DirEntry>)
    ensures
        0 <= count_code_files(s) <= count_files(s) <= s.len(),
    decreases s.len(),
{
    if s.len() > 0 {
        lemma_code_files_le_files(s.drop_last());
    }
}

/// Some entry is a code file with this allow-listed extension.
pub open spec fn seen_ext(s: Seq<DirEntry>, x: Seq<char>) -> bool {
    exists|i: int| 0 <= i < s.len() && entry_is_code(#[trigger] s[i]) && s[i].extension->0@ == x
}

/// The recorded extension set is exactly the distinct allow-listed
/// extensions of the code files among the entries.
pub open spec fn ext_set_ok(entries: Seq<DirEntry>, exts: Seq<String>) -> bool {
    &&& forall|j: int| 0 <= j < exts.len() ==> seen_ext(entries, #[trigger] exts[j]@)
    &&& forall|x: Seq<char>|
        seen_ext(entries, x) ==> exists|j: int| 0 <= j < exts.len() && #[trigger] exts[j]@ == x
    &&& forall|j: int, k: int|
        0 <= j < k < exts.len() ==> #[trigger] exts[j]@ != #[trigger] exts[k]@
}

fn vec_contains_str(v: &Vec<String>, x: &str) -> (r: bool)
    ensures
        r == exists|i: int| 0 <= i < v@.len() && #[trigger] v@[i]@ == x@,
{
    let mut i: usize = 0;
    while i < v.len()
        invariant
            0 <= i <= v@.len(),
            forall|j: int| 0 <= j < i ==> #[trigger] v@[j]@ != x@,
        decreases v@.len() - i,
    {
        if str_eq(v[i].as_str(), x) {
            return true;
        }
        i += 1;
    }
    false
}

/// Extending the entry sequence by one either keeps the seen-extension set
/// or adds the new entry's extension.
proof fn lemma_seen_step(prefix: Seq<DirEntry>, en: DirEntry, x: Seq<char>)
    ensures
        seen_ext(prefix.push(en), x) == (seen_ext(prefix, x) || (entry_is_code(en)
            && en.extension->0@ == x)),
{
    let s1 = prefix.push(en);
    if seen_ext(s1, x) {
        let w = choose|w: int|
            0 <= w < s1.len() && entry_is_code(#[trigger] s1[w]) && s1[w].extension->0@ == x;
        if w < prefix.len() {
            assert(prefix[w] == s1[w]);
            assert(seen_ext(prefix, x));
        } else {
            assert(s1[w] == en);
        }
    }
    if seen_ext(prefix, x) {
        let w = choose|w: int|
            0 <= w < prefix.len() && entry_is_code(#[trigger] prefix[w]) && prefix[w].extension->0@
                == x;
        assert(s1[w] == prefix[w]);
        assert(entry_is_code(s1[w]) && s1[w].extension->0@ == x);
        assert(seen_ext(s1, x));
    }
    if entry_is_code(en) && en.extension->0@ == x {
        assert(s1[prefix.len() as int] == en);
        assert(entry_is_code(s1[prefix.len() as int]));
        assert(seen_ext(s1, x));
    }
}

/// Validates a directory handed in for analysis. A path that does not
/// exist, or that is not a directory, is rejected; otherwise the immediate
/// entries are counted: every file, every code file (extension on the
/// allow-list), the distinct allow-listed extensions found, and a verdict
/// `is_valid` that holds exactly when at least one code file was found.
pub fn validate_directory_entries(path: String, exists: bool, is_dir: bool, entries: &Vec<DirEntry>)
    -> (r: Result<DirectoryInfo, String>)
    requires
        entries@.len() <= i32::MAX,
    ensures
        !exists ==> (r matches Err(e) && e@ == "Directory does not exist"@),
        exists && !is_dir ==> (r matches Err(e) && e@ == "Path is not a directory"@),
        exists && is_dir ==> r is Ok,
        r matches Ok(d) ==> {
            &&& d.path == path
            &&& d.total_files as int == count_files(entries@)
            &&& d.code_files as int == count_code_files(entries@)
            &&& 0 <= d.code_files <= d.total_files
            &&& d.is_valid <==> d.code_files > 0
            &&& ext_set_ok(entries@, d.supported_extensions@)
        },
{
    if !exists {
        return Err(String::from_str("Directory does not exist"));
    }
    if !is_dir {
        return Err(String::from_str("Path is not a directory"));
    }
    let n = entries.len();
    let mut total: i32 = 0;
    let mut code: i32 = 0;
    let mut exts: Vec<String> = Vec::new();
    let mut i: usize = 0;
    while i < n
        invariant
            n == entries@.len() <= i32::MAX,
            0 <= i <= n,
            total as int == count_files(entries@.subrange(0, i as int)),
            code as int == count_code_files(entries@.subrange(0, i as int)),
            0 <= code <= total <= i,
            ext_set_ok(entries@.subrange(0, i as int), exts@),
        decreases n - i,
    {
        let ghost prefix = entries@.subrange(0, i as int);
        let ghost prefix1 = entries@.subrange(0, i + 1);
        let ghost en_g = entries@[i as int];
        proof {
            assert(prefix1.drop_last() =~= prefix);
            assert(prefix1 =~= prefix.push(en_g));
            assert(prefix1.last() == en_g);
        }
        let en = &entries[i];
        let ghost old_exts = exts@;
        if en.is_file {
            total += 1;
            match &en.extension {
                Some(ext) => {
                    if ext_supported(ext.as_str()) {
                        code += 1;
                        if !vec_contains_str(&exts, ext.as_str()) {
                            exts.push(ext.clone());
                            proof {
                                assert(exts@[old_exts.len() as int]@ == ext@);
                            }
                        }
                        proof {
                            assert(en_g.extension->0 == *ext);
                            assert(entry_is_code(en_g));
                            assert(exists|j: int|
                                0 <= j < exts@.len() && #[trigger] exts@[j]@ == en_g.extension->0@);
                        }
                    } else {
                        proof {
                            assert(!entry_is_code(en_g));
                        }
                    }
                },
                None => {
                    proof {
                        assert(!entry_is_code(en_g));
                    }
                },
            }
        } else {
            proof {
                assert(!entry_is_code(en_g));
            }
        }
        proof {
            assert forall|x: Seq<char>| #[trigger] seen_ext(prefix1, x) == (seen_ext(prefix, x)
                || (entry_is_code(en_g) && en_g.extension->0@ == x)) by {
                lemma_seen_step(prefix, en_g, x);
            }
            assert forall|j: int| 0 <= j < exts@.len() implies seen_ext(
                prefix1,
                #[trigger] exts@[j]@,
            ) by {
                if j < old_exts.len() {
                    assert(exts@[j] == old_exts[j]);
                    assert(seen_ext(prefix, exts@[j]@));
                } else {
                    assert(exts@[j]@ == en_g.extension->0@ && entry_is_code(en_g));
                }
            }
            assert forall|x: Seq<char>| seen_ext(prefix1, x) implies exists|j: int|
                0 <= j < exts@.len() && #[trigger] exts@[j]@ == x by {
                if seen_ext(prefix, x) {
                    let j0 = choose|j0: int| 0 <= j0 < old_exts.len() && #[trigger] old_exts[j0]@
                        == x;
                    assert(exts@[j0]@ == x);
                }
            }
            assert forall|j: int, k: int| 0 <= j < k < exts@.len() implies #[trigger] exts@[j]@
                != #[trigger] exts@[k]@ by {
                if k < old_exts.len() {
                    assert(exts@[j] == old_exts[j] && exts@[k] == old_exts[k]);
                }
            }
            assert(ext_set_ok(prefix1, exts@));
        }
        i += 1;
        proof {
            assert(entries@.subrange(0, i as int) =~= prefix1);
        }
    }
    proof {
        assert(entries@.subrange(0, i as int) =~= entries@);
        assert(ext_set_ok(entries@, exts@));
    }
    Ok(
        DirectoryInfo {
            path,
            total_files: total,
            code_files: code,
            supported_extensions: exts,
            is_valid: code > 0,
        },
    )
}

/// The fixed human-readable list of supported languages; maintained by hand
/// beside the extension allow-list, not derived from it.
pub open spec fn language_list() -> Seq<Seq<char>> {
    seq![
        "Python"@,
        "JavaScript"@,
        "TypeScript"@,
        "Java"@,
        "C++"@,
        "C"@,
        "Rust"@,
        "Go"@,
        "PHP"@,
        "Ruby"@,
        "Lua"@,
        "HTML"@,
        "CSS"@,
    ]
}

/// The host report: the platform values handed in, and the fixed language
/// list.
pub fn system_info(os: String, arch: String) -> (r: SystemInfo)
    ensures
        r.os == os,
        r.arch == arch,
        r.supported_languages@.map_values(|s: String| s@) == language_list(),
{
    let mut langs: Vec<String> = Vec::new();
    langs.push(String::from_str("Python"));
    langs.push(String::from_str("JavaScript"));
    langs.push(String::from_str("TypeScript"));
    langs.push(String::from_str("Java"));
    langs.push(String::from_str("C++"));
    langs.push(String::from_str("C"));
    langs.push(String::from_str("Rust"));
    langs.push(String::from_str("Go"));
    langs.push(String::from_str("PHP"));
    langs.push(String::from_str("Ruby"));
    langs.push(String::from_str("Lua"));
    langs.push(String::from_str("HTML"));
    langs.push(String::from_str("CSS"));
    proof {
        assert(langs@.map_values(|s: String| s@) =~= language_list());
    }
    SystemInfo { os, arch, supported_languages: langs }
}

/// The desktop path is the home directory plus the fixed `Desktop` leaf;
/// with no home directory the lookup fails.
pub fn desktop_path(home: Option<String>) -> (r: Result<String, String>)
    ensures
        home matches Some(h) ==> (r matches Ok(p) && p@ == h@ + "/Desktop"@),
        home is None ==> (r matches Err(e) && e@ == "Could not find home directory"@),
{
    match home {
        Some(h) => Ok(h.concat("/Desktop")),
        None => Err(String::from_str("Could not find home directory")),
    }
}

} // verus!
