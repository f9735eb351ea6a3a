//! Host-path resolution: maps the compilation unit's file name, as the host
//! reports it, to the sandboxed path the plugin host exposes under `/cwd`.

use vstd::prelude::*;
use crate::text::remove_all;
use crate::text::remove_all_str;
use crate::text::starts_with_str;

verus! {

/// The length of `s` never grows when occurrences of `pat` are removed, and
/// shrinks by at least `pat.len()` when `pat` prefixes `s`.
pub proof fn lemma_remove_all_len(s: Seq<char>, pat: Seq<char>)
    ensures
        remove_all(s, pat).len() <= s.len(),
        pat.len() > 0 && pat.is_prefix_of(s) ==> remove_all(s, pat).len() <= s.len() - pat.len(),
    decreases s.len(),
{
    if pat.len() == 0 || s.len() == 0 {
    } else if pat.is_prefix_of(s) {
        lemma_remove_all_len(s.skip(pat.len() as int), pat);
    } else {
        lemma_remove_all_len(s.drop_first(), pat);
    }
}

/// The sandbox path for a host file name: strip any `file://` scheme, then
/// either re-root a path under the working directory at `/cwd`, or place any
/// other name under `/cwd/`.
pub open spec fn resolved_path(filename: Seq<char>, cwd: Seq<char>) -> Seq<char>
    decreases filename.len(),
    via resolved_path_decreases
{
    if "file://"@.is_prefix_of(filename) {
        resolved_path(remove_all(filename, "file://"@), cwd)
    } else if cwd.is_prefix_of(filename) {
        "/cwd"@ + remove_all(filename, cwd)
    } else {
        "/cwd/"@ + filename
    }
}

#[via_fn]
proof fn resolved_path_decreases(filename: Seq<char>, cwd: Seq<char>) {
    reveal_strlit("file://");
    if "file://"@.is_prefix_of(filename) {
        lemma_remove_all_len(filename, "file://"@);
    }
}

/// Resolve a host file name to its path inside the plugin sandbox, whose root
/// `/cwd` mirrors the host working directory.
pub fn resolve_path_in_sandbox(filename: &String, cwd_str: &String) -> (r: String)
    ensures
        r@ == resolved_path(filename@, cwd_str@),
    decreases filename@.len(),
{
    if starts_with_str(filename.as_str(), "file://") {
        let abs_path_like = remove_all_str(filename.as_str(), "file://");
        proof {
            reveal_strlit("file://");
            lemma_remove_all_len(filename@, "file://"@);
        }
        return resolve_path_in_sandbox(&abs_path_like, cwd_str);
    }
    if starts_with_str(filename.as_str(), cwd_str.as_str()) {
        let relative_path_from_cwd = remove_all_str(filename.as_str(), cwd_str.as_str());
        let prefix = "/cwd".to_owned();
        return prefix.concat(relative_path_from_cwd.as_str());
    }
    let prefix = "/cwd/".to_owned();
    prefix.concat(filename.as_str())
}

} // verus!
