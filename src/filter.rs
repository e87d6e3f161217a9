//! Deciding whether a changed path is ignored.
//!
//! A rule is either a regular expression written between two `/` characters
//! or a shell glob. Each rule is tried against the path itself and against
//! each of its ancestor directories, so that a rule naming a directory
//! ignores everything below it. A directory is also tried with a trailing
//! `/` against a rule that ends in `/`, so that `build/` names the directory
//! `build`. Malformed rules match
//! nothing.

use vstd::prelude::*;
use crate::text::same_text;

verus! {

/// Whether glob compiles the shell pattern `p`.
pub uninterp spec fn glob_compiles(p: Seq<char>) -> bool;

/// Whether the compiled shell pattern `p` matches all of `t` (default options).
pub uninterp spec fn glob_accepts(p: Seq<char>, t: Seq<char>) -> bool;

/// Whether the regex crate compiles the expression `e`.
pub uninterp spec fn regex_compiles(e: Seq<char>) -> bool;

/// Whether the compiled expression `e` matches somewhere in `t`.
pub uninterp spec fn regex_finds(e: Seq<char>, t: Seq<char>) -> bool;

/// The parent of a path as std's `Path::parent` gives it.
pub uninterp spec fn parent_of(p: Seq<char>) -> Option<Seq<char>>;

/// The final component of a path as std's `Path::file_name` gives it.
pub uninterp spec fn file_name_of(p: Seq<char>) -> Option<Seq<char>>;

/// Relies on `glob::Pattern::new`, for whether `pattern` compiles, and on
/// `glob::Pattern::matches`, for whether the compiled pattern matches `text`.
#[verifier::external_body]
fn glob_match(pattern: &str, text: &str) -> (r: Option<bool>)
    ensures
        r is Some == glob_compiles(pattern@),
        r matches Some(b) ==> b == glob_accepts(pattern@, text@),
{
    match glob::Pattern::new(pattern) {
        Ok(g) => Some(g.matches(text)),
        Err(_) => None,
    }
}

/// Relies on `regex::Regex::new`, for whether `expr` compiles, and on
/// `regex::Regex::is_match`, for whether it matches somewhere in `text`.
#[verifier::external_body]
fn regex_match(expr: &str, text: &str) -> (r: Option<bool>)
    ensures
        r is Some == regex_compiles(expr@),
        r matches Some(b) ==> b == regex_finds(expr@, text@),
{
    match regex::Regex::new(expr) {
        Ok(re) => Some(re.is_match(text)),
        Err(_) => None,
    }
}

/// Relies on `std::path::Path::parent`: the path without its final component.
#[verifier::external_body]
fn path_parent(path: &str) -> (r: Option<String>)
    ensures
        match r {
            Some(q) => parent_of(path@) == Some(q@),
            None => parent_of(path@) is None,
        },
{
    match std::path::Path::new(path).parent() {
        Some(p) => Some(p.to_string_lossy().into_owned()),
        None => None,
    }
}

/// Relies on `std::path::Path::file_name`: the final component of the path.
#[verifier::external_body]
fn path_file_name(path: &str) -> (r: Option<String>)
    ensures
        match r {
            Some(f) => file_name_of(path@) == Some(f@),
            None => file_name_of(path@) is None,
        },
{
    match std::path::Path::new(path).file_name() {
        Some(f) => Some(f.to_string_lossy().into_owned()),
        None => None,
    }
}

/// The ancestor directories of `p`, nearest first, up to (not including) an
/// empty parent.
pub open spec fn ancestors(p: Seq<char>) -> Seq<Seq<char>>
    decreases p.len(),
{
    match parent_of(p) {
        Some(q) => if 0 < q.len() < p.len() {
            seq![q] + ancestors(q)
        } else {
            seq![]
        },
        None => seq![],
    }
}

/// A rule written between two `/` characters is a regular expression.
pub open spec fn is_regex_rule(rule: Seq<char>) -> bool {
    rule.len() > 2 && rule[0] == '/' && rule.last() == '/'
}

/// The expression inside a regular-expression rule.
pub open spec fn regex_body(rule: Seq<char>) -> Seq<char> {
    rule.subrange(1, rule.len() - 1)
}

/// Whether `rule` matches the text `t`; a malformed rule matches nothing.
pub open spec fn rule_matches(rule: Seq<char>, t: Seq<char>) -> bool {
    if is_regex_rule(rule) {
        regex_compiles(regex_body(rule)) && regex_finds(regex_body(rule), t)
    } else {
        glob_compiles(rule) && glob_accepts(rule, t)
    }
}

/// Whether `rule` matches a path; for a rule that ends in `/`, a directory
/// is also tried with a trailing `/`.
pub open spec fn rule_hits(rule: Seq<char>, p: Seq<char>, is_dir: bool) -> bool {
    ||| rule_matches(rule, p)
    ||| (is_dir && rule.len() > 0 && rule.last() == '/' && rule_matches(rule, p.push('/')))
}

/// Whether some rule of `rules` hits the path `p`.
pub open spec fn any_rule_hits(rules: Seq<Seq<char>>, p: Seq<char>, is_dir: bool) -> bool {
    exists|i: int| 0 <= i < rules.len() && rule_hits(#[trigger] rules[i], p, is_dir)
}

/// A backup file: its final component ends with `~`.
pub open spec fn is_backup(p: Seq<char>) -> bool {
    match file_name_of(p) {
        Some(f) => f.len() > 0 && f.last() == '~',
        None => false,
    }
}

/// Whether the path `p` is ignored under `rules`.
pub open spec fn ignored(p: Seq<char>, is_dir: bool, rules: Seq<Seq<char>>) -> bool {
    ||| is_backup(p)
    ||| any_rule_hits(rules, p, is_dir)
    ||| exists|k: int| 0 <= k < ancestors(p).len() && any_rule_hits(rules, #[trigger] ancestors(p)[k], true)
}

/// The configured rules as text; no configured rules means none.
pub open spec fn rule_list(patterns: Option<Vec<String>>) -> Seq<Seq<char>> {
    match patterns {
        Some(v) => v@.map_values(|s: String| s@),
        None => seq![],
    }
}

/// Whether `rule` matches the text `t`.
fn matches_rule(rule: &str, t: &str) -> (r: bool)
    ensures
        r == rule_matches(rule@, t@),
{
    let n = rule.unicode_len();
    if n > 2 && rule.get_char(0) == '/' && rule.get_char(n - 1) == '/' {
        let body = rule.substring_char(1, n - 1);
        match regex_match(body, t) {
            Some(b) => b,
            None => false,
        }
    } else {
        match glob_match(rule, t) {
            Some(b) => b,
            None => false,
        }
    }
}

/// Whether `rule` matches the path `p`, trying a directory with a trailing
/// `/` too when the rule ends in `/`.
fn hits_rule(rule: &str, p: &str, is_dir: bool) -> (r: bool)
    ensures
        r == rule_hits(rule@, p@, is_dir),
{
    if matches_rule(rule, p) {
        return true;
    }
    if !is_dir {
        return false;
    }
    let n = rule.unicode_len();
    if n == 0 || rule.get_char(n - 1) != '/' {
        return false;
    }
    let slashed = p.to_owned().concat("/");
    proof {
        reveal_strlit("/");
        assert(slashed@ =~= p@.push('/'));
    }
    matches_rule(rule, slashed.as_str())
}

/// Whether some rule of `rules` hits the path `p`.
fn hits_any(rules: &Vec<String>, p: &str, is_dir: bool) -> (r: bool)
    ensures
        r == any_rule_hits(rules@.map_values(|s: String| s@), p@, is_dir),
{
    let ghost rs = rules@.map_values(|s: String| s@);
    let mut i: usize = 0;
    while i < rules.len()
        invariant
            rs == rules@.map_values(|s: String| s@),
            i <= rules.len(),
            forall|j: int| 0 <= j < i ==> !rule_hits(#[trigger] rs[j], p@, is_dir),
        decreases rules.len() - i,
    {
        if hits_rule(rules[i].as_str(), p, is_dir) {
            assert(rule_hits(rs[i as int], p@, is_dir));
            return true;
        }
        i = i + 1;
    }
    false
}

/// Whether the final component of `path` ends with `~`.
fn is_backup_file(path: &str) -> (r: bool)
    ensures
        r == is_backup(path@),
{
    match path_file_name(path) {
        Some(f) => {
            let n = f.as_str().unicode_len();
            n > 0 && f.as_str().get_char(n - 1) == '~'
        },
        None => false,
    }
}

/// Whether a changed path is ignored: a backup file, or a path that a rule
/// hits, itself or through one of its ancestor directories. `is_dir` says
/// whether the path names a directory.
pub fn should_ignore(path: &str, is_dir: bool, ignore_patterns: &Option<Vec<String>>) -> (r: bool)
    ensures
        r == ignored(path@, is_dir, rule_list(*ignore_patterns)),
{
    if is_backup_file(path) {
        return true;
    }
    let rules = match ignore_patterns {
        Some(v) => v,
        None => {
            proof {
                assert(rule_list(*ignore_patterns) =~= seq![]);
                assert(forall|k: int| 0 <= k < ancestors(path@).len() ==> !any_rule_hits(seq![], #[trigger] ancestors(path@)[k], true));
            }
            return false;
        },
    };
    let ghost rs = rule_list(*ignore_patterns);
    if hits_any(rules, path, is_dir) {
        return true;
    }
    let mut current: String = path.to_owned();
    let ghost seen: Seq<Seq<char>> = seq![];
    loop
        invariant
            rs == rules@.map_values(|s: String| s@),
            rs == rule_list(*ignore_patterns),
            !is_backup(path@),
            !any_rule_hits(rs, path@, is_dir),
            ancestors(path@) == seen + ancestors(current@),
            forall|k: int| 0 <= k < seen.len() ==> !any_rule_hits(rs, #[trigger] seen[k], true),
        decreases current@.len(),
    {
        let parent = match path_parent(current.as_str()) {
            Some(q) => q,
            None => {
                assert(ancestors(current@) =~= seq![]);
                assert(seen =~= ancestors(path@));
                return false;
            },
        };
        let plen = parent.as_str().unicode_len();
        if plen == 0 || plen >= current.as_str().unicode_len() {
            assert(ancestors(current@) =~= seq![]);
            assert(seen =~= ancestors(path@));
            return false;
        }
        if hits_any(rules, parent.as_str(), true) {
            assert(ancestors(current@) == seq![parent@] + ancestors(parent@));
            assert(ancestors(path@)[seen.len() as int] == parent@);
            assert(any_rule_hits(rs, ancestors(path@)[seen.len() as int], true));
            return true;
        }
        proof {
            assert(ancestors(current@) == seq![parent@] + ancestors(parent@));
            seen = seen.push(parent@);
            assert(seen.push(parent@) + ancestors(parent@) =~= seen + (seq![parent@] + ancestors(parent@)));
        }
        current = parent;
    }
}

/// A path lies in an ignored region whenever one of its ancestor directories
/// matches one of the rules: the path is then ignored, whatever it is.
pub proof fn lemma_ignored_below_matching_ancestor(
    p: Seq<char>,
    is_dir: bool,
    rules: Seq<Seq<char>>,
    k: int,
    i: int,
)
    requires
        0 <= k < ancestors(p).len(),
        0 <= i < rules.len(),
        rule_matches(rules[i], ancestors(p)[k]),
    ensures
        ignored(p, is_dir, rules),
{
    assert(rule_hits(rules[i], ancestors(p)[k], true));
    assert(any_rule_hits(rules, ancestors(p)[k], true));
}

} // verus!
