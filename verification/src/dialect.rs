//! The dialect model: a closed tag for the supported SQL backends, and the
//! classification of a connection URI into one of them.
//!
//! Classification inspects the URI's scheme token (the characters before the
//! first `:`): `postgres` and `mysql` select their backends, anything else —
//! including plain file paths — falls back to SQLite.

use vstd::prelude::*;

use crate::text::to_chars;

verus! {

/// The SQL backends the bootstrap understands. Everything downstream
/// branches on this tag: placeholder syntax, database-creation statement
/// form, and the SQL feature subset implicitly available.
#[derive(Clone, Copy, Debug, PartialEq, Eq, Structural)]
pub enum DatabaseScheme {
    POSTGRES,
    SQLITE,
    MYSQL,
}

/// `c` matches the lower-case ASCII letter `l`, in either case.
pub open spec fn char_matches_ci(c: char, l: char) -> bool {
    c == l || c as u32 + 32 == l as u32
}

/// `s` spells the ASCII keyword `kw` (given in lower case), ignoring case.
pub open spec fn matches_keyword_ci(s: Seq<char>, kw: Seq<char>) -> bool {
    s.len() == kw.len() && forall|i: int| 0 <= i < s.len() ==> char_matches_ci(s[i], kw[i])
}

/// Index of the first `:` at or after `i`, or `s.len()` when there is none.
pub open spec fn first_colon_from(s: Seq<char>, i: int) -> int
    decreases s.len() - i,
{
    if i < 0 || i >= s.len() {
        s.len() as int
    } else if s[i] == ':' {
        i
    } else {
        first_colon_from(s, i + 1)
    }
}

/// The URI's scheme token: everything before the first `:` (the whole
/// string when it has no `:`).
pub open spec fn scheme_token(s: Seq<char>) -> Seq<char> {
    s.take(first_colon_from(s, 0))
}

/// Which backend a connection URI selects: by its scheme token, with
/// SQLite as the catch-all for unrecognized schemes and file paths.
pub open spec fn spec_classify(s: Seq<char>) -> DatabaseScheme {
    if matches_keyword_ci(scheme_token(s), "postgres"@) {
        DatabaseScheme::POSTGRES
    } else if matches_keyword_ci(scheme_token(s), "mysql"@) {
        DatabaseScheme::MYSQL
    } else {
        DatabaseScheme::SQLITE
    }
}

proof fn lemma_first_colon_from_found(s: Seq<char>, k: int, e: int)
    requires
        0 <= k <= e <= s.len(),
        forall|j: int| k <= j < e ==> s[j] != ':',
        e == s.len() || s[e] == ':',
    ensures
        first_colon_from(s, k) == e,
    decreases e - k,
{
    if k < e {
        lemma_first_colon_from_found(s, k + 1, e);
    }
}

/// Index of the first `:` in `cs`, or `cs.len()` when there is none.
fn first_colon(cs: &Vec<char>) -> (r: usize)
    ensures
        r as int == first_colon_from(cs@, 0),
{
    let mut i: usize = 0;
    while i < cs.len()
        invariant
            i <= cs.len(),
            forall|j: int| 0 <= j < i ==> cs@[j] != ':',
        decreases cs.len() - i,
    {
        if cs[i] == ':' {
            proof {
                lemma_first_colon_from_found(cs@, 0, i as int);
            }
            return i;
        }
        i = i + 1;
    }
    proof {
        lemma_first_colon_from_found(cs@, 0, cs@.len() as int);
    }
    cs.len()
}

/// Does `cs[0..end]` spell the lower-case ASCII keyword `kw`, ignoring case?
fn prefix_matches_ci(cs: &Vec<char>, end: usize, kw: &str) -> (r: bool)
    requires
        end <= cs@.len(),
    ensures
        r == matches_keyword_ci(cs@.take(end as int), kw@),
{
    let kw_chars = to_chars(kw);
    if end != kw_chars.len() {
        return false;
    }
    let mut i: usize = 0;
    while i < end
        invariant
            i <= end,
            end <= cs@.len(),
            end == kw_chars.len(),
            kw_chars@ == kw@,
            forall|j: int| 0 <= j < i ==> char_matches_ci(cs@[j], kw@[j]),
        decreases end - i,
    {
        let c = cs[i];
        let l = kw_chars[i];
        if !(c == l || (l as u32 >= 32 && c as u32 == l as u32 - 32)) {
            proof {
                assert(!char_matches_ci(cs@.take(end as int)[i as int], kw@[i as int]));
            }
            return false;
        }
        i = i + 1;
    }
    proof {
        assert(forall|j: int| 0 <= j < end ==> cs@.take(end as int)[j] == cs@[j]);
    }
    true
}

/// Classify a connection URI by its scheme token. Unrecognized schemes and
/// schemeless strings (such as file paths) mean SQLite, by design: the
/// fallback is silent, mirroring the configured behaviour, not an error.
pub fn classify(url: &str) -> (scheme: DatabaseScheme)
    ensures
        scheme == spec_classify(url@),
{
    let cs = to_chars(url);
    let end = first_colon(&cs);
    proof {
        lemma_first_colon_bounds(cs@, 0);
    }
    if prefix_matches_ci(&cs, end, "postgres") {
        DatabaseScheme::POSTGRES
    } else if prefix_matches_ci(&cs, end, "mysql") {
        DatabaseScheme::MYSQL
    } else {
        DatabaseScheme::SQLITE
    }
}

proof fn lemma_first_colon_bounds(s: Seq<char>, i: int)
    requires
        0 <= i <= s.len(),
    ensures
        i <= first_colon_from(s, i) <= s.len(),
    decreases s.len() - i,
{
    if i < s.len() && s[i] != ':' {
        lemma_first_colon_bounds(s, i + 1);
    }
}

} // verus!
