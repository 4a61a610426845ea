//! The compute of the authentication middleware: cutting the bearer token
//! out of an `Authorization` header. The header must carry the `Bearer `
//! scheme; what follows is the token, with surrounding whitespace removed.

use vstd::prelude::*;

use crate::text::{push_char, to_chars};

verus! {

/// The characters Rust's whitespace trimming removes: the Unicode
/// White_Space set.
pub open spec fn is_whitespace_char(c: char) -> bool {
    let u = c as u32;
    ||| u == 0x09
    ||| u == 0x0A
    ||| u == 0x0B
    ||| u == 0x0C
    ||| u == 0x0D
    ||| u == 0x20
    ||| u == 0x85
    ||| u == 0xA0
    ||| u == 0x1680
    ||| (0x2000 <= u && u <= 0x200A)
    ||| u == 0x2028
    ||| u == 0x2029
    ||| u == 0x202F
    ||| u == 0x205F
    ||| u == 0x3000
}

/// First index at or after `i` holding a non-whitespace character, or
/// `s.len()` when only whitespace remains.
pub open spec fn trim_start_index(s: Seq<char>, i: int) -> int
    decreases s.len() - i,
{
    if i < 0 || i >= s.len() {
        s.len() as int
    } else if is_whitespace_char(s[i]) {
        trim_start_index(s, i + 1)
    } else {
        i
    }
}

/// One past the last non-whitespace character strictly below `i`, or `0`
/// when only whitespace precedes.
pub open spec fn trim_end_index(s: Seq<char>, i: int) -> int
    decreases i,
{
    if i <= 0 {
        0
    } else if is_whitespace_char(s[i - 1]) {
        trim_end_index(s, i - 1)
    } else {
        i
    }
}

/// `s` with leading and trailing whitespace removed.
pub open spec fn spec_trim(s: Seq<char>) -> Seq<char> {
    let a = trim_start_index(s, 0);
    let b = trim_end_index(s, s.len() as int);
    if a < b {
        s.subrange(a, b)
    } else {
        Seq::empty()
    }
}

/// The token of a `Bearer` authorization header: everything after the
/// scheme, trimmed of surrounding whitespace. `None` when the header does
/// not open with `Bearer ` — the request then carries no usable token.
pub fn extract_bearer_token(header: &str) -> (r: Option<String>)
    ensures
        match r {
            Some(tok) => header@.len() >= 7 && header@.take(7) == "Bearer "@ && tok@ == spec_trim(
                header@.skip(7),
            ),
            None => !(header@.len() >= 7 && header@.take(7) == "Bearer "@),
        },
{
    let cs = to_chars(header);
    let prefix = to_chars("Bearer ");
    proof {
        reveal_strlit("Bearer ");
    }
    if cs.len() < 7 {
        return None;
    }
    let mut i: usize = 0;
    while i < 7
        invariant
            i <= 7,
            cs@.len() >= 7,
            prefix@ == "Bearer "@,
            prefix@.len() == 7,
            cs@ == header@,
            forall|j: int| 0 <= j < i ==> cs@[j] == prefix@[j],
        decreases 7 - i,
    {
        if cs[i] != prefix[i] {
            proof {
                assert(header@.take(7)[i as int] != "Bearer "@[i as int]);
            }
            return None;
        }
        i = i + 1;
    }
    proof {
        assert(header@.take(7) =~= "Bearer "@);
    }
    let rest_len = cs.len() - 7;
    let ghost rest = header@.skip(7);
    proof {
        assert(rest.len() == rest_len);
        assert(forall|j: int| 0 <= j < rest.len() ==> rest[j] == cs@[j + 7]);
    }
    // Scan the trimmed window of the remainder.
    let mut a: usize = 0;
    while a < rest_len && is_whitespace(cs[a + 7])
        invariant
            a <= rest_len,
            rest_len == rest.len(),
            rest_len + 7 <= usize::MAX,
            cs@.len() == rest.len() + 7,
            forall|j: int| 0 <= j < rest.len() ==> rest[j] == cs@[j + 7],
            trim_start_index(rest, 0) == trim_start_index(rest, a as int),
        decreases rest_len - a,
    {
        a = a + 1;
    }
    proof {
        assert(trim_start_index(rest, 0) == a as int);
    }
    let mut b: usize = rest_len;
    while b > 0 && is_whitespace(cs[b - 1 + 7])
        invariant
            b <= rest_len,
            rest_len == rest.len(),
            rest_len + 7 <= usize::MAX,
            cs@.len() == rest.len() + 7,
            forall|j: int| 0 <= j < rest.len() ==> rest[j] == cs@[j + 7],
            trim_end_index(rest, rest.len() as int) == trim_end_index(rest, b as int),
        decreases b,
    {
        b = b - 1;
    }
    proof {
        assert(trim_end_index(rest, rest.len() as int) == b as int);
    }
    let mut tok = String::new();
    if a < b {
        let mut k: usize = a;
        while k < b
            invariant
                a <= k <= b <= rest_len,
                rest_len == rest.len(),
                rest_len + 7 <= usize::MAX,
                cs@.len() == rest.len() + 7,
                forall|j: int| 0 <= j < rest.len() ==> rest[j] == cs@[j + 7],
                tok@ == rest.subrange(a as int, k as int),
            decreases b - k,
        {
            push_char(&mut tok, cs[k + 7]);
            proof {
                assert(rest.subrange(a as int, k + 1 as int) =~= rest.subrange(
                    a as int,
                    k as int,
                ).push(rest[k as int]));
            }
            k = k + 1;
        }
    }
    proof {
        assert(tok@ == spec_trim(rest));
    }
    Some(tok)
}

/// Is `c` in the Unicode White_Space set?
fn is_whitespace(c: char) -> (b: bool)
    ensures
        b == is_whitespace_char(c),
{
    let u = c as u32;
    u == 0x09 || u == 0x0A || u == 0x0B || u == 0x0C || u == 0x0D || u == 0x20 || u == 0x85 || u
        == 0xA0 || u == 0x1680 || (0x2000 <= u && u <= 0x200A) || u == 0x2028 || u == 0x2029 || u
        == 0x202F || u == 0x205F || u == 0x3000
}

} // verus!
