//! The placeholder translator: hand-written SQL in this project carries
//! ordinal placeholders (`$1`, `$2`, …), which Postgres and SQLite take as
//! they are. For MySQL every ordinal placeholder outside a single-quoted
//! literal is rewritten to a positional `?`; the digits are discarded, since
//! MySQL placeholders are strictly positional. A `'` toggles the literal
//! flag, and nothing inside a literal is ever rewritten.

use vstd::prelude::*;

use crate::dialect::DatabaseScheme;
use crate::text::{push_char, to_chars};

verus! {

/// Scanner state of the MySQL rewrite: between characters the scanner is
/// either in plain text, sitting on an unemitted `$`, or inside the digit
/// run of a placeholder it has already emitted `?` for.
#[derive(Clone, Copy, Debug, PartialEq, Eq, Structural)]
pub enum ScanState {
    Plain,
    Dollar,
    Ordinal,
}

/// An ASCII digit, the only characters that may follow `$` in an ordinal
/// placeholder.
pub open spec fn is_ascii_digit_char(c: char) -> bool {
    48 <= c as u32 && c as u32 <= 57
}

/// Termination rank: states that can reprocess the current character
/// (emitting a pending `$`, or closing a digit run) rank above `Plain`.
pub open spec fn scan_rank(st: ScanState) -> int {
    match st {
        ScanState::Plain => 0,
        ScanState::Dollar => 1,
        ScanState::Ordinal => 1,
    }
}

/// What the MySQL rewrite emits from position `i` to the end of `s`, given
/// the quote flag and the scanner state.
pub open spec fn mysql_rewrite_from(s: Seq<char>, i: int, in_quote: bool, st: ScanState) -> Seq<char>
    decreases s.len() - i, scan_rank(st),
{
    if i < 0 || i >= s.len() {
        if st == ScanState::Dollar {
            seq!['$']
        } else {
            Seq::empty()
        }
    } else {
        let c = s[i];
        match st {
            ScanState::Plain => {
                if c == '\'' {
                    seq!['\''] + mysql_rewrite_from(s, i + 1, !in_quote, ScanState::Plain)
                } else if c == '$' && !in_quote {
                    mysql_rewrite_from(s, i + 1, in_quote, ScanState::Dollar)
                } else {
                    seq![c] + mysql_rewrite_from(s, i + 1, in_quote, ScanState::Plain)
                }
            },
            ScanState::Dollar => {
                if is_ascii_digit_char(c) {
                    seq!['?'] + mysql_rewrite_from(s, i + 1, in_quote, ScanState::Ordinal)
                } else {
                    seq!['$'] + mysql_rewrite_from(s, i, in_quote, ScanState::Plain)
                }
            },
            ScanState::Ordinal => {
                if is_ascii_digit_char(c) {
                    mysql_rewrite_from(s, i + 1, in_quote, ScanState::Ordinal)
                } else {
                    mysql_rewrite_from(s, i, in_quote, ScanState::Plain)
                }
            },
        }
    }
}

/// The full MySQL rewrite of `s`.
pub open spec fn mysql_rewrite(s: Seq<char>) -> Seq<char> {
    mysql_rewrite_from(s, 0, false, ScanState::Plain)
}

/// What `rewrite` returns: the MySQL rewrite for MySQL, the input itself
/// for Postgres and SQLite, whose ordinal placeholders are native.
pub open spec fn spec_rewrite(scheme: DatabaseScheme, s: Seq<char>) -> Seq<char> {
    match scheme {
        DatabaseScheme::MYSQL => mysql_rewrite(s),
        _ => s,
    }
}

/// On the dialects whose placeholders are native the translation is the
/// identity: for every SQL string `s` and either of Postgres and SQLite,
/// `rewrite` hands `s` back unchanged.
pub proof fn lemma_rewrite_identity_non_mysql(scheme: DatabaseScheme, s: Seq<char>)
    requires
        scheme != DatabaseScheme::MYSQL,
    ensures
        spec_rewrite(scheme, s) == s,
{
}

proof fn lemma_no_dollar_from(s: Seq<char>, i: int, in_quote: bool)
    requires
        0 <= i <= s.len(),
        forall|j: int| i <= j < s.len() ==> s[j] != '$',
    ensures
        mysql_rewrite_from(s, i, in_quote, ScanState::Plain) == s.skip(i),
    decreases s.len() - i,
{
    if i < s.len() {
        let q2 = if s[i] == '\'' {
            !in_quote
        } else {
            in_quote
        };
        lemma_no_dollar_from(s, i + 1, q2);
        assert(seq![s[i]] + s.skip(i + 1) =~= s.skip(i));
    } else {
        assert(s.skip(i) =~= Seq::<char>::empty());
    }
}

/// A SQL string with no `$` at all passes through the MySQL rewrite
/// untouched, whatever quoting it contains.
pub proof fn lemma_rewrite_without_placeholders(s: Seq<char>)
    requires
        forall|i: int| 0 <= i < s.len() ==> s[i] != '$',
    ensures
        mysql_rewrite(s) == s,
{
    lemma_no_dollar_from(s, 0, false);
    assert(s.skip(0) =~= s);
}

fn is_sql_digit(c: char) -> (b: bool)
    ensures
        b == is_ascii_digit_char(c),
{
    let u = c as u32;
    48 <= u && u <= 57
}

/// Translate `query` for `scheme`: scan once, left to right, emitting `?`
/// for each ordinal placeholder when the dialect is MySQL, and copying the
/// input verbatim otherwise. Linear in the length of `query`.
pub fn rewrite(scheme: &DatabaseScheme, query: &str) -> (r: String)
    ensures
        r@ == spec_rewrite(*scheme, query@),
{
    match scheme {
        DatabaseScheme::MYSQL => {
            let cs = to_chars(query);
            let mut out = String::new();
            let mut in_quote: bool = false;
            let mut st: ScanState = ScanState::Plain;
            let mut i: usize = 0;
            while i < cs.len()
                invariant
                    i <= cs@.len(),
                    cs@ == query@,
                    out@ + mysql_rewrite_from(cs@, i as int, in_quote, st) == mysql_rewrite(cs@),
                decreases cs@.len() - i,
            {
                let c = cs[i];
                let ghost prev_out = out@;
                let ghost prev_quote = in_quote;
                let ghost prev_st = st;
                match st {
                    ScanState::Plain => {
                        if c == '\'' {
                            push_char(&mut out, '\'');
                            in_quote = !in_quote;
                        } else if c == '$' && !in_quote {
                            st = ScanState::Dollar;
                        } else {
                            push_char(&mut out, c);
                        }
                    },
                    ScanState::Dollar => {
                        if is_sql_digit(c) {
                            push_char(&mut out, '?');
                            st = ScanState::Ordinal;
                        } else {
                            push_char(&mut out, '$');
                            if c == '\'' {
                                push_char(&mut out, '\'');
                                in_quote = !in_quote;
                                st = ScanState::Plain;
                            } else if c == '$' && !in_quote {
                                st = ScanState::Dollar;
                            } else {
                                push_char(&mut out, c);
                                st = ScanState::Plain;
                            }
                        }
                    },
                    ScanState::Ordinal => {
                        if is_sql_digit(c) {
                        } else {
                            if c == '\'' {
                                push_char(&mut out, '\'');
                                in_quote = !in_quote;
                                st = ScanState::Plain;
                            } else if c == '$' && !in_quote {
                                st = ScanState::Dollar;
                            } else {
                                push_char(&mut out, c);
                                st = ScanState::Plain;
                            }
                        }
                    },
                }
                proof {
                    lemma_rewrite_loop_step(cs@, i as int, prev_quote, prev_st);
                    assert(out@ + mysql_rewrite_from(cs@, i + 1, in_quote, st)
                        =~= prev_out + mysql_rewrite_from(cs@, i as int, prev_quote, prev_st));
                }
                i = i + 1;
            }
            if let ScanState::Dollar = st {
                push_char(&mut out, '$');
            }
            proof {
                assert(out@ =~= mysql_rewrite(query@));
            }
            out
        },
        _ => query.to_owned(),
    }
}

/// One loop step of `rewrite` emits exactly what the one- or two-level
/// unfolding of `mysql_rewrite_from` at position `i` prescribes.
proof fn lemma_rewrite_loop_step(s: Seq<char>, i: int, in_quote: bool, st: ScanState)
    requires
        0 <= i < s.len(),
    ensures
        st == ScanState::Dollar && !is_ascii_digit_char(s[i]) ==> mysql_rewrite_from(
            s,
            i,
            in_quote,
            st,
        ) == seq!['$'] + mysql_rewrite_from(s, i, in_quote, ScanState::Plain),
        st == ScanState::Ordinal && !is_ascii_digit_char(s[i]) ==> mysql_rewrite_from(
            s,
            i,
            in_quote,
            st,
        ) == mysql_rewrite_from(s, i, in_quote, ScanState::Plain),
{
}

} // verus!
