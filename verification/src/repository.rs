//! The SQL the user store binds at runtime. The statements are written
//! with ordinal placeholders and run through the placeholder translator by
//! their callers; the one statement built dynamically — the user update —
//! is assembled here from the fields that change.

use vstd::prelude::*;

use crate::numeric::{i32_to_decimal, spec_i32_decimal};
use crate::payload::UserUpdateDao;

verus! {

/// The binding list of an update: the changed fields in column order,
/// then the row identifier, rendered in decimal.
pub open spec fn spec_update_bindings(d: UserUpdateDao) -> Seq<Seq<char>> {
    (match d.username {
        Some(u) => seq![u@],
        None => Seq::empty(),
    }) + (match d.email {
        Some(e) => seq![e@],
        None => Seq::empty(),
    }) + (match d.password {
        Some(p) => seq![p@],
        None => Seq::empty(),
    }) + seq![spec_i32_decimal(d.id as int)]
}

/// The update statement for each combination of changed fields: ordinal
/// placeholders number the changed columns from `$1`; the identifier's
/// placeholder is numbered one past the binding list, as the store has
/// always emitted it. `None` when nothing changes.
pub open spec fn spec_update_statement(d: UserUpdateDao) -> Option<Seq<char>> {
    match (d.username, d.email, d.password) {
        (Some(_), None, None) => Some("UPDATE users SET username = $1 WHERE id = $3"@),
        (None, Some(_), None) => Some("UPDATE users SET email = $1 WHERE id = $3"@),
        (None, None, Some(_)) => Some("UPDATE users SET password = $1 WHERE id = $3"@),
        (Some(_), Some(_), None) => Some(
            "UPDATE users SET username = $1, email = $2 WHERE id = $4"@,
        ),
        (Some(_), None, Some(_)) => Some(
            "UPDATE users SET username = $1, password = $2 WHERE id = $4"@,
        ),
        (None, Some(_), Some(_)) => Some(
            "UPDATE users SET email = $1, password = $2 WHERE id = $4"@,
        ),
        (Some(_), Some(_), Some(_)) => Some(
            "UPDATE users SET username = $1, email = $2, password = $3 WHERE id = $5"@,
        ),
        (None, None, None) => None,
    }
}

/// Assemble the update for `data` — whose password, if present, the caller
/// has already hashed: the statement over the changed columns, and the
/// values to bind, ending with the row identifier. `None` when no field
/// changes, which the store reports as a failed update.
pub fn build_update_statement(data: UserUpdateDao) -> (r: Option<(String, Vec<String>)>)
    ensures
        match r {
            Some(sb) => {
                &&& spec_update_statement(data) matches Some(stmt) && sb.0@ == stmt
                &&& sb.1.deep_view() == spec_update_bindings(data)
            },
            None => spec_update_statement(data) is None,
        },
{
    let UserUpdateDao { id, username, email, password } = data;
    let id_str = i32_to_decimal(id);
    match (username, email, password) {
        (Some(u), None, None) => {
            let mut b: Vec<String> = Vec::new();
            b.push(u);
            b.push(id_str);
            proof {
                assert(b.deep_view() =~= spec_update_bindings(data));
            }
            Some(("UPDATE users SET username = $1 WHERE id = $3".to_owned(), b))
        },
        (None, Some(e), None) => {
            let mut b: Vec<String> = Vec::new();
            b.push(e);
            b.push(id_str);
            proof {
                assert(b.deep_view() =~= spec_update_bindings(data));
            }
            Some(("UPDATE users SET email = $1 WHERE id = $3".to_owned(), b))
        },
        (None, None, Some(p)) => {
            let mut b: Vec<String> = Vec::new();
            b.push(p);
            b.push(id_str);
            proof {
                assert(b.deep_view() =~= spec_update_bindings(data));
            }
            Some(("UPDATE users SET password = $1 WHERE id = $3".to_owned(), b))
        },
        (Some(u), Some(e), None) => {
            let mut b: Vec<String> = Vec::new();
            b.push(u);
            b.push(e);
            b.push(id_str);
            proof {
                assert(b.deep_view() =~= spec_update_bindings(data));
            }
            Some(("UPDATE users SET username = $1, email = $2 WHERE id = $4".to_owned(), b))
        },
        (Some(u), None, Some(p)) => {
            let mut b: Vec<String> = Vec::new();
            b.push(u);
            b.push(p);
            b.push(id_str);
            proof {
                assert(b.deep_view() =~= spec_update_bindings(data));
            }
            Some(("UPDATE users SET username = $1, password = $2 WHERE id = $4".to_owned(), b))
        },
        (None, Some(e), Some(p)) => {
            let mut b: Vec<String> = Vec::new();
            b.push(e);
            b.push(p);
            b.push(id_str);
            proof {
                assert(b.deep_view() =~= spec_update_bindings(data));
            }
            Some(("UPDATE users SET email = $1, password = $2 WHERE id = $4".to_owned(), b))
        },
        (Some(u), Some(e), Some(p)) => {
            let mut b: Vec<String> = Vec::new();
            b.push(u);
            b.push(e);
            b.push(p);
            b.push(id_str);
            proof {
                assert(b.deep_view() =~= spec_update_bindings(data));
            }
            Some(
                (
                    "UPDATE users SET username = $1, email = $2, password = $3 WHERE id = $5".to_owned(),
                    b,
                ),
            )
        },
        (None, None, None) => None,
    }
}

} // verus!
