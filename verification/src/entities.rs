//! The entities the account store works with: the user row, and the
//! descriptor of the table that holds it — the whole default table set.

use vstd::prelude::*;

use crate::schema::Table;

verus! {

/// A stored user account row.
#[derive(Clone, Debug)]
pub struct User {
    pub id: i32,
    pub username: String,
    pub email: String,
    pub password: String,
}

/// The descriptor of the `users` table: the one table of the default
/// schema. It depends on nothing, so any schema built from the default set
/// alone is trivially orderable.
pub fn user_table() -> (t: Table)
    ensures
        t.name@ == "users"@,
        t.dependencies@.len() == 0,
        t.create_sql@
            == "CREATE TABLE IF NOT EXISTS users (id INTEGER PRIMARY KEY, username TEXT NOT NULL UNIQUE, email TEXT NOT NULL UNIQUE, password TEXT NOT NULL)"@,
        t.dispose_sql@ == "DROP TABLE IF EXISTS users"@,
{
    Table {
        name: "users".to_owned(),
        dependencies: Vec::new(),
        create_sql:
            "CREATE TABLE IF NOT EXISTS users (id INTEGER PRIMARY KEY, username TEXT NOT NULL UNIQUE, email TEXT NOT NULL UNIQUE, password TEXT NOT NULL)".to_owned(),
        dispose_sql: "DROP TABLE IF EXISTS users".to_owned(),
    }
}

} // verus!
