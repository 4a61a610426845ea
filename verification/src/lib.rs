//! Verified core of an authentication backend: a SQL dialect model, a
//! placeholder translator for hand-written SQL, table descriptors with a
//! dependency-ordered schema manager, and the decision logic of the database
//! bootstrap sequence.

pub mod bootstrap;
pub mod dialect;
pub mod entities;
pub mod errors;
pub mod middleware;
pub mod numeric;
pub mod password;
pub mod payload;
pub mod repository;
pub mod schema;
pub mod settings;
pub mod sql;
pub mod text;
pub mod token;
