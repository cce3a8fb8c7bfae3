//! A backend-agnostic SQL query builder: a statement is assembled through a
//! fluent API, rendered to parameterised SQL with a positional argument list,
//! and handed to a database backend.

pub mod error;
pub mod fluent;
pub mod placeholders;
pub mod query;
pub mod registry;
pub mod sql;
pub mod sqlite;
pub mod text;
pub mod value;

pub use error::{DriverFailure, Error};
pub use fluent::{InsertAs, Query, WhereQueryGroup};
pub use registry::DB;
pub use value::Value;
