//! Database dialects and the operations the library performs on database
//! settings and results.
pub mod dameng;
pub mod dialects;
pub mod postgres;
pub mod traits;

pub use traits::{create_dialect, Dialect, SqlDialect, SqlStatements};
