//! The SQL dialects of the supported databases.
pub mod dameng;
pub mod postgres;
