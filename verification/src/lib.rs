//! Verified core of a tool that imports spatial data files (read with GDAL)
//! into PostgreSQL/PostGIS or Dameng (DM8) databases: the data model, the
//! SQL dialects, configuration storage, connection reports, file and layer
//! descriptions, and the import procedure as a state machine.
pub mod commands;
pub mod database;
pub mod gdal;
pub mod models;
pub mod text;
