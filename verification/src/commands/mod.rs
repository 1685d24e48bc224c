//! The decisions behind the application's commands: the import procedure
//! as a state machine, and the reports that the database commands give.
pub mod db_commands;
pub mod import_commands;
