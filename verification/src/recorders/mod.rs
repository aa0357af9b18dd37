//! Recorders: capture host state into the report.
pub mod common;
pub mod postinstall;
pub mod preinstall;
