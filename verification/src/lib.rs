//! Readiness checks for hosts that run, or are about to run, Edera.
pub mod checkers;
pub mod hardware;
pub mod helpers;
pub mod recorders;
pub mod report;
pub mod text;
