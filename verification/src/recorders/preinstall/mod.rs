//! The recorder run before installing Edera.
pub mod system;
