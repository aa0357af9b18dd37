//! The recorder run on a host booted into Edera.
pub mod system;
