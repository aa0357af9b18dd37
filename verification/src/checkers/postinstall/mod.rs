//! Groups run on a host booted into Edera.
pub mod guest_type;
pub mod kube;
pub mod services;
pub mod system;
