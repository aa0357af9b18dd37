//! Groups run before installing Edera.
pub mod byo_kernel;
pub mod kernel;
pub mod kvm;
pub mod license;
pub mod pvh;
pub mod system;
