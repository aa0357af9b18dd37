//! The check groups: what each check decides from what was observed on the host.
pub mod iommu;
pub mod numa;
pub mod postinstall;
pub mod preinstall;
pub mod script;
