//! VFIO devices behind an accelerated SMMU.

pub mod history;
pub mod iommufd_nesting;
pub mod laws;
pub mod request_laws;
