//! Device-side state of a virtual machine monitor, with machine-checked contracts.
//!
//! * [`vmbus`]: saving and restoring the channels of a VMBus server.
//! * [`vfio`]: driving the host IOMMU for a device that sits behind an emulated, accelerated
//!   SMMU.
//!
//! Everything that talks to the outside world (the notifier of a server, the iommufd ioctls) is
//! driven by values: the library decides what is asked for and what each answer means.

pub mod outside;
pub mod vfio;
pub mod vmbus;
