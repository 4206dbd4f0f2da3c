# vm_devices

Device-side state of a virtual machine monitor, written in Rust and verified with Verus.

* `vmbus` saves and restores the channels of a VMBus server. `saved_state` holds the saved form
  of each part of the state, `saved_data` the saved state as a whole, and `save` and `restore`
  what a server does with it. `server` is the model against which both are specified.
* `vfio` drives the host IOMMU for a device behind an emulated, accelerated SMMU. The library
  decides what the kernel is asked for and what each answer means.

The laws are public proof functions:

* `vmbus/laws.rs`: what a save and a restore keep of each part.
* `vmbus/restore_laws.rs`: which saved states a server restores none of whose offers is claimed,
  and that it saves them again.
* `vmbus/consistency.rs`: a consistent server that is saved and restored comes back.
* `vmbus/offered_laws.rs`: what a restore does to any server.
* `vfio/laws.rs`: what one transition of a device does, whatever the kernel answers.
* `vfio/history.rs`: what holds after any sequence of configurations, and what more if the kernel
  grants every request.

`outside.rs` declares the one type of another crate that values carry, `anyhow::Error`. Nothing is
claimed of it.

`app/` is what surrounds the library: the protobuf encoding of a saved state, the messages of its
errors, the validation of GPADL ranges, and the iommufd requests. It needs crates of the virtual
machine monitor that are not published.
