//! Nested translation for VFIO devices behind an accelerated SMMU, through iommufd.
//!
//! The guest programs an emulated SMMU. For a device that is passed through, the host's SMMU
//! walks the guest's stage 1 tables itself. This module decides what the kernel has to be asked
//! for to that end:
//!
//! * [`SmmuAccelState`] holds the kernel objects that all devices behind one emulated SMMU share.
//!   They are made by an [`AccelSetup`].
//! * [`IommufdStreamBackend`] follows the guest's configuration of one device. Each change is a
//!   [`Transition`].
//!
//! Both are driven step by step: `call` says what to ask the kernel for next, and `advance` takes
//! the kernel's answer. They are over when `call` says nothing more.

use std::sync::Arc;
use vstd::prelude::*;

verus! {

/// A request to the kernel.
#[derive(Clone, Copy, Debug)]
pub enum KernelCall {
    /// Allocate a hardware page table (HWPT). A nest parent is made from an address space, and
    /// takes no stream table entry; a nested one is made from a vIOMMU, with the first two words
    /// of a stream table entry.
    AllocHwpt { nest_parent: bool, dev_id: u32, parent_id: u32, ste: Option<[u64; 2]> },
    /// Allocate a virtual SMMU over a nest parent.
    AllocViommu { dev_id: u32, hwpt_id: u32 },
    /// Allocate a virtual device within a vIOMMU.
    AllocVdevice { viommu_id: u32, dev_id: u32, virtual_id: u64 },
    /// Attach the device to a HWPT, in place of what it is attached to.
    Attach { hwpt_id: u32 },
    /// Detach the device.
    Detach,
    /// Destroy an object.
    Destroy { id: u32 },
    /// Carry out an invalidation command of the guest.
    Invalidate { viommu_id: u32, cmd: [u64; 2] },
}

/// The kernel's answer to a request. Where the request allocates an object, a success carries the
/// object's ID; else the number in it means nothing.
pub type KernelReply = Result<u32, anyhow::Error>;

/// What the kernel reports of the host's SMMU: the kind of the report, and the identification
/// registers, which are those of an SMMUv3 if the report is of that kind.
#[derive(Clone, Copy, Debug)]
pub struct HwInfo {
    pub data_type: u32,
    pub idr: [u32; 6],
}

/// Why the capabilities of the host's SMMU are not known.
#[derive(Debug)]
pub enum HostCapsError {
    QueryFailed(anyhow::Error),
    /// The report is of another kind, namely this.
    UnexpectedType(u32),
}

/// Reads the identification registers of the host's SMMUv3 out of the kernel's report on a
/// device. `arm_smmuv3` is the kind of report that is expected.
pub fn query_host_caps(reply: Result<HwInfo, anyhow::Error>, arm_smmuv3: u32) -> (result: Result<
    [u32; 6],
    HostCapsError,
>)
    ensures
        match reply {
            Err(error) => result == Err::<[u32; 6], _>(HostCapsError::QueryFailed(error)),
            Ok(info) => if info.data_type != arm_smmuv3 {
                result == Err::<[u32; 6], _>(HostCapsError::UnexpectedType(info.data_type))
            } else {
                result == Ok::<_, HostCapsError>(info.idr)
            },
        },
{
    match reply {
        Err(error) => Err(HostCapsError::QueryFailed(error)),
        Ok(info) => {
            if info.data_type != arm_smmuv3 {
                return Err(HostCapsError::UnexpectedType(info.data_type));
            }
            Ok(info.idr)
        },
    }
}

/// The kernel objects that all devices behind one emulated SMMU share.
#[derive(Clone, Copy, Debug)]
pub struct SmmuAccelState {
    viommu_id: u32,
    s2_parent_hwpt_id: u32,
    abort_hwpt_id: u32,
}

/// The model of an [`SmmuAccelState`].
pub struct AccelView {
    /// The vIOMMU, which stands for the emulated SMMU. Nested HWPTs and vDevices are allocated
    /// under it.
    pub viommu_id: u32,
    /// The nest parent, which translates guest to host addresses. A device in bypass is attached
    /// to it.
    pub s2_parent_hwpt_id: u32,
    /// A nested HWPT whose stream table entry ends every transaction. It belongs to no device, so
    /// that each device can be attached to it while its DMA is blocked.
    pub abort_hwpt_id: u32,
}

impl View for SmmuAccelState {
    type V = AccelView;

    closed spec fn view(&self) -> AccelView {
        AccelView {
            viommu_id: self.viommu_id,
            s2_parent_hwpt_id: self.s2_parent_hwpt_id,
            abort_hwpt_id: self.abort_hwpt_id,
        }
    }
}

/// The step at which the making of an [`SmmuAccelState`] failed.
#[derive(Clone, Copy, Debug, PartialEq, Eq, Structural)]
pub enum AccelStep {
    AllocS2Parent,
    AllocViommu,
    AllocAbort,
}

/// Why no [`SmmuAccelState`] was made.
#[derive(Debug)]
pub struct AccelError {
    pub step: AccelStep,
    pub source: anyhow::Error,
}

/// The making of an [`SmmuAccelState`].
#[derive(Debug)]
pub enum AccelSetup {
    /// The nest parent is to be allocated, from an address space.
    AllocS2Parent { dev_id: u32, ioas_id: u32 },
    /// The vIOMMU is to be allocated.
    AllocViommu { dev_id: u32, s2_parent_hwpt_id: u32 },
    /// The HWPT that blocks DMA is to be allocated.
    AllocAbort { dev_id: u32, s2_parent_hwpt_id: u32, viommu_id: u32 },
    Done(SmmuAccelState),
    Failed(AccelError),
}

/// The words of a stream table entry that is valid and ends every transaction.
pub open spec fn is_abort_ste(ste: [u64; 2]) -> bool {
    ste@ == seq![1u64, 0u64]
}

impl SmmuAccelState {
    /// Starts to make the objects of an emulated SMMU.
    ///
    /// `dev_id` is the first device behind it. All objects are allocated against this device,
    /// which binds them to the physical SMMU of the device. `ioas_id` is the address space that
    /// maps guest to host addresses.
    pub fn new(dev_id: u32, ioas_id: u32) -> (setup: AccelSetup)
        ensures
            setup == (AccelSetup::AllocS2Parent { dev_id, ioas_id }),
    {
        AccelSetup::AllocS2Parent { dev_id, ioas_id }
    }

    /// Returns the vIOMMU ID.
    pub fn viommu_id(&self) -> (id: u32)
        ensures
            id == self@.viommu_id,
    {
        self.viommu_id
    }

    /// Returns the ID of the nest parent, to which a device in bypass is attached.
    pub fn s2_parent_hwpt_id(&self) -> (id: u32)
        ensures
            id == self@.s2_parent_hwpt_id,
    {
        self.s2_parent_hwpt_id
    }

    /// Returns the ID of the HWPT that blocks DMA.
    pub fn abort_hwpt_id(&self) -> (id: u32)
        ensures
            id == self@.abort_hwpt_id,
    {
        self.abort_hwpt_id
    }
}

impl AccelSetup {
    /// `call` is what the kernel has to be asked for at this point.
    pub open spec fn asks(self, call: Option<KernelCall>) -> bool {
        match self {
            AccelSetup::AllocS2Parent { dev_id, ioas_id } => call == Some(
                KernelCall::AllocHwpt { nest_parent: true, dev_id, parent_id: ioas_id, ste: None },
            ),
            AccelSetup::AllocViommu { dev_id, s2_parent_hwpt_id } => call == Some(
                KernelCall::AllocViommu { dev_id, hwpt_id: s2_parent_hwpt_id },
            ),
            AccelSetup::AllocAbort { dev_id, viommu_id, .. } => {
                &&& call matches Some(KernelCall::AllocHwpt {
                    nest_parent,
                    dev_id: for_dev,
                    parent_id,
                    ste: Some(ste),
                })
                &&& !nest_parent
                &&& for_dev == dev_id
                &&& parent_id == viommu_id
                &&& is_abort_ste(ste)
            },
            AccelSetup::Done(_) => call is None,
            AccelSetup::Failed(_) => call is None,
        }
    }

    /// `after` is what becomes of the setup when the kernel answers `reply`. What was allocated
    /// before a failure is left to the kernel.
    pub open spec fn advances(self, reply: KernelReply, after: AccelSetup) -> bool {
        match (self, reply) {
            (AccelSetup::AllocS2Parent { dev_id, .. }, Ok(id)) => after
                == (AccelSetup::AllocViommu { dev_id, s2_parent_hwpt_id: id }),
            (AccelSetup::AllocS2Parent { .. }, Err(source)) => after == AccelSetup::Failed(
                AccelError { step: AccelStep::AllocS2Parent, source },
            ),
            (AccelSetup::AllocViommu { dev_id, s2_parent_hwpt_id }, Ok(id)) => after
                == (AccelSetup::AllocAbort { dev_id, s2_parent_hwpt_id, viommu_id: id }),
            (AccelSetup::AllocViommu { .. }, Err(source)) => after == AccelSetup::Failed(
                AccelError { step: AccelStep::AllocViommu, source },
            ),
            (AccelSetup::AllocAbort { s2_parent_hwpt_id, viommu_id, .. }, Ok(id)) => {
                &&& after matches AccelSetup::Done(accel)
                &&& accel@ == AccelView { viommu_id, s2_parent_hwpt_id, abort_hwpt_id: id }
            },
            (AccelSetup::AllocAbort { .. }, Err(source)) => after == AccelSetup::Failed(
                AccelError { step: AccelStep::AllocAbort, source },
            ),
            (AccelSetup::Done(_), _) => after == self,
            (AccelSetup::Failed(_), _) => after == self,
        }
    }

    /// Returns what the kernel has to be asked for next, if anything.
    pub fn call(&self) -> (call: Option<KernelCall>)
        ensures
            self.asks(call),
    {
        match *self {
            AccelSetup::AllocS2Parent { dev_id, ioas_id } => Some(
                KernelCall::AllocHwpt { nest_parent: true, dev_id, parent_id: ioas_id, ste: None },
            ),
            AccelSetup::AllocViommu { dev_id, s2_parent_hwpt_id } => Some(
                KernelCall::AllocViommu { dev_id, hwpt_id: s2_parent_hwpt_id },
            ),
            AccelSetup::AllocAbort { dev_id, viommu_id, .. } => {
                let abort_ste: [u64; 2] = [0x1, 0x0];
                assert(abort_ste@ =~= seq![1u64, 0u64]);
                Some(
                    KernelCall::AllocHwpt {
                        nest_parent: false,
                        dev_id,
                        parent_id: viommu_id,
                        ste: Some(abort_ste),
                    },
                )
            },
            AccelSetup::Done(_) => None,
            AccelSetup::Failed(_) => None,
        }
    }

    /// Takes the kernel's answer to what [`AccelSetup::call`] asked for.
    pub fn advance(self, reply: KernelReply) -> (after: AccelSetup)
        ensures
            self.advances(reply, after),
    {
        match self {
            AccelSetup::AllocS2Parent { dev_id, .. } => match reply {
                Ok(id) => AccelSetup::AllocViommu { dev_id, s2_parent_hwpt_id: id },
                Err(source) => AccelSetup::Failed(
                    AccelError { step: AccelStep::AllocS2Parent, source },
                ),
            },
            AccelSetup::AllocViommu { dev_id, s2_parent_hwpt_id } => match reply {
                Ok(id) => AccelSetup::AllocAbort { dev_id, s2_parent_hwpt_id, viommu_id: id },
                Err(source) => AccelSetup::Failed(
                    AccelError { step: AccelStep::AllocViommu, source },
                ),
            },
            AccelSetup::AllocAbort { s2_parent_hwpt_id, viommu_id, .. } => match reply {
                Ok(id) => AccelSetup::Done(
                    SmmuAccelState { viommu_id, s2_parent_hwpt_id, abort_hwpt_id: id },
                ),
                Err(source) => AccelSetup::Failed(
                    AccelError { step: AccelStep::AllocAbort, source },
                ),
            },
            AccelSetup::Done(accel) => AccelSetup::Done(accel),
            AccelSetup::Failed(error) => AccelSetup::Failed(error),
        }
    }
}

/// How the guest has configured the stream of a device.
#[derive(Clone, Copy, Debug)]
pub enum StreamConfig {
    /// DMA is blocked.
    Abort,
    /// DMA goes to guest addresses.
    Bypass,
    /// DMA goes through the guest's stage 1 tables. `sid` is the stream ID that the guest knows
    /// the device by, and `nested_ste` the stage 1 fields of its stream table entry.
    Translate { sid: u32, nested_ste: [u64; 2] },
}

/// What a device is attached to at the end of a transition.
#[derive(Clone, Copy, Debug, PartialEq, Eq, Structural)]
pub enum AttachTarget {
    /// The shared HWPT that blocks DMA.
    Abort,
    /// The shared nest parent.
    S2Parent,
    /// A nested HWPT of the device's own.
    Nested { hwpt_id: u32 },
}

/// The step at which a transition failed.
#[derive(Clone, Copy, Debug, PartialEq, Eq, Structural)]
pub enum StreamStep {
    AllocVdevice { dev_id: u32, stream_id: u32 },
    AllocNested,
    Attach(AttachTarget),
}

/// Why a transition failed.
#[derive(Debug)]
pub struct StreamError {
    pub step: StreamStep,
    pub source: anyhow::Error,
}

/// A change of a device's configuration.
#[derive(Debug)]
pub enum Transition {
    /// The vDevice is to be allocated.
    AllocVdevice { stream_id: u32, nested_ste: [u64; 2] },
    /// A nested HWPT is to be allocated.
    AllocNested { nested_ste: [u64; 2] },
    /// The device is to be attached. The kernel lets this take the place of what the device is
    /// attached to, so that it is never without.
    Attach(AttachTarget),
    /// The nested HWPT from which the device was moved away is to be destroyed. It may stay if
    /// this fails.
    DestroyOld { hwpt_id: u32 },
    Done,
    Failed(StreamError),
}

/// What changes about a device over time.
#[derive(Debug)]
pub struct StreamBackendState {
    current_nested_hwpt: Option<u32>,
    vdevice_id: Option<u32>,
}

/// The configuration of a device in the kernel, as it follows that of the guest. What changes
/// about it is kept apart, as a [`StreamBackendState`], so that invalidations need not wait for a
/// transition.
#[derive(Debug)]
pub struct IommufdStreamBackend {
    accel: Arc<SmmuAccelState>,
    dev_id: u32,
}

/// The model of an [`IommufdStreamBackend`] and its [`StreamBackendState`].
pub struct BackendView {
    /// The objects that the device shares with others.
    pub accel: AccelView,
    /// The ID by which the kernel knows the device.
    pub dev_id: u32,
    /// The nested HWPT of the device's own, while it is attached to one. The shared HWPTs are
    /// never here.
    pub current_nested_hwpt: Option<u32>,
    /// The vDevice, once it has been allocated.
    pub vdevice_id: Option<u32>,
}

impl AttachTarget {
    /// The nested HWPT of the device's own, if that is the target.
    pub open spec fn nested(self) -> Option<u32> {
        match self {
            AttachTarget::Nested { hwpt_id } => Some(hwpt_id),
            _ => None,
        }
    }
}

impl BackendView {
    /// A device without objects of its own.
    pub open spec fn bare(accel: AccelView, dev_id: u32) -> BackendView {
        BackendView { accel, dev_id, current_nested_hwpt: None, vdevice_id: None }
    }

    /// The ID of the HWPT that a target stands for.
    pub open spec fn hwpt_id(self, target: AttachTarget) -> u32 {
        match target {
            AttachTarget::Abort => self.accel.abort_hwpt_id,
            AttachTarget::S2Parent => self.accel.s2_parent_hwpt_id,
            AttachTarget::Nested { hwpt_id } => hwpt_id,
        }
    }

    /// The transition to a configuration, at its start. To translate takes a vDevice, which is
    /// allocated the first time: the guest's stream ID is not known earlier.
    pub open spec fn start(self, config: StreamConfig) -> Transition {
        match config {
            StreamConfig::Abort => Transition::Attach(AttachTarget::Abort),
            StreamConfig::Bypass => Transition::Attach(AttachTarget::S2Parent),
            StreamConfig::Translate { sid, nested_ste } => if self.vdevice_id is None {
                Transition::AllocVdevice { stream_id: sid, nested_ste }
            } else {
                Transition::AllocNested { nested_ste }
            },
        }
    }

    /// What the kernel has to be asked for at some point of a transition. It does not depend on
    /// what changes about the device.
    pub open spec fn call(self, transition: Transition) -> Option<KernelCall> {
        match transition {
            Transition::AllocVdevice { stream_id, .. } => Some(
                KernelCall::AllocVdevice {
                    viommu_id: self.accel.viommu_id,
                    dev_id: self.dev_id,
                    virtual_id: stream_id as u64,
                },
            ),
            Transition::AllocNested { nested_ste } => Some(
                KernelCall::AllocHwpt {
                    nest_parent: false,
                    dev_id: self.dev_id,
                    parent_id: self.accel.viommu_id,
                    ste: Some(nested_ste),
                },
            ),
            Transition::Attach(target) => Some(
                KernelCall::Attach { hwpt_id: self.hwpt_id(target) },
            ),
            Transition::DestroyOld { hwpt_id } => Some(KernelCall::Destroy { id: hwpt_id }),
            Transition::Done => None,
            Transition::Failed(_) => None,
        }
    }

    /// What becomes of the device and of a transition when the kernel answers `reply`.
    pub open spec fn advance(self, transition: Transition, reply: KernelReply) -> (
        BackendView,
        Transition,
    ) {
        match (transition, reply) {
            (Transition::AllocVdevice { nested_ste, .. }, Ok(id)) => (
                BackendView { vdevice_id: Some(id), ..self },
                Transition::AllocNested { nested_ste },
            ),
            (Transition::AllocVdevice { stream_id, .. }, Err(source)) => (
                self,
                Transition::Failed(
                    StreamError {
                        step: StreamStep::AllocVdevice { dev_id: self.dev_id, stream_id },
                        source,
                    },
                ),
            ),
            (Transition::AllocNested { .. }, Ok(id)) => (
                self,
                Transition::Attach(AttachTarget::Nested { hwpt_id: id }),
            ),
            (Transition::AllocNested { .. }, Err(source)) => (
                self,
                Transition::Failed(StreamError { step: StreamStep::AllocNested, source }),
            ),
            (Transition::Attach(target), Ok(_)) => (
                BackendView { current_nested_hwpt: target.nested(), ..self },
                match self.current_nested_hwpt {
                    Some(hwpt_id) => Transition::DestroyOld { hwpt_id },
                    None => Transition::Done,
                },
            ),
            (Transition::Attach(target), Err(source)) => (
                self,
                Transition::Failed(StreamError { step: StreamStep::Attach(target), source }),
            ),
            (Transition::DestroyOld { .. }, _) => (self, Transition::Done),
            (Transition::Done, _) => (self, transition),
            (Transition::Failed(_), _) => (self, transition),
        }
    }

    /// The requests that leave nothing of the device in the kernel: it is detached, then what is
    /// its own is destroyed. Each is made whether or not those before it succeed.
    pub open spec fn teardown(self) -> Seq<KernelCall> {
        seq![KernelCall::Detach] + (match self.current_nested_hwpt {
            Some(id) => seq![KernelCall::Destroy { id }],
            None => Seq::empty(),
        }) + (match self.vdevice_id {
            Some(id) => seq![KernelCall::Destroy { id }],
            None => Seq::empty(),
        })
    }
}

/// The number that the eight bytes of `bytes` from `at` on stand for, the lowest first.
pub open spec fn word_at(bytes: Seq<u8>, at: int) -> int {
    bytes[at] + 0x100 * bytes[at + 1] + 0x1_0000 * bytes[at + 2] + 0x100_0000 * bytes[at + 3]
        + 0x1_0000_0000 * bytes[at + 4] + 0x100_0000_0000 * bytes[at + 5] + 0x1_0000_0000_0000
        * bytes[at + 6] + 0x100_0000_0000_0000 * bytes[at + 7]
}

/// The bits of a word, eight by eight and the lowest first, are the bytes that it stands for.
pub proof fn law_word_bytes(bytes: Seq<u8>, at: int, word: u64, i: int)
    requires
        word == word_at(bytes, at),
        0 <= i < 8,
    ensures
        (word >> ((8 * i) as u64)) & 0xff == bytes[at + i],
{
    let b0 = bytes[at];
    let b1 = bytes[at + 1];
    let b2 = bytes[at + 2];
    let b3 = bytes[at + 3];
    let b4 = bytes[at + 4];
    let b5 = bytes[at + 5];
    let b6 = bytes[at + 6];
    let b7 = bytes[at + 7];
    assert((word >> 0u64) & 0xff == b0 && (word >> 8u64) & 0xff == b1 && (word >> 16u64) & 0xff
        == b2 && (word >> 24u64) & 0xff == b3 && (word >> 32u64) & 0xff == b4 && (word >> 40u64)
        & 0xff == b5 && (word >> 48u64) & 0xff == b6 && (word >> 56u64) & 0xff == b7)
        by (bit_vector)
        requires
            word == b0 + 0x100 * b1 + 0x1_0000 * b2 + 0x100_0000 * b3 + 0x1_0000_0000 * b4
                + 0x100_0000_0000 * b5 + 0x1_0000_0000_0000 * b6 + 0x100_0000_0000_0000 * b7,
    ;
}

/// Reads the eight bytes of a command from `at` on as a number, the lowest first.
fn read_word(bytes: &[u8; 16], at: usize) -> (word: u64)
    requires
        at <= 8,
    ensures
        word == word_at(bytes@, at as int),
{
    bytes[at] as u64 + 0x100 * (bytes[at + 1] as u64) + 0x1_0000 * (bytes[at + 2] as u64)
        + 0x100_0000 * (bytes[at + 3] as u64) + 0x1_0000_0000 * (bytes[at + 4] as u64)
        + 0x100_0000_0000 * (bytes[at + 5] as u64) + 0x1_0000_0000_0000 * (bytes[at + 6] as u64)
        + 0x100_0000_0000_0000 * (bytes[at + 7] as u64)
}

impl IommufdStreamBackend {
    /// The device, in a state.
    pub closed spec fn device(&self, state: StreamBackendState) -> BackendView {
        BackendView {
            accel: (*self.accel)@,
            dev_id: self.dev_id,
            current_nested_hwpt: state.current_nested_hwpt,
            vdevice_id: state.vdevice_id,
        }
    }

    /// Makes the backend of a device that is attached to the shared HWPT that blocks DMA, and its
    /// state.
    pub fn new(accel: Arc<SmmuAccelState>, dev_id: u32) -> (made: (
        IommufdStreamBackend,
        StreamBackendState,
    ))
        ensures
            made.0.device(made.1) == BackendView::bare((*accel)@, dev_id),
    {
        (
            IommufdStreamBackend { accel, dev_id },
            StreamBackendState { current_nested_hwpt: None, vdevice_id: None },
        )
    }

    /// Starts the transition to blocked DMA.
    fn handle_abort(&self, state: &StreamBackendState) -> (transition: Transition)
        ensures
            transition == self.device(*state).start(StreamConfig::Abort),
    {
        Transition::Attach(AttachTarget::Abort)
    }

    /// Starts the transition to DMA to guest addresses.
    fn handle_bypass(&self, state: &StreamBackendState) -> (transition: Transition)
        ensures
            transition == self.device(*state).start(StreamConfig::Bypass),
    {
        Transition::Attach(AttachTarget::S2Parent)
    }

    /// Starts the transition to DMA through the guest's stage 1 tables.
    fn handle_s1_translate(
        &self,
        state: &StreamBackendState,
        nested_ste: [u64; 2],
        stream_id: u32,
    ) -> (transition: Transition)
        ensures
            transition == self.device(*state).start(
                StreamConfig::Translate { sid: stream_id, nested_ste },
            ),
    {
        if state.vdevice_id.is_none() {
            Transition::AllocVdevice { stream_id, nested_ste }
        } else {
            Transition::AllocNested { nested_ste }
        }
    }

    /// Starts the transition to a configuration. It has to be driven to its end before another
    /// is started.
    pub fn set_stream_config(&self, state: &StreamBackendState, config: StreamConfig) -> (transition:
        Transition)
        ensures
            transition == self.device(*state).start(config),
    {
        match config {
            StreamConfig::Abort => self.handle_abort(state),
            StreamConfig::Bypass => self.handle_bypass(state),
            StreamConfig::Translate { sid, nested_ste } => self.handle_s1_translate(
                state,
                nested_ste,
                sid,
            ),
        }
    }

    /// Returns what the kernel has to be asked for next in a transition, if anything.
    pub fn call(&self, transition: &Transition) -> (call: Option<KernelCall>)
        ensures
            forall|state: StreamBackendState|
                call == (#[trigger] self.device(state)).call(*transition),
    {
        match *transition {
            Transition::AllocVdevice { stream_id, .. } => Some(
                KernelCall::AllocVdevice {
                    viommu_id: self.accel.viommu_id(),
                    dev_id: self.dev_id,
                    virtual_id: stream_id as u64,
                },
            ),
            Transition::AllocNested { nested_ste } => Some(
                KernelCall::AllocHwpt {
                    nest_parent: false,
                    dev_id: self.dev_id,
                    parent_id: self.accel.viommu_id(),
                    ste: Some(nested_ste),
                },
            ),
            Transition::Attach(target) => {
                let hwpt_id = match target {
                    AttachTarget::Abort => self.accel.abort_hwpt_id(),
                    AttachTarget::S2Parent => self.accel.s2_parent_hwpt_id(),
                    AttachTarget::Nested { hwpt_id } => hwpt_id,
                };
                Some(KernelCall::Attach { hwpt_id })
            },
            Transition::DestroyOld { hwpt_id } => Some(KernelCall::Destroy { id: hwpt_id }),
            Transition::Done => None,
            Transition::Failed(_) => None,
        }
    }

    /// Takes the kernel's answer to what [`IommufdStreamBackend::call`] asked for.
    pub fn advance(
        &self,
        state: &mut StreamBackendState,
        transition: Transition,
        reply: KernelReply,
    ) -> (after: Transition)
        ensures
            (self.device(*final(state)), after) == self.device(*old(state)).advance(
                transition,
                reply,
            ),
    {
        match transition {
            Transition::AllocVdevice { stream_id, nested_ste } => match reply {
                Ok(id) => {
                    state.vdevice_id = Some(id);
                    Transition::AllocNested { nested_ste }
                },
                Err(source) => Transition::Failed(
                    StreamError {
                        step: StreamStep::AllocVdevice { dev_id: self.dev_id, stream_id },
                        source,
                    },
                ),
            },
            Transition::AllocNested { .. } => match reply {
                Ok(id) => Transition::Attach(AttachTarget::Nested { hwpt_id: id }),
                Err(source) => Transition::Failed(
                    StreamError { step: StreamStep::AllocNested, source },
                ),
            },
            Transition::Attach(target) => match reply {
                Ok(_) => {
                    let old_hwpt = state.current_nested_hwpt;
                    state.current_nested_hwpt = match target {
                        AttachTarget::Nested { hwpt_id } => Some(hwpt_id),
                        _ => None,
                    };
                    match old_hwpt {
                        Some(hwpt_id) => Transition::DestroyOld { hwpt_id },
                        None => Transition::Done,
                    }
                },
                Err(source) => Transition::Failed(
                    StreamError { step: StreamStep::Attach(target), source },
                ),
            },
            Transition::DestroyOld { .. } => Transition::Done,
            Transition::Done => Transition::Done,
            Transition::Failed(error) => Transition::Failed(error),
        }
    }

    /// Returns the request that forwards an invalidation command of the guest, as its two words.
    pub fn on_tlbi(&self, cmd_bytes: &[u8; 16]) -> (call: KernelCall)
        ensures
            call matches KernelCall::Invalidate { viommu_id, cmd } && cmd[0] == word_at(
                cmd_bytes@,
                0,
            ) && cmd[1] == word_at(cmd_bytes@, 8) && forall|state: StreamBackendState|
                viommu_id == (#[trigger] self.device(state)).accel.viommu_id,
            call matches KernelCall::Invalidate { cmd, .. } && forall|i: int|
                0 <= i < 8 ==> {
                    &&& (cmd[0] >> ((8 * i) as u64)) & 0xff == #[trigger] cmd_bytes@[i]
                    &&& (cmd[1] >> ((8 * i) as u64)) & 0xff == cmd_bytes@[8 + i]
                },
    {
        let low = read_word(cmd_bytes, 0);
        let high = read_word(cmd_bytes, 8);
        proof {
            assert forall|i: int| 0 <= i < 8 implies {
                &&& (low >> ((8 * i) as u64)) & 0xff == #[trigger] cmd_bytes@[i]
                &&& (high >> ((8 * i) as u64)) & 0xff == cmd_bytes@[8 + i]
            } by {
                law_word_bytes(cmd_bytes@, 0, low, i);
                law_word_bytes(cmd_bytes@, 8, high, i);
            }
        }
        KernelCall::Invalidate { viommu_id: self.accel.viommu_id(), cmd: [low, high] }
    }

    /// Gives up the device, and returns the requests that remove it from the kernel. Each is to
    /// be made in its turn, whether or not those before it succeed.
    pub fn teardown(&self, state: &mut StreamBackendState) -> (calls: Vec<KernelCall>)
        ensures
            calls@ == self.device(*old(state)).teardown(),
            self.device(*final(state)) == BackendView::bare(
                self.device(*old(state)).accel,
                self.device(*old(state)).dev_id,
            ),
    {
        let mut calls: Vec<KernelCall> = vec![KernelCall::Detach];
        if let Some(id) = state.current_nested_hwpt {
            calls.push(KernelCall::Destroy { id });
        }
        if let Some(id) = state.vdevice_id {
            calls.push(KernelCall::Destroy { id });
        }
        assert(calls@ =~= self.device(*state).teardown());
        state.current_nested_hwpt = None;
        state.vdevice_id = None;
        calls
    }
}

} // verus!
