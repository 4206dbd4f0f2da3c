//! What holds of the transitions of a device, whatever the kernel answers.

use super::iommufd_nesting::{AccelError, AccelSetup, AccelStep, AccelView, AttachTarget};
use super::iommufd_nesting::{BackendView, KernelCall, KernelReply, StreamConfig, StreamError};
use super::iommufd_nesting::{StreamStep, Transition};
use vstd::prelude::*;

verus! {

/// What came of a transition: the requests that were made, and where they left the device and the
/// transition.
#[verifier::ext_equal]
pub struct Run {
    pub calls: Seq<KernelCall>,
    pub device: BackendView,
    pub transition: Transition,
}

/// The requests that destroy an object, if there is one.
pub open spec fn destroys(id: Option<u32>) -> Seq<KernelCall> {
    match id {
        Some(id) => seq![KernelCall::Destroy { id }],
        None => Seq::empty(),
    }
}

impl Transition {
    /// Nothing more is asked of the kernel.
    pub open spec fn is_over(self) -> bool {
        self is Done || self is Failed
    }
}

impl BackendView {
    /// The transition, driven until it is over or the kernel has given all of `replies`.
    pub open spec fn run(self, transition: Transition, replies: Seq<KernelReply>) -> Run
        decreases replies.len(),
    {
        match self.call(transition) {
            None => Run { calls: Seq::empty(), device: self, transition },
            Some(call) => if replies.len() == 0 {
                Run { calls: Seq::empty(), device: self, transition }
            } else {
                let (device, next) = self.advance(transition, replies[0]);
                let rest = device.run(next, replies.skip(1));
                Run { calls: seq![call] + rest.calls, ..rest }
            },
        }
    }

    /// What comes of an attachment: it fails and nothing has changed; or the device has moved,
    /// and the nested HWPT that it had is destroyed.
    pub open spec fn attach_run(self, target: AttachTarget, reply: KernelReply) -> Run {
        let attach = KernelCall::Attach { hwpt_id: self.hwpt_id(target) };
        match reply {
            Err(source) => Run {
                calls: seq![attach],
                device: self,
                transition: Transition::Failed(
                    StreamError { step: StreamStep::Attach(target), source },
                ),
            },
            Ok(_) => Run {
                calls: seq![attach] + destroys(self.current_nested_hwpt),
                device: BackendView { current_nested_hwpt: target.nested(), ..self },
                transition: Transition::Done,
            },
        }
    }

    /// What comes of a transition to translation for a device that has a vDevice, when the kernel
    /// answers `alloc` to the allocation of a nested HWPT and `attach` to the attachment.
    pub open spec fn nested_run(
        self,
        nested_ste: [u64; 2],
        alloc: KernelReply,
        attach: KernelReply,
    ) -> Run {
        let call = KernelCall::AllocHwpt {
            nest_parent: false,
            dev_id: self.dev_id,
            parent_id: self.accel.viommu_id,
            ste: Some(nested_ste),
        };
        match alloc {
            Err(source) => Run {
                calls: seq![call],
                device: self,
                transition: Transition::Failed(
                    StreamError { step: StreamStep::AllocNested, source },
                ),
            },
            Ok(hwpt_id) => {
                let rest = self.attach_run(AttachTarget::Nested { hwpt_id }, attach);
                Run { calls: seq![call] + rest.calls, ..rest }
            },
        }
    }
}

/// An attachment makes one or two requests, and no answer to the second matters.
proof fn lemma_attach(device: BackendView, target: AttachTarget, replies: Seq<KernelReply>)
    requires
        replies.len() >= 2,
    ensures
        device.run(Transition::Attach(target), replies) == device.attach_run(target, replies[0]),
{
    let start = Transition::Attach(target);
    let (moved, next) = device.advance(start, replies[0]);
    let rest = replies.skip(1);
    reveal_with_fuel(BackendView::run, 4);
    assert(rest[0] == replies[1]);
    assert(device.run(start, replies) =~= device.attach_run(target, replies[0]));
}

/// The allocation of a nested HWPT is followed by the attachment to it.
proof fn lemma_nested(device: BackendView, nested_ste: [u64; 2], replies: Seq<KernelReply>)
    requires
        replies.len() >= 3,
    ensures
        device.run(Transition::AllocNested { nested_ste }, replies) == device.nested_run(
            nested_ste,
            replies[0],
            replies[1],
        ),
{
    let start = Transition::AllocNested { nested_ste };
    let rest = replies.skip(1);
    assert(rest[0] == replies[1]);
    match replies[0] {
        Ok(hwpt_id) => {
            lemma_attach(device, AttachTarget::Nested { hwpt_id }, rest);
        },
        Err(_) => {
            reveal_with_fuel(BackendView::run, 2);
            assert(device.run(start, replies).calls =~= device.nested_run(
                nested_ste,
                replies[0],
                replies[1],
            ).calls);
        },
    }
}

/// A transition to blocked DMA attaches the device to the shared HWPT that blocks it. If that
/// succeeds, the nested HWPT that the device had is destroyed, whether or not the kernel agrees.
pub proof fn law_abort(device: BackendView, replies: Seq<KernelReply>)
    requires
        replies.len() >= 2,
    ensures
        device.run(device.start(StreamConfig::Abort), replies) == device.attach_run(
            AttachTarget::Abort,
            replies[0],
        ),
{
    lemma_attach(device, AttachTarget::Abort, replies);
}

/// A transition to bypass attaches the device to the shared nest parent. If that succeeds, the
/// nested HWPT that the device had is destroyed, whether or not the kernel agrees.
pub proof fn law_bypass(device: BackendView, replies: Seq<KernelReply>)
    requires
        replies.len() >= 2,
    ensures
        device.run(device.start(StreamConfig::Bypass), replies) == device.attach_run(
            AttachTarget::S2Parent,
            replies[0],
        ),
{
    lemma_attach(device, AttachTarget::S2Parent, replies);
}

/// A transition to translation allocates a nested HWPT and attaches the device to it. A device
/// without a vDevice is first given one, under the stream ID that the guest knows it by, and
/// keeps it even if the rest fails.
pub proof fn law_translate(
    device: BackendView,
    sid: u32,
    nested_ste: [u64; 2],
    replies: Seq<KernelReply>,
)
    requires
        replies.len() >= 4,
    ensures
        ({
            let run = device.run(
                device.start(StreamConfig::Translate { sid, nested_ste }),
                replies,
            );
            let call = KernelCall::AllocVdevice {
                viommu_id: device.accel.viommu_id,
                dev_id: device.dev_id,
                virtual_id: sid as u64,
            };
            match (device.vdevice_id, replies[0]) {
                (Some(_), _) => run == device.nested_run(nested_ste, replies[0], replies[1]),
                (None, Err(source)) => run == Run {
                    calls: seq![call],
                    device,
                    transition: Transition::Failed(
                        StreamError {
                            step: StreamStep::AllocVdevice {
                                dev_id: device.dev_id,
                                stream_id: sid,
                            },
                            source,
                        },
                    ),
                },
                (None, Ok(id)) => {
                    let with_vdevice = BackendView { vdevice_id: Some(id), ..device };
                    let rest = with_vdevice.nested_run(nested_ste, replies[1], replies[2]);
                    run == Run { calls: seq![call] + rest.calls, ..rest }
                },
            }
        }),
{
    let start = device.start(StreamConfig::Translate { sid, nested_ste });
    match (device.vdevice_id, replies[0]) {
        (Some(_), _) => {
            lemma_nested(device, nested_ste, replies);
        },
        (None, Err(source)) => {
            reveal_with_fuel(BackendView::run, 2);
            assert(device.run(start, replies).calls =~= seq![device.call(start).unwrap()]);
        },
        (None, Ok(id)) => {
            let rest = replies.skip(1);
            assert(rest[0] == replies[1] && rest[1] == replies[2]);
            lemma_nested(BackendView { vdevice_id: Some(id), ..device }, nested_ste, rest);
        },
    }
}

/// The run of the transition to a configuration.
pub open spec fn config_run(
    device: BackendView,
    config: StreamConfig,
    replies: Seq<KernelReply>,
) -> Run {
    device.run(device.start(config), replies)
}

/// The laws of the three configurations together.
proof fn lemma_config_run(device: BackendView, config: StreamConfig, replies: Seq<KernelReply>)
    requires
        replies.len() >= 4,
    ensures
        match config {
            StreamConfig::Abort => config_run(device, config, replies) == device.attach_run(
                AttachTarget::Abort,
                replies[0],
            ),
            StreamConfig::Bypass => config_run(device, config, replies) == device.attach_run(
                AttachTarget::S2Parent,
                replies[0],
            ),
            StreamConfig::Translate { nested_ste, .. } => match (device.vdevice_id, replies[0]) {
                (Some(_), _) => config_run(device, config, replies) == device.nested_run(
                    nested_ste,
                    replies[0],
                    replies[1],
                ),
                (None, Err(_)) => {
                    let run = config_run(device, config, replies);
                    &&& run.calls == seq![device.call(device.start(config)).unwrap()]
                    &&& run.device == device
                    &&& run.transition is Failed
                },
                (None, Ok(id)) => {
                    let run = config_run(device, config, replies);
                    let rest = BackendView { vdevice_id: Some(id), ..device }.nested_run(
                        nested_ste,
                        replies[1],
                        replies[2],
                    );
                    &&& run.calls == seq![device.call(device.start(config)).unwrap()] + rest.calls
                    &&& run.device == rest.device
                    &&& run.transition == rest.transition
                },
            },
        },
{
    match config {
        StreamConfig::Abort => law_abort(device, replies),
        StreamConfig::Bypass => law_bypass(device, replies),
        StreamConfig::Translate { sid, nested_ste } => law_translate(
            device,
            sid,
            nested_ste,
            replies,
        ),
    }
}

/// A transition is over after four answers of the kernel at most.
pub proof fn law_transition_ends(
    device: BackendView,
    config: StreamConfig,
    replies: Seq<KernelReply>,
)
    requires
        replies.len() >= 4,
    ensures
        config_run(device, config, replies).transition.is_over(),
        config_run(device, config, replies).calls.len() <= 4,
{
    lemma_config_run(device, config, replies);
}

/// A transition attaches the device at most once, and never detaches it: the device is not
/// without an attachment while it is switched.
pub proof fn law_single_attach(device: BackendView, config: StreamConfig, replies: Seq<KernelReply>)
    requires
        replies.len() >= 4,
    ensures
        ({
            let calls = config_run(device, config, replies).calls;
            &&& forall|i: int| 0 <= i < calls.len() ==> !(#[trigger] calls[i] is Detach)
            &&& forall|i: int, j: int|
                0 <= i < j < calls.len() && #[trigger] calls[i] is Attach ==> !(
                #[trigger] calls[j] is Attach)
        }),
{
    lemma_config_run(device, config, replies);
}

/// After a transition that succeeded, the last attachment was to the HWPT that the configuration
/// asks for, and a nested HWPT is kept track of exactly if the device translates: it is the one
/// that the device was attached to.
pub proof fn law_done_is_attached(
    device: BackendView,
    config: StreamConfig,
    replies: Seq<KernelReply>,
)
    requires
        replies.len() >= 4,
        config_run(device, config, replies).transition is Done,
    ensures
        ({
            let run = config_run(device, config, replies);
            let attached = match config {
                StreamConfig::Abort => device.accel.abort_hwpt_id,
                StreamConfig::Bypass => device.accel.s2_parent_hwpt_id,
                StreamConfig::Translate { .. } => run.device.current_nested_hwpt.unwrap(),
            };
            &&& run.calls.contains(KernelCall::Attach { hwpt_id: attached })
            &&& run.device.current_nested_hwpt is Some <==> config is Translate
            &&& config is Translate ==> run.device.vdevice_id is Some
        }),
{
    lemma_config_run(device, config, replies);
    let run = config_run(device, config, replies);
    match config {
        StreamConfig::Abort => {
            assert(run.calls[0] == KernelCall::Attach { hwpt_id: device.accel.abort_hwpt_id });
        },
        StreamConfig::Bypass => {
            assert(run.calls[0] == KernelCall::Attach { hwpt_id: device.accel.s2_parent_hwpt_id });
        },
        StreamConfig::Translate { .. } => {
            let attach = KernelCall::Attach { hwpt_id: run.device.current_nested_hwpt.unwrap() };
            if device.vdevice_id is Some {
                assert(run.calls[1] == attach);
            } else {
                assert(run.calls[2] == attach);
            }
        },
    }
}

/// The only object that a transition destroys is the nested HWPT that the device had, and that
/// only once the device has been attached to another.
pub proof fn law_destroys_replaced_only(
    device: BackendView,
    config: StreamConfig,
    replies: Seq<KernelReply>,
)
    requires
        replies.len() >= 4,
    ensures
        ({
            let run = config_run(device, config, replies);
            forall|i: int|
                0 <= i < run.calls.len() ==> (#[trigger] run.calls[i] matches KernelCall::Destroy {
                    id,
                } ==> {
                    &&& device.current_nested_hwpt == Some(id)
                    &&& run.transition is Done
                    &&& i == run.calls.len() - 1
                    &&& i > 0
                    &&& run.calls[i - 1] is Attach
                })
        }),
{
    lemma_config_run(device, config, replies);
}

/// A nested HWPT that a transition replaces is destroyed: none is lost track of on success.
pub proof fn law_replaced_is_destroyed(
    device: BackendView,
    config: StreamConfig,
    replies: Seq<KernelReply>,
    id: u32,
)
    requires
        replies.len() >= 4,
        config_run(device, config, replies).transition is Done,
        device.current_nested_hwpt == Some(id),
    ensures
        config_run(device, config, replies).calls.last() == (KernelCall::Destroy { id }),
{
    lemma_config_run(device, config, replies);
}

/// A transition that fails leaves the device where it is: it has the nested HWPT that it had, if
/// any, and nothing is destroyed.
pub proof fn law_failure_keeps_attachment(
    device: BackendView,
    config: StreamConfig,
    replies: Seq<KernelReply>,
)
    requires
        replies.len() >= 4,
        config_run(device, config, replies).transition is Failed,
    ensures
        ({
            let run = config_run(device, config, replies);
            &&& run.device.current_nested_hwpt == device.current_nested_hwpt
            &&& forall|i: int| 0 <= i < run.calls.len() ==> !(#[trigger] run.calls[i] is Destroy)
        }),
{
    lemma_config_run(device, config, replies);
}

/// A device gets a vDevice at most once: one that it has, it keeps, and no other is asked for.
pub proof fn law_vdevice_is_kept(
    device: BackendView,
    config: StreamConfig,
    replies: Seq<KernelReply>,
)
    requires
        replies.len() >= 4,
        device.vdevice_id is Some,
    ensures
        ({
            let run = config_run(device, config, replies);
            &&& run.device.vdevice_id == device.vdevice_id
            &&& forall|i: int|
                0 <= i < run.calls.len() ==> !(#[trigger] run.calls[i] is AllocVdevice)
        }),
{
    lemma_config_run(device, config, replies);
}

/// A transition changes neither the device nor what it shares with others.
pub proof fn law_shared_objects_stay(
    device: BackendView,
    config: StreamConfig,
    replies: Seq<KernelReply>,
)
    requires
        replies.len() >= 4,
    ensures
        config_run(device, config, replies).device.accel == device.accel,
        config_run(device, config, replies).device.dev_id == device.dev_id,
{
    lemma_config_run(device, config, replies);
}

/// The ID is that of an object that the device shares with others.
pub open spec fn is_shared(accel: AccelView, id: u32) -> bool {
    id == accel.viommu_id || id == accel.s2_parent_hwpt_id || id == accel.abort_hwpt_id
}

/// The nested HWPT that is kept track of is not a shared object.
pub open spec fn nested_is_own(device: BackendView) -> bool {
    device.current_nested_hwpt matches Some(id) ==> !is_shared(device.accel, id)
}

/// The request allocates an object.
pub open spec fn allocates(call: KernelCall) -> bool {
    call is AllocHwpt || call is AllocViommu || call is AllocVdevice
}

/// The shared objects are never destroyed, and never taken for a device's own, as long as the
/// kernel does not give their IDs to anything that it allocates.
pub proof fn law_shared_objects_survive(
    device: BackendView,
    config: StreamConfig,
    replies: Seq<KernelReply>,
)
    requires
        replies.len() >= 4,
        nested_is_own(device),
        forall|i: int|
            0 <= i < config_run(device, config, replies).calls.len() && allocates(
                #[trigger] config_run(device, config, replies).calls[i],
            ) ==> (replies[i] matches Ok(id) ==> !is_shared(device.accel, id)),
    ensures
        ({
            let run = config_run(device, config, replies);
            &&& nested_is_own(run.device)
            &&& forall|i: int|
                0 <= i < run.calls.len() ==> (#[trigger] run.calls[i] matches KernelCall::Destroy {
                    id,
                } ==> !is_shared(device.accel, id))
        }),
{
    lemma_config_run(device, config, replies);
    law_destroys_replaced_only(device, config, replies);
    let run = config_run(device, config, replies);
    if config is Translate && run.transition is Done {
        let i: int = if device.vdevice_id is Some {
            0
        } else {
            1
        };
        assert(allocates(run.calls[i]));
    }
}

/// The removal of a device destroys what is its own, after it has been detached, and nothing
/// else.
pub proof fn law_teardown(device: BackendView)
    ensures
        device.teardown()[0] is Detach,
        forall|id: u32|
            device.teardown().contains(KernelCall::Destroy { id }) <==> device.current_nested_hwpt
                == Some(id) || device.vdevice_id == Some(id),
{
    let calls = device.teardown();
    assert forall|id: u32|
        device.current_nested_hwpt == Some(id) || device.vdevice_id == Some(
            id,
        ) implies calls.contains(KernelCall::Destroy { id }) by {
        if device.current_nested_hwpt == Some(id) {
            assert(calls[1] == KernelCall::Destroy { id });
        } else {
            assert(calls[calls.len() - 1] == KernelCall::Destroy { id });
        }
    }
}

/// The objects of an emulated SMMU are made by three requests, each of which rests on what the
/// one before gave.
pub proof fn law_setup(
    dev_id: u32,
    ioas_id: u32,
    replies: (u32, u32, u32),
    steps: (AccelSetup, AccelSetup, AccelSetup, AccelSetup),
)
    requires
        steps.0 == (AccelSetup::AllocS2Parent { dev_id, ioas_id }),
        steps.0.advances(Ok(replies.0), steps.1),
        steps.1.advances(Ok(replies.1), steps.2),
        steps.2.advances(Ok(replies.2), steps.3),
    ensures
        steps.0.asks(
            Some(
                KernelCall::AllocHwpt { nest_parent: true, dev_id, parent_id: ioas_id, ste: None },
            ),
        ),
        steps.1.asks(Some(KernelCall::AllocViommu { dev_id, hwpt_id: replies.0 })),
        forall|ste: [u64; 2]|
            crate::vfio::iommufd_nesting::is_abort_ste(ste) ==> #[trigger] steps.2.asks(
                Some(
                    KernelCall::AllocHwpt {
                        nest_parent: false,
                        dev_id,
                        parent_id: replies.1,
                        ste: Some(ste),
                    },
                ),
            ),
        steps.3 matches AccelSetup::Done(accel) && accel@ == (AccelView {
            viommu_id: replies.1,
            s2_parent_hwpt_id: replies.0,
            abort_hwpt_id: replies.2,
        }),
{
}

/// A setup that is over asks for nothing, and stays as it is.
pub proof fn law_setup_stops(setup: AccelSetup, reply: KernelReply, after: AccelSetup)
    requires
        setup is Done || setup is Failed,
        setup.advances(reply, after),
    ensures
        setup.asks(None),
        after == setup,
{
}

/// A refusal of the kernel ends a setup at once, at the step that was refused.
pub proof fn law_setup_fails(setup: AccelSetup, source: anyhow::Error, after: AccelSetup)
    requires
        !(setup is Done),
        !(setup is Failed),
        setup.advances(Err(source), after),
    ensures
        after == AccelSetup::Failed(
            AccelError {
                step: match setup {
                    AccelSetup::AllocS2Parent { .. } => AccelStep::AllocS2Parent,
                    AccelSetup::AllocViommu { .. } => AccelStep::AllocViommu,
                    _ => AccelStep::AllocAbort,
                },
                source,
            },
        ),
{
}

/// The lowest byte of a number, and the rest of it.
proof fn lemma_low_byte(low: u8, high: int, other_low: u8, other_high: int)
    requires
        low + 0x100 * high == other_low + 0x100 * other_high,
    ensures
        low == other_low,
        high == other_high,
{
}

/// The word of a command determines the eight bytes that it was read from: nothing of a command
/// is lost when it is forwarded.
pub proof fn law_word_keeps_bytes(bytes: Seq<u8>, other: Seq<u8>, at: int, i: int)
    requires
        0 <= i < 8,
        crate::vfio::iommufd_nesting::word_at(bytes, at)
            == crate::vfio::iommufd_nesting::word_at(other, at),
    ensures
        bytes[at + i] == other[at + i],
{
    let a7 = bytes[at + 7] as int;
    let a6 = bytes[at + 6] + 0x100 * a7;
    let a5 = bytes[at + 5] + 0x100 * a6;
    let a4 = bytes[at + 4] + 0x100 * a5;
    let a3 = bytes[at + 3] + 0x100 * a4;
    let a2 = bytes[at + 2] + 0x100 * a3;
    let a1 = bytes[at + 1] + 0x100 * a2;
    let b7 = other[at + 7] as int;
    let b6 = other[at + 6] + 0x100 * b7;
    let b5 = other[at + 5] + 0x100 * b6;
    let b4 = other[at + 4] + 0x100 * b5;
    let b3 = other[at + 3] + 0x100 * b4;
    let b2 = other[at + 2] + 0x100 * b3;
    let b1 = other[at + 1] + 0x100 * b2;
    lemma_low_byte(bytes[at], a1, other[at], b1);
    lemma_low_byte(bytes[at + 1], a2, other[at + 1], b2);
    lemma_low_byte(bytes[at + 2], a3, other[at + 2], b3);
    lemma_low_byte(bytes[at + 3], a4, other[at + 3], b4);
    lemma_low_byte(bytes[at + 4], a5, other[at + 4], b5);
    lemma_low_byte(bytes[at + 5], a6, other[at + 5], b6);
    lemma_low_byte(bytes[at + 6], a7, other[at + 6], b7);
}

} // verus!
