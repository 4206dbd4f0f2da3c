//! The requests that are made of the kernel, and what is kept of its answers.

use super::iommufd_nesting::{AccelSetup, AccelView, AttachTarget, BackendView};
use super::iommufd_nesting::{KernelCall, KernelReply, StreamConfig, StreamStep, Transition};
use vstd::prelude::*;

verus! {

/// What a setup asks for: first a nest parent from the address space, then a vIOMMU over it, then
/// a nested HWPT under the vIOMMU, whose stream table entry is valid and no more. Each is for the
/// device that the setup started with.
pub proof fn law_setup_requests(setup: AccelSetup, call: Option<KernelCall>)
    requires
        setup.asks(call),
    ensures
        match setup {
            AccelSetup::AllocS2Parent { dev_id: for_dev, ioas_id } => {
                &&& call matches Some(KernelCall::AllocHwpt { nest_parent, dev_id, parent_id, ste })
                &&& nest_parent
                &&& dev_id == for_dev
                &&& parent_id == ioas_id
                &&& ste is None
            },
            AccelSetup::AllocViommu { dev_id: for_dev, s2_parent_hwpt_id } => {
                &&& call matches Some(KernelCall::AllocViommu { dev_id, hwpt_id })
                &&& dev_id == for_dev
                &&& hwpt_id == s2_parent_hwpt_id
            },
            AccelSetup::AllocAbort { dev_id: for_dev, viommu_id, .. } => {
                &&& call matches Some(KernelCall::AllocHwpt { nest_parent, dev_id, parent_id, ste })
                &&& !nest_parent
                &&& dev_id == for_dev
                &&& parent_id == viommu_id
                &&& ste matches Some(words)
                &&& words[0] == 1
                &&& words[1] == 0
            },
            _ => call is None,
        },
{
    if let AccelSetup::AllocAbort { .. } = setup {
        if let Some(KernelCall::AllocHwpt { ste: Some(words), .. }) = call {
            assert(words@[0] == 1 && words@[1] == 0);
        }
    }
}

/// What a setup keeps of an answer: the ID that was allocated, under the name of what was asked
/// for, beside the IDs that it had. Of a refusal it keeps where it happened and why.
pub proof fn law_setup_answers(setup: AccelSetup, reply: KernelReply, after: AccelSetup)
    requires
        setup.advances(reply, after),
    ensures
        match (setup, reply) {
            (AccelSetup::AllocS2Parent { dev_id: d, .. }, Ok(id)) => {
                &&& after matches AccelSetup::AllocViommu { dev_id, s2_parent_hwpt_id }
                &&& dev_id == d
                &&& s2_parent_hwpt_id == id
            },
            (AccelSetup::AllocViommu { dev_id: d, s2_parent_hwpt_id: s2 }, Ok(id)) => {
                &&& after matches AccelSetup::AllocAbort { dev_id, s2_parent_hwpt_id, viommu_id }
                &&& dev_id == d
                &&& s2_parent_hwpt_id == s2
                &&& viommu_id == id
            },
            (AccelSetup::AllocAbort { s2_parent_hwpt_id: s2, viommu_id: v, .. }, Ok(id)) => {
                &&& after matches AccelSetup::Done(accel)
                &&& accel@.viommu_id == v
                &&& accel@.s2_parent_hwpt_id == s2
                &&& accel@.abort_hwpt_id == id
            },
            (AccelSetup::AllocS2Parent { .. }, Err(source)) => {
                &&& after matches AccelSetup::Failed(error)
                &&& error.step is AllocS2Parent
                &&& error.source == source
            },
            (AccelSetup::AllocViommu { .. }, Err(source)) => {
                &&& after matches AccelSetup::Failed(error)
                &&& error.step is AllocViommu
                &&& error.source == source
            },
            (AccelSetup::AllocAbort { .. }, Err(source)) => {
                &&& after matches AccelSetup::Failed(error)
                &&& error.step is AllocAbort
                &&& error.source == source
            },
            _ => after == setup,
        },
{
}

/// A device that nothing has happened to has no object of its own.
pub proof fn law_bare(accel: AccelView, dev_id: u32)
    ensures
        BackendView::bare(accel, dev_id).accel == accel,
        BackendView::bare(accel, dev_id).dev_id == dev_id,
        BackendView::bare(accel, dev_id).current_nested_hwpt is None,
        BackendView::bare(accel, dev_id).vdevice_id is None,
{
}

/// The first request of a transition. To block DMA is to attach the device to the shared HWPT that
/// blocks it, and bypass is to attach it to the nest parent. To translate is to allocate a nested
/// HWPT under the vIOMMU with the guest's two words, but for a device without a vDevice to allocate
/// that first, under the guest's stream ID.
pub proof fn law_first_request(device: BackendView, config: StreamConfig)
    ensures
        match (config, device.call(device.start(config))) {
            (StreamConfig::Abort, Some(KernelCall::Attach { hwpt_id })) => hwpt_id
                == device.accel.abort_hwpt_id,
            (StreamConfig::Bypass, Some(KernelCall::Attach { hwpt_id })) => hwpt_id
                == device.accel.s2_parent_hwpt_id,
            (
                StreamConfig::Translate { sid, .. },
                Some(KernelCall::AllocVdevice { viommu_id, dev_id, virtual_id }),
            ) => {
                &&& device.vdevice_id is None
                &&& viommu_id == device.accel.viommu_id
                &&& dev_id == device.dev_id
                &&& virtual_id == sid
            },
            (
                StreamConfig::Translate { nested_ste, .. },
                Some(KernelCall::AllocHwpt { nest_parent, dev_id, parent_id, ste }),
            ) => {
                &&& device.vdevice_id is Some
                &&& !nest_parent
                &&& dev_id == device.dev_id
                &&& parent_id == device.accel.viommu_id
                &&& ste == Some(nested_ste)
            },
            _ => false,
        },
{
}

/// What is asked for at each point of a transition.
pub proof fn law_requests(device: BackendView, transition: Transition)
    ensures
        match (transition, device.call(transition)) {
            (
                Transition::AllocVdevice { stream_id, .. },
                Some(KernelCall::AllocVdevice { viommu_id, dev_id, virtual_id }),
            ) => {
                &&& viommu_id == device.accel.viommu_id
                &&& dev_id == device.dev_id
                &&& virtual_id == stream_id
            },
            (
                Transition::AllocNested { nested_ste },
                Some(KernelCall::AllocHwpt { nest_parent, dev_id, parent_id, ste }),
            ) => {
                &&& !nest_parent
                &&& dev_id == device.dev_id
                &&& parent_id == device.accel.viommu_id
                &&& ste == Some(nested_ste)
            },
            (
                Transition::Attach(AttachTarget::Abort),
                Some(KernelCall::Attach { hwpt_id }),
            ) => hwpt_id == device.accel.abort_hwpt_id,
            (
                Transition::Attach(AttachTarget::S2Parent),
                Some(KernelCall::Attach { hwpt_id }),
            ) => hwpt_id == device.accel.s2_parent_hwpt_id,
            (
                Transition::Attach(AttachTarget::Nested { hwpt_id: own }),
                Some(KernelCall::Attach { hwpt_id }),
            ) => hwpt_id == own,
            (
                Transition::DestroyOld { hwpt_id },
                Some(KernelCall::Destroy { id }),
            ) => id == hwpt_id,
            (Transition::Done, None) => true,
            (Transition::Failed(_), None) => true,
            _ => false,
        },
{
}

/// What becomes of a device and of a transition when the kernel does what it was asked for: a
/// vDevice is kept track of, and the guest's words go on to the nested HWPT, to which the device is
/// attached next. An attachment changes which nested HWPT is kept track of, and the one before is
/// destroyed next, if there was one.
pub proof fn law_answers(device: BackendView, transition: Transition, id: u32)
    ensures
        ({
            let (after, next) = device.advance(transition, Ok(id));
            &&& after.accel == device.accel
            &&& after.dev_id == device.dev_id
            &&& transition is AllocVdevice ==> after.vdevice_id == Some(id)
            &&& !(transition is AllocVdevice) ==> after.vdevice_id == device.vdevice_id
            &&& match transition {
                Transition::Attach(AttachTarget::Nested { hwpt_id }) => after.current_nested_hwpt
                    == Some(hwpt_id),
                Transition::Attach(_) => after.current_nested_hwpt is None,
                _ => after.current_nested_hwpt == device.current_nested_hwpt,
            }
            &&& match (transition, next) {
                (
                    Transition::AllocVdevice { nested_ste: words, .. },
                    Transition::AllocNested { nested_ste },
                ) => nested_ste == words,
                (
                    Transition::AllocNested { .. },
                    Transition::Attach(AttachTarget::Nested { hwpt_id }),
                ) => hwpt_id == id,
                (Transition::Attach(_), Transition::DestroyOld { hwpt_id }) => Some(hwpt_id)
                    == device.current_nested_hwpt,
                (Transition::Attach(_), Transition::Done) => device.current_nested_hwpt is None,
                (Transition::DestroyOld { .. }, Transition::Done) => true,
                (Transition::Done, Transition::Done) => true,
                (Transition::Failed(error), Transition::Failed(same)) => same == error,
                _ => false,
            }
        }),
{
}

/// What becomes of a device and of a transition when the kernel refuses: the device stays as it is,
/// and the transition fails with the step and the kernel's reason. That a nested HWPT is not
/// destroyed is no failure.
pub proof fn law_refusals(device: BackendView, transition: Transition, reason: anyhow::Error)
    ensures
        ({
            let (after, next) = device.advance(transition, Err(reason));
            &&& after == device
            &&& match (transition, next) {
                (Transition::AllocVdevice { stream_id: sid, .. }, Transition::Failed(error)) => {
                    &&& error.step matches StreamStep::AllocVdevice { dev_id, stream_id }
                    &&& dev_id == device.dev_id
                    &&& stream_id == sid
                    &&& error.source == reason
                },
                (Transition::AllocNested { .. }, Transition::Failed(error)) => {
                    &&& error.step is AllocNested
                    &&& error.source == reason
                },
                (Transition::Attach(target), Transition::Failed(error)) => {
                    &&& error.step == StreamStep::Attach(target)
                    &&& error.source == reason
                },
                (Transition::DestroyOld { .. }, Transition::Done) => true,
                (Transition::Done, Transition::Done) => true,
                (Transition::Failed(error), Transition::Failed(same)) => same == error,
                _ => false,
            }
        }),
{
}

/// A transition to translation in which the kernel does all that it is asked for. A device without
/// a vDevice is given one for the guest's stream ID. A nested HWPT is made with the guest's words,
/// the device is attached to just that, and the one that it had is destroyed last.
pub proof fn law_translation(
    device: BackendView,
    sid: u32,
    nested_ste: [u64; 2],
    vdevice: u32,
    nested: u32,
    attached: u32,
    replies: Seq<KernelReply>,
)
    requires
        replies.len() >= 4,
        device.vdevice_id is None ==> replies[0] == Ok::<u32, anyhow::Error>(vdevice) && replies[1]
            == Ok::<u32, anyhow::Error>(nested) && replies[2] == Ok::<u32, anyhow::Error>(attached),
        device.vdevice_id is Some ==> replies[0] == Ok::<u32, anyhow::Error>(nested) && replies[1]
            == Ok::<u32, anyhow::Error>(attached),
    ensures
        ({
            let run = device.run(
                device.start(StreamConfig::Translate { sid, nested_ste }),
                replies,
            );
            let made = KernelCall::AllocHwpt {
                nest_parent: false,
                dev_id: device.dev_id,
                parent_id: device.accel.viommu_id,
                ste: Some(nested_ste),
            };
            let moved = seq![made, KernelCall::Attach { hwpt_id: nested }];
            let named = seq![
                KernelCall::AllocVdevice {
                    viommu_id: device.accel.viommu_id,
                    dev_id: device.dev_id,
                    virtual_id: sid as u64,
                },
            ];
            &&& run.transition is Done
            &&& run.device.accel == device.accel
            &&& run.device.dev_id == device.dev_id
            &&& run.device.current_nested_hwpt == Some(nested)
            &&& match (device.vdevice_id, device.current_nested_hwpt) {
                (None, None) => run.calls == named + moved && run.device.vdevice_id == Some(
                    vdevice,
                ),
                (None, Some(id)) => run.calls == (named + moved).push(KernelCall::Destroy { id })
                    && run.device.vdevice_id == Some(vdevice),
                (Some(kept), None) => run.calls == moved && run.device.vdevice_id == Some(kept),
                (Some(kept), Some(id)) => run.calls == moved.push(KernelCall::Destroy { id })
                    && run.device.vdevice_id == Some(kept),
            }
        }),
{
    crate::vfio::laws::law_translate(device, sid, nested_ste, replies);
}

/// A transition to blocked DMA or to bypass in which the kernel does what it is asked for. The
/// device is attached to the shared HWPT of that configuration, the nested one that it had is
/// destroyed, and its vDevice stays.
pub proof fn law_shared_attachment(
    device: BackendView,
    config: StreamConfig,
    attached: u32,
    replies: Seq<KernelReply>,
)
    requires
        replies.len() >= 2,
        replies[0] == Ok::<u32, anyhow::Error>(attached),
        !(config is Translate),
    ensures
        ({
            let run = device.run(device.start(config), replies);
            let attach = KernelCall::Attach {
                hwpt_id: if config is Abort {
                    device.accel.abort_hwpt_id
                } else {
                    device.accel.s2_parent_hwpt_id
                },
            };
            &&& run.transition is Done
            &&& run.device.accel == device.accel
            &&& run.device.dev_id == device.dev_id
            &&& run.device.current_nested_hwpt is None
            &&& run.device.vdevice_id == device.vdevice_id
            &&& match device.current_nested_hwpt {
                None => run.calls == seq![attach],
                Some(id) => run.calls == seq![attach, KernelCall::Destroy { id }],
            }
        }),
{
    if config is Abort {
        crate::vfio::laws::law_abort(device, replies);
    } else {
        crate::vfio::laws::law_bypass(device, replies);
    }
}

/// The removal of a device: it is detached, then the nested HWPT goes, then the vDevice, each if it
/// is there, and nothing else.
pub proof fn law_removal(device: BackendView)
    ensures
        match (device.current_nested_hwpt, device.vdevice_id) {
            (None, None) => device.teardown() == seq![KernelCall::Detach],
            (Some(nested), None) => device.teardown() == seq![
                KernelCall::Detach,
                KernelCall::Destroy { id: nested },
            ],
            (None, Some(vdevice)) => device.teardown() == seq![
                KernelCall::Detach,
                KernelCall::Destroy { id: vdevice },
            ],
            (Some(nested), Some(vdevice)) => device.teardown() == seq![
                KernelCall::Detach,
                KernelCall::Destroy { id: nested },
                KernelCall::Destroy { id: vdevice },
            ],
        },
{
}

} // verus!
