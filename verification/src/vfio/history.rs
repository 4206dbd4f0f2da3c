//! What holds of a device after any sequence of configurations: whatever the kernel answers, and
//! what more if it grants every request.

use super::iommufd_nesting::{AccelView, BackendView, KernelCall, KernelReply, StreamConfig};
use vstd::prelude::*;

verus! {

/// A configuration, and what the kernel answers while the device is switched to it.
pub struct Step {
    pub config: StreamConfig,
    pub replies: Seq<KernelReply>,
}

/// A request to the kernel and its answer.
pub struct Exchange {
    pub call: KernelCall,
    pub reply: KernelReply,
}

/// What has come of a sequence of configurations: all requests that were made, and the device.
#[verifier::ext_equal]
pub struct History {
    pub exchanges: Seq<Exchange>,
    pub device: BackendView,
}

/// The requests of the transition to a configuration, with their answers.
pub open spec fn step_exchanges(device: BackendView, step: Step) -> Seq<Exchange> {
    let calls = crate::vfio::laws::config_run(device, step.config, step.replies).calls;
    Seq::new(calls.len(), |i: int| Exchange { call: calls[i], reply: step.replies[i] })
}

/// The transitions to configurations, one after the other.
pub open spec fn history(start: BackendView, steps: Seq<Step>) -> History
    decreases steps.len(),
{
    if steps.len() == 0 {
        History { exchanges: Seq::empty(), device: start }
    } else {
        let before = history(start, steps.drop_last());
        let step = steps.last();
        History {
            exchanges: before.exchanges + step_exchanges(before.device, step),
            device: crate::vfio::laws::config_run(
                before.device,
                step.config,
                step.replies,
            ).device,
        }
    }
}

/// The kernel grants every request.
pub open spec fn granted(steps: Seq<Step>) -> bool {
    forall|i: int|
        0 <= i < steps.len() ==> (#[trigger] steps[i]).replies.len() >= 4 && forall|j: int|
            0 <= j < steps[i].replies.len() ==> #[trigger] steps[i].replies[j] is Ok
}

/// What `pick` finds in exchanges, in their order.
pub open spec fn picked<A>(
    exchanges: Seq<Exchange>,
    pick: spec_fn(Exchange) -> Option<A>,
) -> Seq<A>
    decreases exchanges.len(),
{
    if exchanges.len() == 0 {
        Seq::empty()
    } else {
        let rest = picked(exchanges.drop_last(), pick);
        match pick(exchanges.last()) {
            Some(a) => rest.push(a),
            None => rest,
        }
    }
}

/// The HWPTs that were allocated, in their order.
pub open spec fn allocated_hwpts(exchanges: Seq<Exchange>) -> Seq<u32> {
    picked(exchanges, pick_allocated())
}

/// The objects that were destroyed, in their order.
pub open spec fn destroyed(exchanges: Seq<Exchange>) -> Seq<u32> {
    picked(exchanges, pick_destroyed())
}

/// The stream IDs for which a vDevice was asked for, in their order.
pub open spec fn vdevice_sids(exchanges: Seq<Exchange>) -> Seq<u64> {
    picked(exchanges, pick_vdevice())
}

/// The HWPTs that the device was attached to, in their order.
pub open spec fn attachments(exchanges: Seq<Exchange>) -> Seq<u32> {
    picked(exchanges, pick_attached())
}

/// Finds the ID of a HWPT that was allocated.
pub open spec fn pick_allocated() -> spec_fn(Exchange) -> Option<u32> {
    |exchange: Exchange|
        match (exchange.call, exchange.reply) {
            (KernelCall::AllocHwpt { .. }, Ok(id)) => Some(id),
            _ => None,
        }
}

/// Finds the ID of an object that was destroyed.
pub open spec fn pick_destroyed() -> spec_fn(Exchange) -> Option<u32> {
    |exchange: Exchange|
        match (exchange.call, exchange.reply) {
            (KernelCall::Destroy { id }, Ok(_)) => Some(id),
            _ => None,
        }
}

/// Finds the stream ID for which a vDevice was asked for.
pub open spec fn pick_vdevice() -> spec_fn(Exchange) -> Option<u64> {
    |exchange: Exchange|
        match exchange.call {
            KernelCall::AllocVdevice { virtual_id, .. } => Some(virtual_id),
            _ => None,
        }
}

/// Finds the HWPT that the device was attached to.
pub open spec fn pick_attached() -> spec_fn(Exchange) -> Option<u32> {
    |exchange: Exchange|
        match (exchange.call, exchange.reply) {
            (KernelCall::Attach { hwpt_id }, Ok(_)) => Some(hwpt_id),
            _ => None,
        }
}

/// The vDevices that were allocated, in their order.
pub open spec fn vdevices_made(exchanges: Seq<Exchange>) -> Seq<u32> {
    picked(exchanges, pick_vdevice_made())
}

/// The objects that the kernel was asked to destroy, in their order.
pub open spec fn destroy_requests(exchanges: Seq<Exchange>) -> Seq<u32> {
    picked(exchanges, pick_destroy_request())
}

/// Finds the ID of a vDevice that was allocated.
pub open spec fn pick_vdevice_made() -> spec_fn(Exchange) -> Option<u32> {
    |exchange: Exchange|
        match (exchange.call, exchange.reply) {
            (KernelCall::AllocVdevice { .. }, Ok(id)) => Some(id),
            _ => None,
        }
}

/// Finds the ID of an object that was to be destroyed, whether it was or not.
pub open spec fn pick_destroy_request() -> spec_fn(Exchange) -> Option<u32> {
    |exchange: Exchange|
        match exchange.call {
            KernelCall::Destroy { id } => Some(id),
            _ => None,
        }
}

/// The kernel has answered all that a transition may ask.
pub open spec fn answered(steps: Seq<Step>) -> bool {
    forall|i: int| 0 <= i < steps.len() ==> (#[trigger] steps[i]).replies.len() >= 4
}

/// The last configuration that the device was switched to, if there was one.
pub open spec fn current_config(start: BackendView, steps: Seq<Step>) -> Option<StreamConfig>
    decreases steps.len(),
{
    if steps.len() == 0 {
        None
    } else {
        let device = history(start, steps.drop_last()).device;
        let step = steps.last();
        if crate::vfio::laws::config_run(device, step.config, step.replies).transition is Done {
            Some(step.config)
        } else {
            current_config(start, steps.drop_last())
        }
    }
}

/// The stream ID of the first configuration that translates.
pub open spec fn first_sid(steps: Seq<Step>) -> Option<u32>
    decreases steps.len(),
{
    if steps.len() == 0 {
        None
    } else {
        match (first_sid(steps.drop_last()), steps.last().config) {
            (Some(sid), _) => Some(sid),
            (None, StreamConfig::Translate { sid, .. }) => Some(sid),
            _ => None,
        }
    }
}

/// The sequence of a value that may be there.
pub open spec fn if_any<A>(value: Option<A>) -> Seq<A> {
    match value {
        Some(a) => seq![a],
        None => Seq::empty(),
    }
}

/// What is found in exchanges that follow others stands behind what is found in these.
proof fn lemma_picked_add<A>(
    first: Seq<Exchange>,
    second: Seq<Exchange>,
    pick: spec_fn(Exchange) -> Option<A>,
)
    ensures
        picked(first + second, pick) == picked(first, pick) + picked(second, pick),
    decreases second.len(),
{
    if second.len() == 0 {
        assert(first + second =~= first);
        assert(picked(first, pick) + picked(second, pick) =~= picked(first, pick));
    } else {
        lemma_picked_add(first, second.drop_last(), pick);
        assert((first + second).drop_last() =~= first + second.drop_last());
        assert((first + second).last() == second.last());
        assert(picked(first + second, pick) =~= picked(first, pick) + picked(second, pick));
    }
}

/// What is found in up to four exchanges.
proof fn lemma_picked_few<A>(exchanges: Seq<Exchange>, pick: spec_fn(Exchange) -> Option<A>)
    requires
        exchanges.len() <= 4,
    ensures
        picked(exchanges, pick) == (if exchanges.len() > 0 {
            if_any(pick(exchanges[0]))
        } else {
            Seq::empty()
        }) + (if exchanges.len() > 1 {
            if_any(pick(exchanges[1]))
        } else {
            Seq::empty()
        }) + (if exchanges.len() > 2 {
            if_any(pick(exchanges[2]))
        } else {
            Seq::empty()
        }) + (if exchanges.len() > 3 {
            if_any(pick(exchanges[3]))
        } else {
            Seq::empty()
        }),
    decreases exchanges.len(),
{
    if exchanges.len() > 0 {
        lemma_picked_few(exchanges.drop_last(), pick);
    }
}

/// What one transition that the kernel grants does, as far as its requests tell.
proof fn lemma_step(device: BackendView, step: Step)
    requires
        step.replies.len() >= 4,
        forall|j: int| 0 <= j < step.replies.len() ==> #[trigger] step.replies[j] is Ok,
    ensures
        ({
            let exchanges = step_exchanges(device, step);
            let run = crate::vfio::laws::config_run(device, step.config, step.replies);
            &&& run.transition is Done
            &&& run.device.accel == device.accel
            &&& run.device.dev_id == device.dev_id
            &&& allocated_hwpts(exchanges) == (if step.config is Translate {
                if_any(run.device.current_nested_hwpt)
            } else {
                Seq::empty()
            })
            &&& destroyed(exchanges) == if_any(device.current_nested_hwpt)
            &&& vdevice_sids(exchanges) == (match (device.vdevice_id, step.config) {
                (None, StreamConfig::Translate { sid, .. }) => seq![sid as u64],
                _ => Seq::empty(),
            })
            &&& attachments(exchanges) == seq![attached_hwpt(run.device, step.config)]
            &&& run.device.current_nested_hwpt is Some <==> step.config is Translate
            &&& run.device.vdevice_id is Some <==> device.vdevice_id is Some
                || step.config is Translate
            &&& step.config matches StreamConfig::Translate { nested_ste, .. }
                ==> exchanges.contains(nested_allocation(run.device, nested_ste))
        }),
{
    let exchanges = step_exchanges(device, step);
    let run = crate::vfio::laws::config_run(device, step.config, step.replies);
    crate::vfio::laws::law_transition_ends(device, step.config, step.replies);
    assert(step.replies[0] is Ok && step.replies[1] is Ok && step.replies[2] is Ok
        && step.replies[3] is Ok);
    match step.config {
        StreamConfig::Abort => crate::vfio::laws::law_abort(device, step.replies),
        StreamConfig::Bypass => crate::vfio::laws::law_bypass(device, step.replies),
        StreamConfig::Translate { sid, nested_ste } => {
            crate::vfio::laws::law_translate(device, sid, nested_ste, step.replies);
            let i: int = if device.vdevice_id is Some {
                0
            } else {
                1
            };
            assert(exchanges[i] == nested_allocation(run.device, nested_ste));
        },
    }
    lemma_picked_few(exchanges, pick_allocated());
    lemma_picked_few(exchanges, pick_destroyed());
    lemma_picked_few(exchanges, pick_vdevice());
    lemma_picked_few(exchanges, pick_attached());
    assert(allocated_hwpts(exchanges) =~= (if step.config is Translate {
        if_any(run.device.current_nested_hwpt)
    } else {
        Seq::empty()
    }));
    assert(destroyed(exchanges) =~= if_any(device.current_nested_hwpt));
    assert(attachments(exchanges) =~= seq![attached_hwpt(run.device, step.config)]);
    assert(vdevice_sids(exchanges) =~= (match (device.vdevice_id, step.config) {
        (None, StreamConfig::Translate { sid, .. }) => seq![sid as u64],
        _ => Seq::empty(),
    }));
}

/// The HWPT that a configuration asks for: the shared ones, or the nested one of the device.
pub open spec fn attached_hwpt(device: BackendView, config: StreamConfig) -> u32 {
    match config {
        StreamConfig::Abort => device.accel.abort_hwpt_id,
        StreamConfig::Bypass => device.accel.s2_parent_hwpt_id,
        StreamConfig::Translate { .. } => device.current_nested_hwpt.unwrap(),
    }
}

/// The exchange in which the device got the nested HWPT that it has, made from `nested_ste`.
pub open spec fn nested_allocation(device: BackendView, nested_ste: [u64; 2]) -> Exchange {
    Exchange {
        call: KernelCall::AllocHwpt {
            nest_parent: false,
            dev_id: device.dev_id,
            parent_id: device.accel.viommu_id,
            ste: Some(nested_ste),
        },
        reply: Ok(device.current_nested_hwpt.unwrap()),
    }
}

/// After any sequence of configurations that the kernel grants, from the time that the backend is
/// made:
///
/// * the HWPTs that were destroyed, in their order, and then the current one, if any, are exactly
///   those that were allocated, so that each earlier one was destroyed once;
/// * a vDevice was asked for once, with the stream ID of the first configuration that translates,
///   or never, if there was none;
/// * a nested HWPT is current exactly if the last configuration translates, and it was made from
///   the stream table entry of that configuration;
/// * each configuration attached the device once, the last one to what it asks for.
pub proof fn law_any_configurations(accel: AccelView, dev_id: u32, steps: Seq<Step>)
    requires
        granted(steps),
    ensures
        ({
            let after = history(BackendView::bare(accel, dev_id), steps);
            &&& destroyed(after.exchanges) + if_any(after.device.current_nested_hwpt)
                == allocated_hwpts(after.exchanges)
            &&& vdevice_sids(after.exchanges) == (match first_sid(steps) {
                Some(sid) => seq![sid as u64],
                None => Seq::empty(),
            })
            &&& after.device.vdevice_id is Some <==> first_sid(steps) is Some
            &&& after.device.current_nested_hwpt is Some <==> steps.len() > 0
                && steps.last().config is Translate
            &&& attachments(after.exchanges).len() == steps.len()
            &&& steps.len() > 0 ==> attachments(after.exchanges).last() == attached_hwpt(
                after.device,
                steps.last().config,
            )
            &&& steps.len() > 0 ==> (steps.last().config matches StreamConfig::Translate {
                nested_ste,
                ..
            } ==> after.exchanges.contains(nested_allocation(after.device, nested_ste)))
            &&& after.device.accel == accel
            &&& after.device.dev_id == dev_id
        }),
    decreases steps.len(),
{
    let start = BackendView::bare(accel, dev_id);
    let after = history(start, steps);
    if steps.len() == 0 {
        assert(destroyed(after.exchanges) + if_any(after.device.current_nested_hwpt)
            =~= allocated_hwpts(after.exchanges));
    } else {
        let front = steps.drop_last();
        let step = steps[steps.len() - 1];
        assert forall|i: int| 0 <= i < front.len() implies front[i] == #[trigger] steps[i] by {}
        assert(granted(front)) by {
            assert forall|i: int| 0 <= i < front.len() implies (
            #[trigger] front[i]).replies.len() >= 4 && forall|j: int|
                0 <= j < front[i].replies.len() ==> #[trigger] front[i].replies[j] is Ok by {
                assert(front[i] == steps[i]);
            }
        }
        law_any_configurations(accel, dev_id, front);
        let before = history(start, front);
        let exchanges = step_exchanges(before.device, step);
        lemma_step(before.device, step);
        lemma_picked_add(before.exchanges, exchanges, pick_allocated());
        lemma_picked_add(before.exchanges, exchanges, pick_destroyed());
        lemma_picked_add(before.exchanges, exchanges, pick_vdevice());
        lemma_picked_add(before.exchanges, exchanges, pick_attached());
        assert(destroyed(after.exchanges) == allocated_hwpts(before.exchanges));
        assert(destroyed(after.exchanges) + if_any(after.device.current_nested_hwpt)
            =~= allocated_hwpts(after.exchanges));
        assert(vdevice_sids(after.exchanges) =~= (match first_sid(steps) {
            Some(sid) => seq![sid as u64],
            None => Seq::empty(),
        }));
        if let StreamConfig::Translate { nested_ste, .. } = step.config {
            let made = nested_allocation(after.device, nested_ste);
            let i = choose|i: int| 0 <= i < exchanges.len() && exchanges[i] == made;
            assert(after.exchanges[before.exchanges.len() + i] == made);
        }
    }
}

/// What one transition does, as far as its requests tell, whatever the kernel answers.
proof fn lemma_any_step(device: BackendView, step: Step)
    requires
        step.replies.len() >= 4,
    ensures
        ({
            let exchanges = step_exchanges(device, step);
            let run = crate::vfio::laws::config_run(device, step.config, step.replies);
            let made = allocated_hwpts(exchanges);
            &&& run.device.accel == device.accel
            &&& run.device.dev_id == device.dev_id
            &&& if_any(device.vdevice_id) + vdevices_made(exchanges) == if_any(
                run.device.vdevice_id,
            )
            &&& if run.transition is Done {
                &&& attachments(exchanges) == seq![attached_hwpt(run.device, step.config)]
                &&& destroy_requests(exchanges) == if_any(device.current_nested_hwpt)
                &&& made == if_any(run.device.current_nested_hwpt)
                &&& run.device.current_nested_hwpt is Some <==> step.config is Translate
            } else {
                &&& attachments(exchanges) == Seq::<u32>::empty()
                &&& destroy_requests(exchanges) == Seq::<u32>::empty()
                &&& run.device.current_nested_hwpt == device.current_nested_hwpt
            }
        }),
{
    let exchanges = step_exchanges(device, step);
    let run = crate::vfio::laws::config_run(device, step.config, step.replies);
    crate::vfio::laws::law_transition_ends(device, step.config, step.replies);
    match step.config {
        StreamConfig::Abort => crate::vfio::laws::law_abort(device, step.replies),
        StreamConfig::Bypass => crate::vfio::laws::law_bypass(device, step.replies),
        StreamConfig::Translate { sid, nested_ste } => {
            crate::vfio::laws::law_translate(device, sid, nested_ste, step.replies);
        },
    }
    lemma_picked_few(exchanges, pick_allocated());
    lemma_picked_few(exchanges, pick_destroy_request());
    lemma_picked_few(exchanges, pick_vdevice_made());
    lemma_picked_few(exchanges, pick_attached());
    assert(if_any(device.vdevice_id) + vdevices_made(exchanges) =~= if_any(run.device.vdevice_id));
    if run.transition is Done {
        assert(attachments(exchanges) =~= seq![attached_hwpt(run.device, step.config)]);
        assert(destroy_requests(exchanges) =~= if_any(device.current_nested_hwpt));
        assert(allocated_hwpts(exchanges) =~= if_any(run.device.current_nested_hwpt));
    } else {
        assert(attachments(exchanges) =~= Seq::empty());
        assert(destroy_requests(exchanges) =~= Seq::empty());
    }
}

/// The HWPTs that were to be destroyed, and then the current one, if any, are among those that
/// were allocated, and are different if those are.
proof fn lemma_next_own(
    own: Seq<u32>,
    made: Seq<u32>,
    next_own: Seq<u32>,
    next_made: Seq<u32>,
    new: Seq<u32>,
)
    requires
        next_made == made + new,
        next_own == own || next_own == own + new,
        forall|id: u32| #[trigger] own.contains(id) ==> made.contains(id),
        made.no_duplicates() ==> own.no_duplicates(),
    ensures
        forall|id: u32| #[trigger] next_own.contains(id) ==> next_made.contains(id),
        next_made.no_duplicates() ==> next_own.no_duplicates(),
{
    assert forall|id: u32| #[trigger] next_own.contains(id) implies next_made.contains(id) by {
        let i = choose|i: int| 0 <= i < next_own.len() && next_own[i] == id;
        if i < own.len() {
            assert(own.contains(own[i]));
            let j = choose|j: int| 0 <= j < made.len() && made[j] == id;
            assert(next_made[j] == id);
        } else {
            assert(next_made[made.len() + (i - own.len())] == id);
        }
    }
    if next_made.no_duplicates() {
        assert(made.no_duplicates()) by {
            assert forall|i: int, j: int|
                0 <= i < made.len() && 0 <= j < made.len() && i != j implies made[i] != made[j] by {
                assert(next_made[i] == made[i] && next_made[j] == made[j]);
            }
        }
        assert forall|i: int, j: int| 0 <= i < j < next_own.len() implies next_own[i]
            != next_own[j] by {
            if j < own.len() {
                assert(own[i] == next_own[i] && own[j] == next_own[j]);
            } else {
                let b = made.len() + (j - own.len());
                assert(next_made[b] == next_own[j]);
                if i < own.len() {
                    assert(own.contains(own[i]));
                    let a = choose|a: int| 0 <= a < made.len() && made[a] == own[i];
                    assert(next_made[a] == next_own[i]);
                } else {
                    assert(next_made[made.len() + (i - own.len())] == next_own[i]);
                }
            }
        }
    }
}

/// After any sequence of configurations, from the time that the backend is made, and whatever the
/// kernel answers:
///
/// * at most one vDevice was allocated, and it is the one that the device has;
/// * a nested HWPT is current exactly while the device translates, that is, if the last
///   configuration that it was switched to translates;
/// * the last successful attachment was to what that configuration asks for: to the current nested
///   HWPT, if there is one, and else to a shared one;
/// * every object that was to be destroyed is a HWPT that was allocated for the device, and as long
///   as the kernel does not give the same ID to two of these, none was to be destroyed twice, and
///   the current one was not.
pub proof fn law_any_answers(accel: AccelView, dev_id: u32, steps: Seq<Step>)
    requires
        answered(steps),
    ensures
        ({
            let start = BackendView::bare(accel, dev_id);
            let after = history(start, steps);
            let own = destroy_requests(after.exchanges) + if_any(
                after.device.current_nested_hwpt,
            );
            let made = allocated_hwpts(after.exchanges);
            let attached = attachments(after.exchanges);
            &&& vdevices_made(after.exchanges) == if_any(after.device.vdevice_id)
            &&& after.device.current_nested_hwpt is Some <==> (current_config(
                start,
                steps,
            ) matches Some(config) && config is Translate)
            &&& match current_config(start, steps) {
                Some(config) => attached.len() > 0 && attached.last() == attached_hwpt(
                    after.device,
                    config,
                ),
                None => attached.len() == 0,
            }
            &&& after.device.current_nested_hwpt matches Some(id) ==> attached.len() > 0
                && attached.last() == id
            &&& after.device.current_nested_hwpt is None && attached.len() > 0 ==> attached.last()
                == accel.abort_hwpt_id || attached.last() == accel.s2_parent_hwpt_id
            &&& forall|id: u32| #[trigger] own.contains(id) ==> made.contains(id)
            &&& made.no_duplicates() ==> own.no_duplicates()
            &&& made.no_duplicates() ==> (after.device.current_nested_hwpt matches Some(id)
                ==> !destroy_requests(after.exchanges).contains(id))
            &&& after.device.accel == accel
            &&& after.device.dev_id == dev_id
        }),
    decreases steps.len(),
{
    let start = BackendView::bare(accel, dev_id);
    let after = history(start, steps);
    let own = destroy_requests(after.exchanges) + if_any(after.device.current_nested_hwpt);
    let made = allocated_hwpts(after.exchanges);
    if steps.len() == 0 {
        assert(vdevices_made(after.exchanges) =~= if_any(after.device.vdevice_id));
    } else {
        let front = steps.drop_last();
        let step = steps[steps.len() - 1];
        assert forall|i: int| 0 <= i < front.len() implies (#[trigger] front[i]).replies.len()
            >= 4 by {
            assert(front[i] == steps[i]);
        }
        law_any_answers(accel, dev_id, front);
        let before = history(start, front);
        let exchanges = step_exchanges(before.device, step);
        let run = crate::vfio::laws::config_run(before.device, step.config, step.replies);
        lemma_any_step(before.device, step);
        lemma_picked_add(before.exchanges, exchanges, pick_allocated());
        lemma_picked_add(before.exchanges, exchanges, pick_destroy_request());
        lemma_picked_add(before.exchanges, exchanges, pick_vdevice_made());
        lemma_picked_add(before.exchanges, exchanges, pick_attached());
        let before_own = destroy_requests(before.exchanges) + if_any(
            before.device.current_nested_hwpt,
        );
        let new = allocated_hwpts(exchanges);
        if run.transition is Done {
            assert(own =~= before_own + new);
        } else {
            assert(destroy_requests(after.exchanges) =~= destroy_requests(before.exchanges));
            assert(attachments(after.exchanges) =~= attachments(before.exchanges));
        }
        lemma_next_own(before_own, allocated_hwpts(before.exchanges), own, made, new);
    }
    if made.no_duplicates() {
        if let Some(id) = after.device.current_nested_hwpt {
            let asked = destroy_requests(after.exchanges);
            if asked.contains(id) {
                let i = choose|i: int| 0 <= i < asked.len() && asked[i] == id;
                assert(own[i] == own[asked.len() as int]);
            }
        }
    }
}

/// The shared objects are never to be destroyed, whatever the kernel answers, as long as it does not
/// give their IDs to a HWPT that it allocates.
pub proof fn law_shared_objects_never_destroyed(
    accel: AccelView,
    dev_id: u32,
    steps: Seq<Step>,
    id: u32,
)
    requires
        answered(steps),
        crate::vfio::laws::is_shared(accel, id),
        !allocated_hwpts(history(BackendView::bare(accel, dev_id), steps).exchanges).contains(id),
    ensures
        !destroy_requests(history(BackendView::bare(accel, dev_id), steps).exchanges).contains(id),
        history(BackendView::bare(accel, dev_id), steps).device.current_nested_hwpt != Some(id),
{
    law_any_answers(accel, dev_id, steps);
    let after = history(BackendView::bare(accel, dev_id), steps);
    let asked = destroy_requests(after.exchanges);
    let own = asked + if_any(after.device.current_nested_hwpt);
    if asked.contains(id) {
        let i = choose|i: int| 0 <= i < asked.len() && asked[i] == id;
        assert(own[i] == id);
        assert(own.contains(id));
    }
    if after.device.current_nested_hwpt == Some(id) {
        assert(own[asked.len() as int] == id);
        assert(own.contains(id));
    }
}

} // verus!
