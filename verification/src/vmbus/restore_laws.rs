//! What holds of the restore of a whole saved state into a server none of whose offers has been
//! claimed, such as one without offers: exactly which saved states such a server can restore, and
//! that it saves again what was restored.

use super::channels;
use super::channels::{MnfUsage, OfferId, RestoreState};
use super::protocol::{ChannelId, GpadlId, ProtocolView};
use super::saved_data::{SavedConnectionView, SavedStateView};
use super::saved_state::{Channel, ChannelState, GpadlView, RangeError, RestoreError};
use super::server::{Server, ServerView};
use super::tables::GpadlEntryView;
use vstd::prelude::*;

verus! {

/// None of the server's offers has been claimed: the guest knows of none of them, and none is part
/// of a restore. They have different keys. No channel ID is in use, and there are no GPADLs.
pub open spec fn unclaimed(server: ServerView) -> bool {
    &&& forall|k: int|
        0 <= k < server.channels.len() ==> (#[trigger] server.channels[k] matches Some(channel)
            ==> channel.state is ClientReleased && channel.restore_state == RestoreState::New)
    &&& forall|k: int, l: int|
        0 <= k < l < server.channels.len() && #[trigger] server.channels[k] is Some
            && #[trigger] server.channels[l] is Some
            ==> server.channels[k].unwrap().offer.spec_key()
            != server.channels[l].unwrap().offer.spec_key()
    &&& forall|k: int| 0 <= k < server.assigned.len() ==> #[trigger] server.assigned[k] is None
    &&& server.gpadls.len() == 0
    &&& server.incomplete == Map::<u32, OfferId>::empty()
}

/// A server without offers has none that is claimed.
pub proof fn law_fresh_is_unclaimed(protocol: ProtocolView, max_channels: nat)
    ensures
        unclaimed(ServerView::fresh(protocol, max_channels)),
{
}

/// A well-formed server without channels and GPADLs has no offer that is claimed, whatever its
/// connection and its messages are.
pub proof fn law_empty_is_unclaimed(server: ServerView)
    requires
        server.wf(),
        forall|k: int| 0 <= k < server.channels.len() ==> #[trigger] server.channels[k] is None,
        server.gpadls.len() == 0,
        server.incomplete == Map::<u32, OfferId>::empty(),
    ensures
        unclaimed(server),
{
    assert forall|k: int| 0 <= k < server.assigned.len() implies #[trigger] server.assigned[
        k
    ] is None by {
        if let Some(offer_id) = server.assigned[k] {
            assert(crate::vmbus::tables::is_offer(server.channels, offer_id));
        }
    }
}

/// An offer with the key of the saved channel, if it comes with a monitor ID, comes with the one
/// that is saved.
pub open spec fn relay_matches(server: ServerView, saved: Channel) -> bool {
    forall|k: int|
        0 <= k < server.channels.len() && #[trigger] server.channels[k] is Some
            && server.channels[k].unwrap().offer.spec_key() == saved.key ==> (
        server.channels[k].unwrap().offer.use_mnf matches MnfUsage::Relayed { monitor_id }
            ==> saved.monitor_id == Some(monitor_id))
}

/// The offers that come with a monitor ID come with the saved ones.
pub open spec fn relays_match(server: ServerView, saved: Seq<Channel>) -> bool {
    forall|i: int| 0 <= i < saved.len() ==> relay_matches(server, #[trigger] saved[i])
}

/// A saved channel that can be restored by itself, where `max_channels` channel IDs can be handed
/// out.
pub open spec fn channel_valid(
    saved: Channel,
    protocol: ProtocolView,
    max_channels: nat,
) -> bool {
    &&& saved.state.spec_restore(protocol) is Ok
    &&& 1 <= saved.channel_id <= max_channels
}

/// Saved channels that can be restored: each can by itself, and no two have the same key or the
/// same channel ID.
pub open spec fn channels_valid(
    saved: Seq<Channel>,
    protocol: ProtocolView,
    max_channels: nat,
) -> bool {
    &&& forall|i: int|
        0 <= i < saved.len() ==> channel_valid(#[trigger] saved[i], protocol, max_channels)
    &&& forall|i: int, j: int|
        0 <= i < j < saved.len() ==> (#[trigger] saved[i]).key != (#[trigger] saved[j]).key
            && saved[i].channel_id != saved[j].channel_id
}

/// `restored` has the saved channel in slot `k`: on top of the offer that `start` has with its key,
/// or, if there is none, as a stand-in.
pub open spec fn placed_at(
    restored: ServerView,
    start: ServerView,
    saved: Channel,
    k: int,
) -> bool {
    let channel = crate::vmbus::offered_laws::placed_channel(start, saved, k);
    &&& 0 <= k < restored.channels.len()
    &&& restored.channels[k] == Some(channel)
    &&& channel.offer.spec_key() == saved.key
    &&& channel.restore_state == RestoreState::Restoring <==> crate::vmbus::offered_laws::offers(
        start,
        saved.key,
    )
    &&& restored.assigned[saved.channel_id - 1] == Some(OfferId(k as usize))
}

/// `restored` is `start` with the saved channels in it, the first in slot `at[0]` and so on. Every
/// other offer is as it was.
pub open spec fn is_placed(
    restored: ServerView,
    start: ServerView,
    saved: Seq<Channel>,
    at: Seq<int>,
) -> bool {
    &&& at.len() == saved.len()
    &&& start.channels.len() <= restored.channels.len() <= start.channels.len() + saved.len()
    &&& forall|i: int|
        0 <= i < saved.len() ==> placed_at(restored, start, #[trigger] saved[i], at[i])
    &&& forall|i: int, j: int| 0 <= i < j < saved.len() ==> #[trigger] at[i] != #[trigger] at[j]
    &&& forall|k: int|
        #![trigger restored.channels[k]]
        #![trigger at.contains(k)]
        0 <= k < restored.channels.len() ==> at.contains(k) || k < start.channels.len()
            && restored.channels[k] == start.channels[k]
    &&& restored.assigned.len() == start.assigned.len()
    &&& forall|k: int|
        0 <= k < restored.assigned.len() && #[trigger] restored.assigned[k] is Some ==> exists|
            i: int,
        |
            0 <= i < saved.len() && (#[trigger] saved[i]).channel_id == k + 1
    &&& restored == ServerView {
        channels: restored.channels,
        assigned: restored.assigned,
        ..start
    }
}

/// The first slots, in their order.
pub open spec fn in_order(n: nat) -> Seq<int> {
    Seq::new(n, |i: int| i)
}

/// A server none of whose offers is claimed restores channels exactly if they are valid and the
/// offers that come with a monitor ID match. The slots that the channels get are returned.
proof fn lemma_place_channels(start: ServerView, saved: Seq<Channel>) -> (at: Seq<int>)
    requires
        unclaimed(start),
    ensures
        start.restore_channels(saved).outcome is Done <==> channels_valid(
            saved,
            start.protocol,
            start.assigned.len(),
        ) && relays_match(start, saved),
        start.restore_channels(saved).outcome is Done ==> is_placed(
            start.restore_channels(saved).server,
            start,
            saved,
            at,
        ),
        start.restore_channels(saved).outcome is Done && start.channels.len() == 0 ==> at
            == in_order(saved.len()),
    decreases saved.len(),
{
    let max = start.assigned.len();
    if saved.len() == 0 {
        assert(in_order(0) =~= Seq::empty());
        Seq::empty()
    } else {
        let front = saved.drop_last();
        let n = front.len() as int;
        let at = lemma_place_channels(start, front);
        assert forall|i: int| 0 <= i < n implies front[i] == #[trigger] saved[i] by {}
        if channels_valid(saved, start.protocol, max) && relays_match(start, saved) {
            assert(channels_valid(front, start.protocol, max));
            assert(relays_match(start, front)) by {
                assert forall|i: int| 0 <= i < n implies relay_matches(
                    start,
                    #[trigger] front[i],
                ) by {
                    assert(relay_matches(start, saved[i]));
                }
            }
        }
        if start.restore_channels(front).outcome is Done {
            let before = start.restore_channels(front).server;
            let m = lemma_place_next(before, start, saved, at);
            assert(at.len() == n);
            if start.channels.len() == 0 && start.restore_channels(saved).outcome is Done {
                assert(at.push(m) =~= in_order(saved.len()));
            }
            at.push(m)
        } else {
            at
        }
    }
}

/// The slots in which a key is found, before one more channel is placed.
pub proof fn lemma_key_found(
    before: ServerView,
    start: ServerView,
    front: Seq<Channel>,
    at: Seq<int>,
    k: int,
    l: int,
)
    requires
        unclaimed(start),
        is_placed(before, start, front, at),
        0 <= k < before.channels.len(),
        0 <= l < before.channels.len(),
        before.channels[k] is Some,
        before.channels[l] is Some,
        before.channels[k].unwrap().offer.spec_key()
            == before.channels[l].unwrap().offer.spec_key(),
        forall|i: int, j: int|
            0 <= i < j < front.len() ==> (#[trigger] front[i]).key != (#[trigger] front[j]).key,
    ensures
        k == l,
{
    if k != l {
        lemma_slot_origin(before, start, front, at, k);
        lemma_slot_origin(before, start, front, at, l);
        let key = before.channels[k].unwrap().offer.spec_key();
        if at.contains(k) && at.contains(l) {
            let i = choose|i: int| 0 <= i < at.len() && at[i] == k;
            let j = choose|j: int| 0 <= j < at.len() && at[j] == l;
            assert(placed_at(before, start, front[i], k));
            assert(placed_at(before, start, front[j], l));
        } else if at.contains(k) {
            lemma_mixed_slots(before, start, front, at, k, l);
        } else if at.contains(l) {
            lemma_mixed_slots(before, start, front, at, l, k);
        }
    }
}

/// A slot holds a placed channel, or what it held before.
proof fn lemma_slot_origin(
    before: ServerView,
    start: ServerView,
    front: Seq<Channel>,
    at: Seq<int>,
    k: int,
)
    requires
        is_placed(before, start, front, at),
        0 <= k < before.channels.len(),
    ensures
        at.contains(k) || k < start.channels.len() && before.channels[k] == start.channels[k],
        k < start.channels.len() && start.channels[k] is Some ==> before.channels[k] is Some
            && before.channels[k].unwrap().offer == start.channels[k].unwrap().offer,
{
    if at.contains(k) {
        let i = choose|i: int| 0 <= i < at.len() && at[i] == k;
        assert(placed_at(before, start, front[i], k));
    } else {
        assert(before.channels[k] == start.channels[k]);
    }
}

/// A placed channel and an offer that is not claimed have different keys.
proof fn lemma_mixed_slots(
    before: ServerView,
    start: ServerView,
    front: Seq<Channel>,
    at: Seq<int>,
    k: int,
    l: int,
)
    requires
        unclaimed(start),
        is_placed(before, start, front, at),
        0 <= k < before.channels.len(),
        0 <= l < before.channels.len(),
        at.contains(k),
        !at.contains(l),
        before.channels[k] is Some,
        before.channels[l] is Some,
    ensures
        before.channels[k].unwrap().offer.spec_key()
            != before.channels[l].unwrap().offer.spec_key(),
{
    let i = choose|i: int| 0 <= i < at.len() && at[i] == k;
    assert(placed_at(before, start, front[i], k));
    assert(before.channels[l] == start.channels[l]);
    if start.channels[l].unwrap().offer.spec_key() == front[i].key {
        let p = crate::vmbus::tables::offers_key(front[i].key);
        crate::vmbus::search::lemma_first_where(start.channels, p);
        assert(p(start.channels[l]));
        assert(crate::vmbus::offered_laws::offers(start, front[i].key));
        assert(k < start.channels.len() && start.channels[k] is Some);
        assert(start.channels[k].unwrap().offer.spec_key() == front[i].key);
    }
}

/// The step of [`lemma_place_channels`] in which one more channel is placed, in the slot that is
/// returned.
proof fn lemma_place_next(
    before: ServerView,
    start: ServerView,
    saved: Seq<Channel>,
    at: Seq<int>,
) -> (m: int)
    requires
        unclaimed(start),
        saved.len() > 0,
        is_placed(before, start, saved.drop_last(), at),
        channels_valid(saved.drop_last(), start.protocol, start.assigned.len()),
        relays_match(start, saved.drop_last()),
    ensures
        ({
            let restored = before.restore_channel(saved.last());
            &&& restored.outcome is Done <==> channels_valid(
                saved,
                start.protocol,
                start.assigned.len(),
            ) && relays_match(start, saved)
            &&& restored.outcome is Done ==> is_placed(restored.server, start, saved, at.push(m))
            &&& restored.outcome is Done && start.channels.len() == 0 && at == in_order(
                (saved.len() - 1) as nat,
            ) ==> m == saved.len() - 1
        }),
{
    let front = saved.drop_last();
    let n = front.len() as int;
    let last = saved[n];
    let max = start.assigned.len();
    let p = crate::vmbus::tables::offers_key(last.key);
    let restored = before.restore_channel(last);
    assert forall|i: int| 0 <= i < n implies front[i] == #[trigger] saved[i] by {}
    crate::vmbus::search::lemma_first_where(before.channels, p);
    crate::vmbus::search::lemma_first_where(start.channels, p);
    let found = crate::vmbus::search::first_where(before.channels, p);
    let duplicate_key = exists|j: int| 0 <= j < n && (#[trigger] front[j]).key == last.key;
    let duplicate_id = exists|j: int|
        0 <= j < n && (#[trigger] front[j]).channel_id == last.channel_id;
    // The ID can be assigned exactly if it is in range and no channel before has it.
    assert(crate::vmbus::tables::assign_error(before.assigned, ChannelId(last.channel_id)) is None
        <==> 1 <= last.channel_id <= max && !duplicate_id) by {
        if 1 <= last.channel_id <= max {
            if before.assigned[last.channel_id - 1] is Some {
                let j = choose|j: int|
                    0 <= j < front.len() && (#[trigger] front[j]).channel_id == last.channel_id;
                assert(front[j].channel_id == last.channel_id);
            }
            if duplicate_id {
                let j = choose|j: int|
                    0 <= j < n && (#[trigger] front[j]).channel_id == last.channel_id;
                assert(placed_at(before, start, front[j], at[j]));
            }
        }
    }
    // The slot with the key is that of the duplicate, or an offer that is not claimed.
    if duplicate_key {
        let j = choose|j: int| 0 <= j < n && (#[trigger] front[j]).key == last.key;
        assert(placed_at(before, start, front[j], at[j]));
        assert(p(before.channels[at[j]]));
        lemma_key_found(before, start, front, at, found.unwrap(), at[j]);
        assert(saved[j].key == saved[n].key);
        assert(!(restored.outcome is Done));
    } else if found is Some {
        let i = found.unwrap();
        if at.contains(i) {
            let j = choose|j: int| 0 <= j < at.len() && at[j] == i;
            assert(placed_at(before, start, front[j], i));
        }
        assert(before.channels[i] == start.channels[i]);
        assert(start.channels[i].unwrap().offer.spec_key() == last.key);
        assert(p(start.channels[i]));
        assert(crate::vmbus::offered_laws::offers(start, last.key));
        let matched = start.channels[i].unwrap().offer.use_mnf matches MnfUsage::Relayed {
            monitor_id,
        } ==> last.monitor_id == Some(monitor_id);
        assert(relay_matches(start, last) <==> matched);
    } else {
        assert forall|k: int|
            0 <= k < start.channels.len() && #[trigger] start.channels[k] is Some implies
            start.channels[k].unwrap().offer.spec_key() != last.key by {
            lemma_slot_origin(before, start, front, at, k);
            assert(!p(before.channels[k]));
        }
        assert(relay_matches(start, last));
        assert(!crate::vmbus::offered_laws::offers(start, last.key));
    }
    let can = channel_valid(last, start.protocol, max) && !duplicate_key && !duplicate_id
        && relay_matches(start, last);
    assert(restored.outcome is Done <==> can);
    // And so are they valid together.
    if can {
        assert forall|i: int, j: int| 0 <= i < j < saved.len() implies (#[trigger] saved[i]).key
            != (#[trigger] saved[j]).key && saved[i].channel_id != saved[j].channel_id by {
            assert(front[i] == saved[i]);
            if j < n {
                assert(front[j] == saved[j]);
            }
        }
        assert forall|i: int| 0 <= i < saved.len() implies channel_valid(
            #[trigger] saved[i],
            start.protocol,
            max,
        ) && relay_matches(start, saved[i]) by {
            if i < n {
                assert(front[i] == saved[i]);
                assert(relay_matches(start, front[i]));
            }
        }
        let m = crate::vmbus::offered_laws::lemma_one_channel(before, last);
        assert(!at.contains(m)) by {
            if at.contains(m) {
                let j = choose|j: int| 0 <= j < at.len() && at[j] == m;
                assert(placed_at(before, start, front[j], m));
            }
        }
        if m < before.channels.len() {
            lemma_slot_origin(before, start, front, at, m);
        }
        assert(crate::vmbus::offered_laws::placed_channel(before, last, m)
            == crate::vmbus::offered_laws::placed_channel(start, last, m));
        assert(placed_at(restored.server, start, last, m));
        lemma_is_placed_next(before, restored.server, start, saved, at, m);
        if start.channels.len() == 0 && at == in_order(front.len()) {
            lemma_next_slot(before, start, front, at, m);
        }
        m
    } else {
        if channels_valid(saved, start.protocol, max) && relays_match(start, saved) {
            assert(channel_valid(saved[n], start.protocol, max));
            assert(relay_matches(start, saved[n]));
            assert(!duplicate_key) by {
                assert forall|j: int| 0 <= j < n implies (#[trigger] front[j]).key != last.key by {
                    assert(saved[j].key != saved[n].key);
                }
            }
            assert(!duplicate_id) by {
                assert forall|j: int| 0 <= j < n implies (#[trigger] front[j]).channel_id
                    != last.channel_id by {
                    assert(saved[j].channel_id != saved[n].channel_id);
                }
            }
        }
        0
    }
}

/// One more channel, in slot `m`, is placed.
proof fn lemma_is_placed_next(
    before: ServerView,
    after: ServerView,
    start: ServerView,
    saved: Seq<Channel>,
    at: Seq<int>,
    m: int,
)
    requires
        saved.len() > 0,
        is_placed(before, start, saved.drop_last(), at),
        channels_valid(saved, start.protocol, start.assigned.len()),
        !at.contains(m),
        placed_at(after, start, saved.last(), m),
        before.channels.len() <= after.channels.len() <= before.channels.len() + 1,
        after.channels.len() > before.channels.len() ==> m == before.channels.len(),
        forall|i: int|
            0 <= i < before.channels.len() && i != m ==> before.channels[i]
                == #[trigger] after.channels[i],
        after.assigned == before.assigned.update(
            saved.last().channel_id - 1,
            Some(OfferId(m as usize)),
        ),
        after == (ServerView { channels: after.channels, assigned: after.assigned, ..before }),
    ensures
        is_placed(after, start, saved, at.push(m)),
{
    let front = saved.drop_last();
    let n = front.len() as int;
    let last = saved[n];
    let all = at.push(m);
    assert forall|i: int| 0 <= i < n implies front[i] == #[trigger] saved[i] by {}
    assert(channel_valid(saved[n], start.protocol, start.assigned.len()));
    assert forall|i: int| 0 <= i < saved.len() implies placed_at(
        after,
        start,
        #[trigger] saved[i],
        all[i],
    ) by {
        if i < n {
            assert(placed_at(before, start, front[i], at[i]));
            assert(at.contains(at[i]));
            assert(after.channels[at[i]] == before.channels[at[i]]);
            assert(channel_valid(saved[i], start.protocol, start.assigned.len()));
            assert(saved[i].channel_id != saved[n].channel_id);
        }
    }
    assert forall|i: int, j: int| 0 <= i < j < saved.len() implies #[trigger] all[i]
        != #[trigger] all[j] by {
        assert(all[i] == at[i]);
        assert(at.contains(at[i]));
        if j < n {
            assert(all[j] == at[j]);
        }
    }
    assert forall|k: int|
        #![trigger after.channels[k]]
        #![trigger all.contains(k)]
        0 <= k < after.channels.len() implies all.contains(k) || k < start.channels.len()
        && after.channels[k] == start.channels[k] by {
        assert(all[n] == m);
        if k != m {
            assert(before.channels[k] == after.channels[k]);
            if at.contains(k) {
                let j = choose|j: int| 0 <= j < at.len() && at[j] == k;
                assert(all[j] == k);
            }
        }
    }
    assert forall|k: int|
        0 <= k < after.assigned.len() && #[trigger] after.assigned[k] is Some implies exists|
        i: int,
    |
        0 <= i < saved.len() && (#[trigger] saved[i]).channel_id == k + 1 by {
        if k == last.channel_id - 1 {
            assert(saved[n].channel_id == k + 1);
        } else {
            assert(before.assigned[k] is Some);
            let i = choose|i: int|
                0 <= i < front.len() && (#[trigger] front[i]).channel_id == k + 1;
            assert(saved[i].channel_id == k + 1);
        }
    }
}

/// Where there were no offers, the slots are used in their order.
proof fn lemma_next_slot(
    before: ServerView,
    start: ServerView,
    front: Seq<Channel>,
    at: Seq<int>,
    m: int,
)
    requires
        start.channels.len() == 0,
        at == in_order(front.len()),
        is_placed(before, start, front, at),
        !at.contains(m),
        0 <= m <= before.channels.len(),
    ensures
        m == front.len(),
{
    let n = front.len() as int;
    if 0 <= m < n {
        assert(at[m] == m);
    }
    if m < before.channels.len() {
        assert(before.channels[m] == start.channels[m]);
    }
    if before.channels.len() > n {
        assert(!at.contains(n)) by {
            if at.contains(n) {
                let j = choose|j: int| 0 <= j < at.len() && at[j] == n;
            }
        }
        assert(before.channels[n] == start.channels[n]);
    }
}

/// The index of the saved channel with an ID, where there is one.
pub open spec fn channel_index(saved: Seq<Channel>, channel_id: u32) -> int {
    choose|i: int| 0 <= i < saved.len() && (#[trigger] saved[i]).channel_id == channel_id
}

/// There is a saved channel with an ID.
pub open spec fn has_channel_id(saved: Seq<Channel>, channel_id: u32) -> bool {
    exists|i: int| 0 <= i < saved.len() && (#[trigger] saved[i]).channel_id == channel_id
}

/// A saved GPADL that can be restored by itself, where its ranges were validated with the result
/// `range`: its channel is saved too; it is incomplete or valid; and its channel is not revoked
/// while the device has yet to answer.
pub open spec fn gpadl_valid(
    saved: GpadlView,
    saved_channels: Seq<Channel>,
    range: Result<Seq<u64>, RangeError>,
) -> bool {
    &&& has_channel_id(saved_channels, saved.channel_id)
    &&& saved.state is InProgress || range is Ok
    &&& saved.state.allows_revoked() || !(saved_channels[channel_index(
        saved_channels,
        saved.channel_id,
    )].state is Revoked)
}

/// Saved GPADLs that can be restored: each can by itself, no two of a channel have the same ID,
/// and no two that are incomplete have the same ID at all.
pub open spec fn gpadls_valid(
    saved: Seq<GpadlView>,
    saved_channels: Seq<Channel>,
    ranges: Seq<Result<Seq<u64>, RangeError>>,
) -> bool {
    &&& forall|i: int|
        0 <= i < saved.len() ==> gpadl_valid(#[trigger] saved[i], saved_channels, ranges[i])
    &&& forall|i: int, j: int|
        0 <= i < j < saved.len() && (#[trigger] saved[i]).id == (#[trigger] saved[j]).id
            ==> saved[i].channel_id != saved[j].channel_id && !(saved[i].state is InProgress
            && saved[j].state is InProgress)
}

/// What becomes of a saved GPADL, where the saved channels are in the slots `at`.
pub open spec fn restored_entry(
    saved: GpadlView,
    saved_channels: Seq<Channel>,
    at: Seq<int>,
    range: Result<Seq<u64>, RangeError>,
) -> GpadlEntryView {
    GpadlEntryView {
        gpadl_id: GpadlId(saved.id),
        offer_id: OfferId(at[channel_index(saved_channels, saved.channel_id)] as usize),
        gpadl: channels::GpadlView {
            count: saved.count,
            buf: validated_buf(saved, range),
            state: saved.state.spec_restore(),
        },
    }
}

/// The buffer that a saved GPADL comes back with: the one that its validation gave, or the saved
/// one while it is incomplete.
pub open spec fn validated_buf(saved: GpadlView, range: Result<Seq<u64>, RangeError>) -> Seq<u64> {
    if saved.state is InProgress {
        saved.buf
    } else {
        range.unwrap()
    }
}

/// `restored` is `start`, a server without GPADLs, with the saved GPADLs in it. The incomplete
/// ones can be found by their ID.
pub open spec fn has_gpadls(
    restored: ServerView,
    start: ServerView,
    saved: Seq<GpadlView>,
    saved_channels: Seq<Channel>,
    at: Seq<int>,
    ranges: Seq<Result<Seq<u64>, RangeError>>,
) -> bool {
    &&& restored.gpadls == Seq::new(
        saved.len(),
        |i: int| restored_entry(saved[i], saved_channels, at, ranges[i]),
    )
    &&& forall|i: int|
        0 <= i < saved.len() && (#[trigger] saved[i]).state is InProgress
            ==> restored.incomplete.contains_key(saved[i].id) && restored.incomplete[saved[i].id]
            == restored.gpadls[i].offer_id
    &&& forall|id: u32| #[trigger]
        restored.incomplete.contains_key(id) ==> exists|i: int|
            0 <= i < saved.len() && (#[trigger] saved[i]).state is InProgress && saved[i].id == id
    &&& restored == ServerView {
        gpadls: restored.gpadls,
        incomplete: restored.incomplete,
        ..start
    }
}

/// The one saved channel with an ID.
pub proof fn lemma_channel_index(saved: Seq<Channel>, protocol: ProtocolView, max: nat, i: int)
    requires
        channels_valid(saved, protocol, max),
        0 <= i < saved.len(),
    ensures
        channel_index(saved, saved[i].channel_id) == i,
        has_channel_id(saved, saved[i].channel_id),
{
    let k = channel_index(saved, saved[i].channel_id);
    assert(saved[k].channel_id == saved[i].channel_id);
}

/// Where a saved GPADL goes in a server that has the saved channels.
proof fn lemma_gpadl_channel(
    server: ServerView,
    start: ServerView,
    saved_channels: Seq<Channel>,
    at: Seq<int>,
    channel_id: u32,
)
    requires
        server.channels.len() <= usize::MAX,
        channels_valid(saved_channels, start.protocol, start.assigned.len()),
        is_placed(
            ServerView { gpadls: start.gpadls, incomplete: start.incomplete, ..server },
            start,
            saved_channels,
            at,
        ),
    ensures
        match server.gpadl_channel(ChannelId(channel_id)) {
            None => !has_channel_id(saved_channels, channel_id),
            Some(offer_id) => {
                let i = channel_index(saved_channels, channel_id);
                &&& has_channel_id(saved_channels, channel_id)
                &&& 0 <= i < saved_channels.len()
                &&& offer_id == OfferId(at[i] as usize)
                &&& server.channels[offer_id.0 as int] is Some
                &&& server.channels[offer_id.0 as int].unwrap().state.spec_is_revoked()
                    <==> saved_channels[i].state is Revoked
            },
        },
{
    if has_channel_id(saved_channels, channel_id) {
        let i = channel_index(saved_channels, channel_id);
        assert(saved_channels[i].channel_id == channel_id);
        assert(channel_valid(saved_channels[i], start.protocol, start.assigned.len()));
        crate::vmbus::laws::law_channel_state_restored_and_saved(
            saved_channels[i].state,
            start.protocol,
            saved_channels[i].state.spec_restore(start.protocol).unwrap(),
        );
        assert(server.assigned[channel_id - 1] == Some(OfferId(at[i] as usize)));
    } else if 1 <= channel_id <= server.assigned.len() {
        assert(!(server.assigned[channel_id - 1] is Some));
    }
}

/// A server that has the saved channels, and no GPADLs, restores GPADLs exactly if they are valid.
proof fn lemma_restore_gpadls(
    server: ServerView,
    start: ServerView,
    saved_channels: Seq<Channel>,
    at: Seq<int>,
    saved: Seq<GpadlView>,
    ranges: Seq<Result<Seq<u64>, RangeError>>,
)
    requires
        start.gpadls.len() == 0,
        start.incomplete == Map::<u32, OfferId>::empty(),
        server.channels.len() <= usize::MAX,
        channels_valid(saved_channels, start.protocol, start.assigned.len()),
        is_placed(server, start, saved_channels, at),
        ranges.len() >= saved.len(),
    ensures
        server.restore_gpadls(saved, ranges).outcome is Done <==> gpadls_valid(
            saved,
            saved_channels,
            ranges,
        ),
        server.restore_gpadls(saved, ranges).outcome is Done ==> has_gpadls(
            server.restore_gpadls(saved, ranges).server,
            server,
            saved,
            saved_channels,
            at,
            ranges,
        ),
    decreases saved.len(),
{
    if saved.len() == 0 {
        assert(server.gpadls =~= Seq::new(
            saved.len(),
            |i: int| restored_entry(saved[i], saved_channels, at, ranges[i]),
        ));
    } else {
        let front = saved.drop_last();
        let last = saved.last();
        let n = front.len() as int;
        lemma_restore_gpadls(server, start, saved_channels, at, front, ranges);
        assert forall|i: int| 0 <= i < n implies front[i] == #[trigger] saved[i] by {}
        if !(server.restore_gpadls(front, ranges).outcome is Done) {
            if gpadls_valid(saved, saved_channels, ranges) {
                assert(gpadls_valid(front, saved_channels, ranges));
            }
        } else {
            let before = server.restore_gpadls(front, ranges).server;
            let range = ranges[n];
            assert(saved[n] == last);
            lemma_gpadl_channel(before, start, saved_channels, at, last.channel_id);
            match before.gpadl_channel(ChannelId(last.channel_id)) {
                None => {
                    assert(!gpadl_valid(saved[n], saved_channels, ranges[n]));
                },
                Some(offer_id) => {
                    let channel = before.channels[offer_id.0 as int].unwrap();
                    if last.spec_restore(channel, range) is Err {
                        assert(!gpadl_valid(saved[n], saved_channels, ranges[n]));
                    } else {
                        assert(gpadl_valid(saved[n], saved_channels, ranges[n]));
                        lemma_restore_next_gpadl(
                            before,
                            server,
                            start,
                            saved_channels,
                            at,
                            saved,
                            ranges,
                            offer_id,
                        );
                    }
                },
            }
        }
    }
}

/// The step of [`lemma_restore_gpadls`] in which a GPADL that is valid by itself is added.
proof fn lemma_restore_next_gpadl(
    before: ServerView,
    server: ServerView,
    start: ServerView,
    saved_channels: Seq<Channel>,
    at: Seq<int>,
    saved: Seq<GpadlView>,
    ranges: Seq<Result<Seq<u64>, RangeError>>,
    offer_id: OfferId,
)
    requires
        saved.len() > 0,
        server.channels.len() <= usize::MAX,
        channels_valid(saved_channels, start.protocol, start.assigned.len()),
        is_placed(server, start, saved_channels, at),
        has_gpadls(before, server, saved.drop_last(), saved_channels, at, ranges),
        gpadls_valid(saved.drop_last(), saved_channels, ranges),
        gpadl_valid(saved.last(), saved_channels, ranges[saved.len() - 1]),
        before.gpadl_channel(ChannelId(saved.last().channel_id)) == Some(offer_id),
        offer_id == OfferId(at[channel_index(saved_channels, saved.last().channel_id)] as usize),
        before.channels[offer_id.0 as int] is Some,
        saved.last().spec_restore(
            before.channels[offer_id.0 as int].unwrap(),
            ranges[saved.len() - 1],
        ) is Ok,
    ensures
        ({
            let restored = before.restore_gpadl(saved.last(), ranges[saved.len() - 1]);
            &&& restored.outcome is Done <==> gpadls_valid(saved, saved_channels, ranges)
            &&& restored.outcome is Done ==> has_gpadls(
                restored.server,
                server,
                saved,
                saved_channels,
                at,
                ranges,
            )
        }),
{
    let front = saved.drop_last();
    let last = saved.last();
    let n = front.len() as int;
    let range = ranges[n];
    let entries = before.gpadls;
    let gpadl_id = GpadlId(last.id);
    let is_entry = crate::vmbus::tables::is_entry(gpadl_id, offer_id);
    assert(saved[n] == last);
    assert forall|i: int| 0 <= i < n implies front[i] == #[trigger] saved[i] by {}
    assert forall|i: int| 0 <= i < n implies #[trigger] entries[i] == restored_entry(
        saved[i],
        saved_channels,
        at,
        ranges[i],
    ) by {
        assert(front[i] == saved[i]);
    }
    // A GPADL is in the same channel exactly if it is saved with the same channel ID.
    assert forall|i: int| 0 <= i < n implies (entries[i].offer_id == offer_id <==> (
    #[trigger] saved[i]).channel_id == last.channel_id) by {
        assert(gpadl_valid(front[i], saved_channels, ranges[i]));
        let k = channel_index(saved_channels, saved[i].channel_id);
        let l = channel_index(saved_channels, last.channel_id);
        assert(saved_channels[k].channel_id == saved[i].channel_id);
        assert(saved_channels[l].channel_id == last.channel_id);
        assert(k != l ==> at[k] != at[l]);
    }
    crate::vmbus::search::lemma_first_where(entries, is_entry);
    let restored = before.restore_gpadl(last, range);
    if crate::vmbus::tables::has_entry(entries, gpadl_id, offer_id) {
        let i = crate::vmbus::search::first_where(entries, is_entry).unwrap();
        assert(saved[i].id == saved[n].id && saved[i].channel_id == saved[n].channel_id);
        assert(!gpadls_valid(saved, saved_channels, ranges));
    } else {
        assert forall|i: int| 0 <= i < n && (#[trigger] saved[i]).id == last.id implies
            saved[i].channel_id != last.channel_id by {
            assert(!is_entry(entries[i]));
        }
        if last.state is InProgress && before.incomplete.contains_key(last.id) {
            let i = choose|i: int|
                0 <= i < front.len() && (#[trigger] front[i]).state is InProgress && front[i].id
                    == last.id;
            assert(saved[i].id == saved[n].id);
            assert(!gpadls_valid(saved, saved_channels, ranges));
        } else {
            assert(restored.outcome is Done);
            let after = restored.server;
            assert(after.gpadls =~= entries.push(restored_entry(last, saved_channels, at, range)));
            assert(after.gpadls =~= Seq::new(
                saved.len(),
                |i: int| restored_entry(saved[i], saved_channels, at, ranges[i]),
            ));
            assert forall|i: int|
                0 <= i < n && (#[trigger] saved[i]).id == last.id implies !(saved[i].state
                is InProgress && last.state is InProgress) by {
                assert(front[i] == saved[i]);
            }
            assert forall|i: int|
                0 <= i < saved.len() && (#[trigger] saved[i]).state is InProgress implies
                after.incomplete.contains_key(saved[i].id) && after.incomplete[saved[i].id]
                == after.gpadls[i].offer_id by {
                if i < n {
                    assert(front[i] == saved[i]);
                    assert(before.incomplete[front[i].id] == before.gpadls[i].offer_id);
                }
            }
            assert forall|id: u32| #[trigger]
                after.incomplete.contains_key(id) implies exists|i: int|
                0 <= i < saved.len() && (#[trigger] saved[i]).state is InProgress && saved[i].id
                    == id by {
                if before.incomplete.contains_key(id) {
                    let i = choose|i: int|
                        0 <= i < front.len() && (#[trigger] front[i]).state is InProgress
                            && front[i].id == id;
                    assert(saved[i].id == id);
                } else {
                    assert(saved[n].id == id);
                }
            }
            assert forall|i: int| 0 <= i < saved.len() implies gpadl_valid(
                #[trigger] saved[i],
                saved_channels,
                ranges[i],
            ) by {
                if i < n {
                    assert(front[i] == saved[i]);
                }
            }
            assert forall|i: int, j: int|
                0 <= i < j < saved.len() && (#[trigger] saved[i]).id == (
                #[trigger] saved[j]).id implies saved[i].channel_id != saved[j].channel_id && !(
            saved[i].state is InProgress && saved[j].state is InProgress) by {
                if j < n {
                    assert(front[i] == saved[i] && front[j] == saved[j]);
                }
            }
        }
    }
}

/// Messages are restored exactly if each is no longer than the protocol allows, and then stand
/// behind those that were there, in their order. Nothing else changes.
pub proof fn law_restored_messages(server: ServerView, saved: Seq<Seq<u8>>)
    ensures
        server.restore_messages(saved).outcome is Done <==> messages_valid(saved, server.protocol),
        server.restore_messages(saved).outcome is Done ==> server.restore_messages(saved).server
            == (ServerView { pending_messages: server.pending_messages + saved, ..server }),
    decreases saved.len(),
{
    if saved.len() == 0 {
        assert(server.pending_messages + saved =~= server.pending_messages);
    } else {
        let front = saved.drop_last();
        let n = front.len() as int;
        law_restored_messages(server, front);
        assert forall|i: int| 0 <= i < n implies front[i] == #[trigger] saved[i] by {}
        if messages_valid(saved, server.protocol) {
            assert(messages_valid(front, server.protocol));
            assert(saved[n].len() <= server.protocol.max_message_size);
        }
        if messages_valid(front, server.protocol) && saved.last().len()
            <= server.protocol.max_message_size {
            assert forall|i: int| 0 <= i < saved.len() implies (#[trigger] saved[i]).len()
                <= server.protocol.max_message_size by {
                if i < n {
                    assert(front[i] == saved[i]);
                }
            }
        }
        assert((server.pending_messages + front).push(saved.last()) =~= server.pending_messages
            + saved);
    }
}

/// Saved messages that can be restored.
pub open spec fn messages_valid(saved: Seq<Seq<u8>>, protocol: ProtocolView) -> bool {
    forall|i: int| 0 <= i < saved.len() ==> (#[trigger] saved[i]).len() <= protocol.max_message_size
}

/// A saved state that can be restored.
pub open spec fn saved_valid(
    saved: SavedStateView,
    protocol: ProtocolView,
    max_channels: nat,
    ranges: Seq<Result<Seq<u64>, RangeError>>,
) -> bool {
    &&& saved.state.connection matches Some(connection) ==> connection.spec_restore(protocol) is Ok
    &&& channels_valid(saved.state.channels, protocol, max_channels)
    &&& gpadls_valid(saved.state.gpadls, saved.state.channels, ranges)
    &&& messages_valid(saved.pending_messages, protocol)
}

/// `restored` is `start` with all of the saved state in it, the channels in the slots `at`.
pub open spec fn is_restored(
    restored: ServerView,
    start: ServerView,
    saved: SavedStateView,
    at: Seq<int>,
    ranges: Seq<Result<Seq<u64>, RangeError>>,
) -> bool {
    let with_gpadls = ServerView { pending_messages: start.pending_messages, ..restored };
    let with_channels = ServerView {
        gpadls: start.gpadls,
        incomplete: start.incomplete,
        ..with_gpadls
    };
    &&& is_placed(with_channels, start, saved.state.channels, at)
    &&& has_gpadls(
        with_gpadls,
        with_channels,
        saved.state.gpadls,
        saved.state.channels,
        at,
        ranges,
    )
    &&& restored.pending_messages == start.pending_messages + saved.pending_messages
}

/// The three parts of a restore one after the other.
proof fn lemma_restore_parts(
    start: ServerView,
    saved: SavedStateView,
    ranges: Seq<Result<Seq<u64>, RangeError>>,
) -> (at: Seq<int>)
    requires
        unclaimed(start),
        start.restore_channels(saved.state.channels).outcome is Done ==> start.restore_channels(
            saved.state.channels,
        ).server.channels.len() <= usize::MAX,
        ranges.len() == saved.state.gpadls.len(),
    ensures
        start.restore_contents(saved, ranges).outcome is Done <==> channels_valid(
            saved.state.channels,
            start.protocol,
            start.assigned.len(),
        ) && relays_match(start, saved.state.channels) && gpadls_valid(
            saved.state.gpadls,
            saved.state.channels,
            ranges,
        ) && messages_valid(saved.pending_messages, start.protocol),
        start.restore_contents(saved, ranges).outcome is Done ==> is_restored(
            start.restore_contents(saved, ranges).server,
            start,
            saved,
            at,
            ranges,
        ),
        start.restore_contents(saved, ranges).outcome is Done && start.channels.len() == 0 ==> at
            == in_order(saved.state.channels.len()),
{
    let at = lemma_place_channels(start, saved.state.channels);
    let with_channels = start.restore_channels(saved.state.channels);
    if with_channels.outcome is Done {
        lemma_restore_gpadls(
            with_channels.server,
            start,
            saved.state.channels,
            at,
            saved.state.gpadls,
            ranges,
        );
        let with_gpadls = with_channels.server.restore_gpadls(saved.state.gpadls, ranges);
        if with_gpadls.outcome is Done {
            law_restored_messages(with_gpadls.server, saved.pending_messages);
        }
    }
    at
}

/// A server none of whose offers is claimed, to which the notifier answers that it is in order,
/// restores a saved state exactly if it is valid and the offers that come with a monitor ID match:
/// no other saved state is accepted, and none is refused.
pub proof fn law_restore_accepts_exactly_valid(
    server: ServerView,
    saved: SavedStateView,
    ranges: Seq<Result<Seq<u64>, RangeError>>,
)
    requires
        unclaimed(server),
        server.channels.len() + saved.state.channels.len() <= usize::MAX,
        ranges.len() == saved.state.gpadls.len(),
    ensures
        server.restore(Ok(()), saved, ranges).outcome is Done <==> saved_valid(
            saved,
            server.protocol,
            server.assigned.len(),
            ranges,
        ) && relays_match(server, saved.state.channels),
{
    match server.restore_state(saved.state) {
        Err(_) => {},
        Ok(start) => {
            lemma_relays_of_connection(server, start, saved.state.channels);
            let at = lemma_place_channels(start, saved.state.channels);
            let at = lemma_restore_parts(start, saved, ranges);
        },
    }
}

/// The offers do not depend on the connection.
proof fn lemma_relays_of_connection(server: ServerView, start: ServerView, saved: Seq<Channel>)
    requires
        server.channels == start.channels,
    ensures
        relays_match(server, saved) == relays_match(start, saved),
{
    assert forall|c: Channel| relay_matches(server, c) == #[trigger] relay_matches(start, c) by {}
    if relays_match(server, saved) {
        assert forall|i: int| 0 <= i < saved.len() implies relay_matches(
            start,
            #[trigger] saved[i],
        ) by {
            assert(relay_matches(server, saved[i]));
        }
    }
    if relays_match(start, saved) {
        assert forall|i: int| 0 <= i < saved.len() implies relay_matches(
            server,
            #[trigger] saved[i],
        ) by {
            assert(relay_matches(start, saved[i]));
        }
    }
}

/// A restore adds no more slots than there are saved channels, and only its channels add any.
pub proof fn lemma_slots_added(
    server: ServerView,
    saved: SavedStateView,
    ranges: Seq<Result<Seq<u64>, RangeError>>,
    restored: ServerView,
)
    requires
        ranges.len() == saved.state.gpadls.len(),
        server.restore(Ok(()), saved, ranges) == restored.done(),
    ensures
        restored.channels == server.restore_state(saved.state).unwrap().restore_channels(
            saved.state.channels,
        ).server.channels,
        restored.channels.len() <= server.channels.len() + saved.state.channels.len(),
{
    let start = server.restore_state(saved.state).unwrap();
    let with_channels = start.restore_channels(saved.state.channels).server;
    let with_gpadls = with_channels.restore_gpadls(saved.state.gpadls, ranges).server;
    crate::vmbus::offered_laws::law_restored_channels(start, saved.state.channels);
    crate::vmbus::offered_laws::law_restored_gpadls(with_channels, saved.state.gpadls, ranges);
    law_restored_messages(with_gpadls, saved.pending_messages);
}

/// A restore into a server none of whose offers is claimed gives the server the saved connection,
/// each saved channel on top of its offer or as a stand-in and under its saved ID, the saved GPADLs
/// at their channels, and the saved messages behind those that were there, in their order. Nothing
/// else changes. The slots of the channels are returned.
pub proof fn law_restore_brings_back_everything(
    server: ServerView,
    saved: SavedStateView,
    ranges: Seq<Result<Seq<u64>, RangeError>>,
    restored: ServerView,
) -> (at: Seq<int>)
    requires
        unclaimed(server),
        restored.channels.len() <= usize::MAX,
        ranges.len() == saved.state.gpadls.len(),
        server.restore(Ok(()), saved, ranges) == restored.done(),
    ensures
        is_restored(
            restored,
            ServerView { state: restored.state, ..server },
            saved,
            at,
            ranges,
        ),
        server.channels.len() == 0 ==> at == in_order(saved.state.channels.len()),
        match saved.state.connection {
            Some(connection) => connection.spec_restore(server.protocol) == Ok::<_, RestoreError>(
                restored.state,
            ),
            None => restored.state is Disconnected,
        },
        saved_valid(saved, server.protocol, server.assigned.len(), ranges),
        relays_match(server, saved.state.channels),
{
    let start = server.restore_state(saved.state).unwrap();
    lemma_slots_added(server, saved, ranges, restored);
    lemma_relays_of_connection(server, start, saved.state.channels);
    lemma_restore_parts(start, saved, ranges)
}

/// The ranges of each complete GPADL were found valid as they are.
pub open spec fn ranges_kept(
    saved: Seq<GpadlView>,
    ranges: Seq<Result<Seq<u64>, RangeError>>,
) -> bool {
    &&& ranges.len() == saved.len()
    &&& forall|i: int|
        0 <= i < saved.len() && !((#[trigger] saved[i]).state is InProgress) ==> ranges[i] == Ok::<
            _,
            RangeError,
        >(saved[i].buf)
}

/// The saved state of a channel that is reserved.
pub open spec fn saved_is_reserved(saved: ChannelState) -> bool {
    match saved {
        ChannelState::Opening { reserved_state, .. } => reserved_state is Some,
        ChannelState::Open { reserved_state, .. } => reserved_state is Some,
        ChannelState::Closing { reserved_state, .. } => reserved_state is Some,
        _ => false,
    }
}

/// Without a connection, only reserved channels are saved.
pub open spec fn only_reserved(saved: SavedConnectionView) -> bool {
    saved.connection is None ==> forall|i: int|
        0 <= i < saved.channels.len() ==> saved_is_reserved((#[trigger] saved.channels[i]).state)
}

/// A saved state as it is saved today: with the client ID that its connection stands for.
pub open spec fn normalized(saved: SavedStateView) -> SavedStateView {
    SavedStateView {
        state: SavedConnectionView {
            connection: match saved.state.connection {
                Some(connection) => Some(crate::vmbus::laws::with_client_id(connection)),
                None => None,
            },
            ..saved.state
        },
        ..saved
    }
}

/// The saved GPADLs with the buffers that they come back with.
pub open spec fn validated(
    saved: Seq<GpadlView>,
    ranges: Seq<Result<Seq<u64>, RangeError>>,
) -> Seq<GpadlView> {
    Seq::new(
        saved.len(),
        |i: int| GpadlView { buf: validated_buf(saved[i], ranges[i]), ..saved[i] },
    )
}

/// Where the ranges were found valid as they are, the buffers are the saved ones.
pub proof fn law_validated_as_saved(
    saved: Seq<GpadlView>,
    ranges: Seq<Result<Seq<u64>, RangeError>>,
)
    requires
        ranges_kept(saved, ranges),
    ensures
        validated(saved, ranges) == saved,
{
    assert(validated(saved, ranges) =~= saved);
}

/// What is saved of a slot with a placed channel.
proof fn lemma_placed_slot_saved(
    restored: ServerView,
    start: ServerView,
    saved: Channel,
    k: int,
    max_channels: nat,
    reserved_only: bool,
)
    requires
        placed_at(restored, start, saved, k),
        channel_valid(saved, start.protocol, max_channels),
        reserved_only ==> saved_is_reserved(saved.state),
    ensures
        crate::vmbus::server::saved_slot(restored.channels[k], reserved_only) == Some(saved),
{
    let channel = crate::vmbus::offered_laws::placed_channel(start, saved, k);
    crate::vmbus::laws::law_channel_restored_and_saved(
        saved,
        start.protocol,
        channel.offer,
        channel.state,
        channel.restore_state,
    );
}

/// The saved channels that are placed are saved again, in some order.
proof fn lemma_placed_saved(
    restored: ServerView,
    start: ServerView,
    saved: Seq<Channel>,
    at: Seq<int>,
    reserved_only: bool,
)
    requires
        unclaimed(start),
        is_placed(restored, start, saved, at),
        channels_valid(saved, start.protocol, start.assigned.len()),
        reserved_only ==> forall|i: int|
            0 <= i < saved.len() ==> saved_is_reserved((#[trigger] saved[i]).state),
    ensures
        crate::vmbus::server::saved_channels(restored.channels, reserved_only).to_multiset()
            == saved.to_multiset(),
{
    let slots = restored.channels;
    let out = crate::vmbus::server::saved_channels(slots, reserved_only);
    assert forall|j: int| 0 <= j < out.len() implies saved.contains(#[trigger] out[j]) by {
        let k = crate::vmbus::saved_slots::lemma_saved_channel_slot(slots, reserved_only, j);
        let i = lemma_saved_slot_is_placed(restored, start, saved, at, k, reserved_only);
        assert(saved[i] == out[j]);
    }
    assert forall|i: int| 0 <= i < saved.len() implies out.contains(#[trigger] saved[i]) by {
        assert(placed_at(restored, start, saved[i], at[i]));
        lemma_placed_slot_saved(
            restored,
            start,
            saved[i],
            at[i],
            start.assigned.len(),
            reserved_only,
        );
        let j = crate::vmbus::saved_slots::lemma_slot_is_saved(slots, reserved_only, at[i]);
        assert(out[j] == saved[i]);
    }
    assert forall|j: int, l: int| 0 <= j < out.len() && 0 <= l < out.len() && j != l implies out[j]
        != out[l] by {
        if j < l {
            lemma_saved_differ(restored, start, saved, at, j, l, reserved_only);
        } else {
            lemma_saved_differ(restored, start, saved, at, l, j, reserved_only);
        }
    }
    assert(out.no_duplicates());
    assert(saved.no_duplicates()) by {
        assert forall|i: int, j: int|
            0 <= i < saved.len() && 0 <= j < saved.len() && i != j implies saved[i] != saved[j] by {
            if i < j {
                assert(saved[i].key != saved[j].key);
            } else {
                assert(saved[j].key != saved[i].key);
            }
        }
    }
    lemma_same_contents(out, saved);
}

/// A slot that is saved is that of a placed channel.
proof fn lemma_saved_slot_is_placed(
    restored: ServerView,
    start: ServerView,
    saved: Seq<Channel>,
    at: Seq<int>,
    k: int,
    reserved_only: bool,
) -> (i: int)
    requires
        unclaimed(start),
        is_placed(restored, start, saved, at),
        channels_valid(saved, start.protocol, start.assigned.len()),
        reserved_only ==> forall|i: int|
            0 <= i < saved.len() ==> saved_is_reserved((#[trigger] saved[i]).state),
        0 <= k < restored.channels.len(),
        crate::vmbus::server::saved_slot(restored.channels[k], reserved_only) is Some,
    ensures
        0 <= i < saved.len(),
        at[i] == k,
        crate::vmbus::server::saved_slot(restored.channels[k], reserved_only) == Some(saved[i]),
{
    assert(at.contains(k)) by {
        if !at.contains(k) {
            assert(restored.channels[k] == start.channels[k]);
        }
    }
    let i = choose|i: int| 0 <= i < at.len() && at[i] == k;
    assert(placed_at(restored, start, saved[i], at[i]));
    lemma_placed_slot_saved(restored, start, saved[i], k, start.assigned.len(), reserved_only);
    i
}

/// No channel is saved twice.
proof fn lemma_saved_differ(
    restored: ServerView,
    start: ServerView,
    saved: Seq<Channel>,
    at: Seq<int>,
    j: int,
    l: int,
    reserved_only: bool,
)
    requires
        unclaimed(start),
        is_placed(restored, start, saved, at),
        channels_valid(saved, start.protocol, start.assigned.len()),
        reserved_only ==> forall|i: int|
            0 <= i < saved.len() ==> saved_is_reserved((#[trigger] saved[i]).state),
        0 <= j < l < crate::vmbus::server::saved_channels(
            restored.channels,
            reserved_only,
        ).len(),
    ensures
        crate::vmbus::server::saved_channels(restored.channels, reserved_only)[j]
            != crate::vmbus::server::saved_channels(restored.channels, reserved_only)[l],
{
    let (k, m) = crate::vmbus::saved_slots::lemma_saved_channel_slots(
        restored.channels,
        reserved_only,
        j,
        l,
    );
    let a = lemma_saved_slot_is_placed(restored, start, saved, at, k, reserved_only);
    let b = lemma_saved_slot_is_placed(restored, start, saved, at, m, reserved_only);
    if a < b {
        assert(saved[a].key != saved[b].key);
    } else {
        assert(saved[b].key != saved[a].key);
    }
}

/// Two sequences without repetition that hold the same are the same up to order.
proof fn lemma_same_contents<A>(a: Seq<A>, b: Seq<A>)
    requires
        a.no_duplicates(),
        b.no_duplicates(),
        forall|i: int| 0 <= i < a.len() ==> b.contains(#[trigger] a[i]),
        forall|i: int| 0 <= i < b.len() ==> a.contains(#[trigger] b[i]),
    ensures
        a.to_multiset() == b.to_multiset(),
{
    broadcast use vstd::seq_lib::group_to_multiset_ensures;

    a.lemma_multiset_has_no_duplicates();
    b.lemma_multiset_has_no_duplicates();
    assert forall|x: A| a.to_multiset().count(x) == b.to_multiset().count(x) by {
        assert(a.contains(x) <==> b.contains(x));
        assert(a.contains(x) <==> a.to_multiset().count(x) > 0);
        assert(b.contains(x) <==> b.to_multiset().count(x) > 0);
        if a.contains(x) {
            assert(a.to_multiset().contains(x) && b.to_multiset().contains(x));
        }
    }
    assert(a.to_multiset() =~= b.to_multiset());
}

/// The stand-ins of saved channels are saved as these channels, in their order.
proof fn lemma_in_order_saved(
    restored: ServerView,
    start: ServerView,
    saved: Seq<Channel>,
    reserved_only: bool,
    n: int,
)
    requires
        start.channels.len() == 0,
        is_placed(restored, start, saved, in_order(saved.len())),
        channels_valid(saved, start.protocol, start.assigned.len()),
        reserved_only ==> forall|i: int|
            0 <= i < saved.len() ==> saved_is_reserved((#[trigger] saved[i]).state),
        0 <= n <= saved.len(),
    ensures
        restored.channels.len() == saved.len(),
        crate::vmbus::server::saved_channels(restored.channels.take(n), reserved_only)
            == saved.take(n),
    decreases n,
{
    let slots = restored.channels;
    let at = in_order(saved.len());
    assert(slots.len() == saved.len()) by {
        if slots.len() > saved.len() {
            let k = saved.len() as int;
            assert(!at.contains(k)) by {
                if at.contains(k) {
                    let j = choose|j: int| 0 <= j < at.len() && at[j] == k;
                }
            }
            assert(slots[k] == start.channels[k]);
        }
        if slots.len() < saved.len() {
            let i = saved.len() - 1;
            assert(placed_at(restored, start, saved[i], at[i]));
        }
    }
    if n > 0 {
        lemma_in_order_saved(restored, start, saved, reserved_only, n - 1);
        let last = saved[n - 1];
        assert(placed_at(restored, start, last, at[n - 1]));
        lemma_placed_slot_saved(
            restored,
            start,
            last,
            n - 1,
            start.assigned.len(),
            reserved_only,
        );
        assert(slots.take(n).drop_last() =~= slots.take(n - 1));
        assert(slots.take(n).last() == slots[n - 1]);
        assert(saved.take(n - 1).push(last) =~= saved.take(n));
    }
}

/// Restored GPADLs are saved with the buffers that they came back with.
proof fn lemma_entries_saved(
    restored: ServerView,
    start: ServerView,
    saved: Seq<GpadlView>,
    saved_channels: Seq<Channel>,
    at: Seq<int>,
    ranges: Seq<Result<Seq<u64>, RangeError>>,
)
    requires
        restored.channels.len() <= usize::MAX,
        ranges.len() >= saved.len(),
        is_placed(restored, start, saved_channels, at),
        gpadls_valid(saved, saved_channels, ranges),
    ensures
        crate::vmbus::server::saved_gpadls(
            Seq::new(
                saved.len(),
                |i: int| restored_entry(saved[i], saved_channels, at, ranges[i]),
            ),
            restored.channels,
        ) == validated(saved, ranges),
    decreases saved.len(),
{
    let entries = Seq::new(
        saved.len(),
        |i: int| restored_entry(saved[i], saved_channels, at, ranges[i]),
    );
    if saved.len() > 0 {
        let front = saved.drop_last();
        let n = front.len() as int;
        let last = saved[n];
        assert forall|i: int| 0 <= i < n implies front[i] == #[trigger] saved[i] by {}
        assert(gpadls_valid(front, saved_channels, ranges));
        lemma_entries_saved(restored, start, front, saved_channels, at, ranges);
        assert(entries.drop_last() =~= Seq::new(
            front.len(),
            |i: int| restored_entry(front[i], saved_channels, at, ranges[i]),
        ));
        assert(gpadl_valid(last, saved_channels, ranges[n]));
        let k = channel_index(saved_channels, last.channel_id);
        assert(saved_channels[k].channel_id == last.channel_id);
        assert(placed_at(restored, start, saved_channels[k], at[k]));
        let again = GpadlView { buf: validated_buf(last, ranges[n]), ..last };
        assert(crate::vmbus::server::saved_entry(entries.last(), restored.channels) == Some(
            again,
        ));
        assert(validated(front, ranges).push(again) =~= validated(saved, ranges));
    } else {
        assert(validated(saved, ranges) =~= Seq::empty());
    }
}

/// Two saved states are the same up to the order of their channels.
pub open spec fn same_up_to_order(a: SavedStateView, b: SavedStateView) -> bool {
    &&& a.state.connection == b.state.connection
    &&& a.state.channels.to_multiset() == b.state.channels.to_multiset()
    &&& a.state.gpadls == b.state.gpadls
    &&& a.pending_messages == b.pending_messages
}

/// What a server makes of a saved state that it restores and saves again: the client ID is there,
/// the GPADLs have the buffers that their validation gave, and the messages stand behind those
/// that the server had.
pub open spec fn saved_again(
    server: ServerView,
    saved: SavedStateView,
    ranges: Seq<Result<Seq<u64>, RangeError>>,
) -> SavedStateView {
    SavedStateView {
        state: SavedConnectionView {
            gpadls: validated(saved.state.gpadls, ranges),
            ..normalized(saved).state
        },
        pending_messages: server.pending_messages + saved.pending_messages,
    }
}

/// What a server none of whose offers is claimed has restored, it saves again, up to the order of
/// the channels, and in the same order if it had no slots. Without a connection only what is
/// reserved is saved, so that nothing else may have been in the saved state.
pub proof fn law_restored_state_is_saved_again(
    server: ServerView,
    saved: SavedStateView,
    ranges: Seq<Result<Seq<u64>, RangeError>>,
    restored: ServerView,
)
    requires
        unclaimed(server),
        restored.channels.len() <= usize::MAX,
        ranges.len() == saved.state.gpadls.len(),
        only_reserved(saved.state),
        server.restore(Ok(()), saved, ranges) == restored.done(),
    ensures
        same_up_to_order(restored.save(), saved_again(server, saved, ranges)),
        server.channels.len() == 0 ==> restored.save() == saved_again(server, saved, ranges),
{
    let at = law_restore_brings_back_everything(server, saved, ranges, restored);
    let start = ServerView { state: restored.state, ..server };
    let with_channels = ServerView {
        gpadls: start.gpadls,
        incomplete: start.incomplete,
        pending_messages: start.pending_messages,
        ..restored
    };
    let channels = saved.state.channels;
    let reserved_only = saved.state.connection is None;
    if let Some(connection) = saved.state.connection {
        crate::vmbus::laws::law_connection_restored_and_saved(
            connection,
            server.protocol,
            restored.state,
        );
    }
    lemma_placed_saved(with_channels, start, channels, at, reserved_only);
    if server.channels.len() == 0 {
        lemma_in_order_saved(
            with_channels,
            start,
            channels,
            reserved_only,
            channels.len() as int,
        );
        assert(restored.channels.take(channels.len() as int) =~= restored.channels);
        assert(channels.take(channels.len() as int) =~= channels);
    }
    lemma_entries_saved(with_channels, start, saved.state.gpadls, channels, at, ranges);
}

/// Whatever server a state was saved from: if a server none of whose offers is claimed and that
/// has no messages restores it, that server saves the same again, up to the order of the channels,
/// with the buffers that the validation of the GPADLs gave. Where the validation gave back the
/// buffers as they were, it is the same throughout.
pub proof fn law_save_restore_save(
    original: ServerView,
    server: ServerView,
    ranges: Seq<Result<Seq<u64>, RangeError>>,
    restored: ServerView,
)
    requires
        unclaimed(server),
        server.pending_messages.len() == 0,
        restored.channels.len() <= usize::MAX,
        ranges.len() == original.save().state.gpadls.len(),
        server.restore(Ok(()), original.save(), ranges) == restored.done(),
    ensures
        same_up_to_order(
            restored.save(),
            SavedStateView {
                state: SavedConnectionView {
                    gpadls: validated(original.save().state.gpadls, ranges),
                    ..original.save().state
                },
                ..original.save()
            },
        ),
        ranges_kept(original.save().state.gpadls, ranges) ==> same_up_to_order(
            restored.save(),
            original.save(),
        ),
        ranges_kept(original.save().state.gpadls, ranges) && server.channels.len() == 0
            ==> restored.save() == original.save(),
{
    let saved = original.save();
    crate::vmbus::saved_slots::law_save_is_normal(original);
    law_restored_state_is_saved_again(server, saved, ranges, restored);
    assert(server.pending_messages + saved.pending_messages =~= saved.pending_messages);
    if ranges_kept(saved.state.gpadls, ranges) {
        law_validated_as_saved(saved.state.gpadls, ranges);
    }
}

/// A state that one server has saved, and that another without channels, GPADLs and messages has
/// restored, is saved by that one again: the same connection, channels, GPADLs and messages, up to
/// the order of the channels. The buffers of complete GPADLs are those that their validation gave,
/// and so the saved ones where it gave these back.
pub proof fn law_empty_server_saves_again(
    original: Server,
    server: Server,
    ranges: Seq<Result<Seq<u64>, RangeError>>,
    restored: Server,
)
    requires
        server@.wf(),
        forall|k: int| 0 <= k < server@.channels.len() ==> #[trigger] server@.channels[k] is None,
        server@.gpadls.len() == 0,
        server@.incomplete == Map::<u32, OfferId>::empty(),
        server@.pending_messages.len() == 0,
        ranges.len() == original@.save().state.gpadls.len(),
        server@.restore(Ok(()), original@.save(), ranges) == restored@.done(),
    ensures
        same_up_to_order(
            restored@.save(),
            SavedStateView {
                state: SavedConnectionView {
                    gpadls: validated(original@.save().state.gpadls, ranges),
                    ..original@.save().state
                },
                ..original@.save()
            },
        ),
        ranges_kept(original@.save().state.gpadls, ranges) ==> same_up_to_order(
            restored@.save(),
            original@.save(),
        ),
{
    restored.channels.lemma_len();
    law_empty_is_unclaimed(server@);
    law_save_restore_save(original@, server@, ranges, restored@);
}

} // verus!
