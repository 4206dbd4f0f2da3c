//! Consistent servers: what a running server keeps up, what a restore brings back, and what makes
//! sure that a save can be restored.

use super::channels::OfferId;
use super::protocol::ProtocolView;
use super::saved_data::SavedStateView;
use super::saved_state::{Channel, RangeError};
use super::server::ServerView;
use super::tables::GpadlEntryView;
use vstd::prelude::*;

verus! {

impl ServerView {
    /// The offer in a slot is consistent: if the guest knows of it, the ID that the guest knows
    /// leads back to it; and the server supports its reservation, if it has one.
    pub open spec fn channel_consistent(self, i: int) -> bool {
        self.channels[i] matches Some(channel) ==> {
            &&& channel.info matches Some(info) ==> crate::vmbus::tables::assigned_to(
                self.assigned,
                info.channel_id,
            ) == Some(OfferId(i as usize))
            &&& crate::vmbus::laws::reservation(channel.state) matches Some(reserved)
                ==> crate::vmbus::laws::reserved_supported(reserved, self.protocol)
        }
    }

    /// A GPADL is consistent: its channel has not been released by the guest and, without a
    /// connection, is reserved; if the channel is revoked, the device has not been handed the
    /// GPADL, or has answered; and if it is incomplete, its ID leads to it.
    pub open spec fn gpadl_consistent(self, entry: GpadlEntryView) -> bool {
        let channel = self.channels[entry.offer_id.0 as int].unwrap();
        &&& crate::vmbus::tables::is_offer(self.channels, entry.offer_id)
        &&& !channel.state.spec_is_released()
        &&& self.state is Disconnected ==> channel.state.spec_is_reserved()
        &&& channel.state.spec_is_revoked() ==> entry.gpadl.state is InProgress
            || entry.gpadl.state is Accepted || entry.gpadl.state is OfferedTearingDown
        &&& entry.gpadl.state is InProgress ==> self.incomplete.contains_key(entry.gpadl_id.0)
            && self.incomplete[entry.gpadl_id.0] == entry.offer_id
    }

    /// What a running server keeps up: besides being well formed, it supports the version of its
    /// connection; its offers have different keys; offers and GPADLs are consistent; and its
    /// messages are no longer than the protocol allows.
    pub open spec fn consistent(self) -> bool {
        &&& self.wf()
        &&& crate::vmbus::laws::connection_supported(self.state, self.protocol)
        &&& forall|i: int|
            #![trigger self.channels[i]]
            0 <= i < self.channels.len() ==> self.channel_consistent(i)
        &&& forall|i: int, j: int|
            0 <= i < j < self.channels.len() && #[trigger] self.channels[i] is Some
                && #[trigger] self.channels[j] is Some
                ==> self.channels[i].unwrap().offer.spec_key()
                != self.channels[j].unwrap().offer.spec_key()
        &&& forall|i: int|
            0 <= i < self.gpadls.len() ==> self.gpadl_consistent(#[trigger] self.gpadls[i])
        &&& crate::vmbus::restore_laws::messages_valid(self.pending_messages, self.protocol)
    }
}

/// A server without offers is consistent.
pub proof fn law_fresh_is_consistent(protocol: ProtocolView, max_channels: nat)
    ensures
        ServerView::fresh(protocol, max_channels).consistent(),
{
}

/// The channels that a consistent server saves can be restored.
proof fn lemma_consistent_channels(server: ServerView)
    requires
        server.consistent(),
    ensures
        crate::vmbus::restore_laws::channels_valid(
            server.save().state.channels,
            server.protocol,
            server.assigned.len(),
        ),
        crate::vmbus::restore_laws::only_reserved(server.save().state),
        server.save().state.channels.len() <= usize::MAX,
{
    let slots = server.channels;
    let reserved_only = server.save().state.connection is None;
    let saved = server.save().state.channels;
    crate::vmbus::saved_slots::lemma_saved_channels_len(slots, reserved_only);
    assert forall|j: int| 0 <= j < saved.len() implies {
        &&& crate::vmbus::restore_laws::channel_valid(
            #[trigger] saved[j],
            server.protocol,
            server.assigned.len(),
        )
        &&& reserved_only ==> crate::vmbus::restore_laws::saved_is_reserved(saved[j].state)
    } by {
        let i = crate::vmbus::saved_slots::lemma_saved_channel_slot(slots, reserved_only, j);
        let channel = slots[i].unwrap();
        assert(server.channel_consistent(i));
        crate::vmbus::laws::law_channel_saved_and_restored(channel, saved[j]);
        crate::vmbus::laws::law_channel_state_saved_and_restored(channel.state, server.protocol);
    }
    assert forall|j: int, k: int| 0 <= j < k < saved.len() implies (#[trigger] saved[j]).key != (
    #[trigger] saved[k]).key && saved[j].channel_id != saved[k].channel_id by {
        let (i, l) = crate::vmbus::saved_slots::lemma_saved_channel_slots(slots, reserved_only, j, k);
        assert(slots[i] is Some && slots[l] is Some);
        assert(server.channel_consistent(i));
        assert(server.channel_consistent(l));
        crate::vmbus::laws::law_channel_saved_and_restored(slots[i].unwrap(), saved[j]);
        crate::vmbus::laws::law_channel_saved_and_restored(slots[l].unwrap(), saved[k]);
    }
}

/// The channel that a saved GPADL of a consistent server is saved with.
proof fn lemma_gpadl_channel_saved(server: ServerView, i: int) -> (j: int)
    requires
        server.consistent(),
        0 <= i < server.gpadls.len(),
        crate::vmbus::server::saved_entry(server.gpadls[i], server.channels) is Some,
    ensures
        0 <= j < server.save().state.channels.len(),
        Channel::spec_save(server.channels[server.gpadls[i].offer_id.0 as int].unwrap()) == Some(
            server.save().state.channels[j],
        ),
        server.save().state.channels[j].channel_id == crate::vmbus::server::saved_entry(
            server.gpadls[i],
            server.channels,
        ).unwrap().channel_id,
{
    let slots = server.channels;
    let reserved_only = server.save().state.connection is None;
    let entry = server.gpadls[i];
    let slot = entry.offer_id.0 as int;
    assert(server.gpadl_consistent(entry));
    let channel = slots[slot].unwrap();
    assert(server.channel_consistent(slot));
    crate::vmbus::laws::law_channel_state_saved_and_restored(channel.state, server.protocol);
    crate::vmbus::saved_slots::lemma_slot_is_saved(slots, reserved_only, slot)
}

/// The GPADLs that a consistent server saves can be restored.
proof fn lemma_consistent_gpadls(
    server: ServerView,
    ranges: Seq<Result<Seq<u64>, RangeError>>,
)
    requires
        server.consistent(),
        crate::vmbus::restore_laws::ranges_kept(server.save().state.gpadls, ranges),
    ensures
        crate::vmbus::restore_laws::gpadls_valid(
            server.save().state.gpadls,
            server.save().state.channels,
            ranges,
        ),
{
    let slots = server.channels;
    let entries = server.gpadls;
    let saved = server.save().state.gpadls;
    let saved_channels = server.save().state.channels;
    lemma_consistent_channels(server);
    assert forall|j: int| 0 <= j < saved.len() implies crate::vmbus::restore_laws::gpadl_valid(
        #[trigger] saved[j],
        saved_channels,
        ranges[j],
    ) by {
        let i = crate::vmbus::saved_slots::lemma_saved_gpadl_entry(entries, slots, j);
        let k = lemma_gpadl_channel_saved(server, i);
        assert(server.gpadl_consistent(entries[i]));
        crate::vmbus::restore_laws::lemma_channel_index(
            saved_channels,
            server.protocol,
            server.assigned.len(),
            k,
        );
    }
    assert forall|j: int, k: int|
        0 <= j < k < saved.len() && (#[trigger] saved[j]).id == (
        #[trigger] saved[k]).id implies saved[j].channel_id != saved[k].channel_id && !(
    saved[j].state is InProgress && saved[k].state is InProgress) by {
        let (i, l) = crate::vmbus::saved_slots::lemma_saved_gpadl_entries(entries, slots, j, k);
        assert(server.gpadl_consistent(entries[i]));
        assert(server.gpadl_consistent(entries[l]));
        assert(server.channel_consistent(entries[i].offer_id.0 as int));
        assert(server.channel_consistent(entries[l].offer_id.0 as int));
        assert(entries[i].gpadl_id == entries[l].gpadl_id);
    }
}

/// What a consistent server saves, a server without offers that supports the same can restore, if
/// the ranges of the GPADLs are found valid as they are.
pub proof fn law_save_is_valid(server: ServerView, ranges: Seq<Result<Seq<u64>, RangeError>>)
    requires
        server.consistent(),
        crate::vmbus::restore_laws::ranges_kept(server.save().state.gpadls, ranges),
    ensures
        crate::vmbus::restore_laws::saved_valid(
            server.save(),
            server.protocol,
            server.assigned.len(),
            ranges,
        ),
{
    lemma_consistent_channels(server);
    lemma_consistent_gpadls(server, ranges);
    crate::vmbus::laws::law_connection_saved_and_restored(server.state, server.protocol);
}

/// `target` can take on what `server` saves: it supports the same, none of its offers is claimed,
/// those that come with a monitor ID match, and it has no messages of its own.
pub open spec fn takes_on(target: ServerView, server: ServerView) -> bool {
    &&& crate::vmbus::restore_laws::unclaimed(target)
    &&& crate::vmbus::restore_laws::relays_match(target, server.save().state.channels)
    &&& target.protocol == server.protocol
    &&& target.assigned.len() == server.assigned.len()
    &&& target.pending_messages.len() == 0
    &&& target.channels.len() + server.save().state.channels.len() <= usize::MAX
}

/// A server without offers that supports the same can take on what a consistent server saves.
pub proof fn law_fresh_takes_on(server: ServerView)
    requires
        server.consistent(),
    ensures
        takes_on(ServerView::fresh(server.protocol, server.assigned.len()), server),
{
    lemma_consistent_channels(server);
}

/// A consistent server that is saved, and restored into one that can take it on, comes back: the
/// restore succeeds, the connection is as it was once it has settled, and the restored server
/// saves the same state, up to the order of the channels. Where there were no slots, it is the
/// very same.
pub proof fn law_save_then_restore(
    server: ServerView,
    target: ServerView,
    ranges: Seq<Result<Seq<u64>, RangeError>>,
    restored: ServerView,
)
    requires
        server.consistent(),
        takes_on(target, server),
        crate::vmbus::restore_laws::ranges_kept(server.save().state.gpadls, ranges),
        restored == target.restore(Ok(()), server.save(), ranges).server,
    ensures
        target.restore(Ok(()), server.save(), ranges) == restored.done(),
        restored.state == crate::vmbus::laws::settled_connection(server.state),
        crate::vmbus::restore_laws::same_up_to_order(restored.save(), server.save()),
        target.channels.len() == 0 ==> restored.save() == server.save(),
{
    law_save_is_valid(server, ranges);
    crate::vmbus::restore_laws::law_restore_accepts_exactly_valid(target, server.save(), ranges);
    crate::vmbus::restore_laws::lemma_slots_added(target, server.save(), ranges, restored);
    let at = crate::vmbus::restore_laws::law_restore_brings_back_everything(
        target,
        server.save(),
        ranges,
        restored,
    );
    crate::vmbus::restore_laws::law_save_restore_save(server, target, ranges, restored);
    crate::vmbus::laws::law_connection_saved_and_restored(server.state, server.protocol);
}

/// Each channel that a consistent server saves comes back: its offer's key, what the guest was
/// told of it, and its state, once it has settled, are as they were, and its ID leads to it.
pub proof fn law_channels_come_back(
    server: ServerView,
    target: ServerView,
    ranges: Seq<Result<Seq<u64>, RangeError>>,
    restored: ServerView,
    i: int,
) -> (j: int)
    requires
        server.consistent(),
        takes_on(target, server),
        crate::vmbus::restore_laws::ranges_kept(server.save().state.gpadls, ranges),
        restored == target.restore(Ok(()), server.save(), ranges).server,
        0 <= i < server.channels.len(),
        crate::vmbus::server::saved_slot(
            server.channels[i],
            server.state is Disconnected,
        ) is Some,
    ensures
        0 <= j < restored.channels.len(),
        restored.channels[j] is Some,
        restored.channels[j].unwrap().info == server.channels[i].unwrap().info,
        restored.channels[j].unwrap().offer.spec_key()
            == server.channels[i].unwrap().offer.spec_key(),
        restored.channels[j].unwrap().state == crate::vmbus::laws::settled_channel_state(
            server.channels[i].unwrap().state,
        ),
        restored.assigned[server.channels[i].unwrap().info.unwrap().channel_id.0 - 1] == Some(
            OfferId(j as usize),
        ),
{
    let saved = server.save().state.channels;
    let reserved_only = server.save().state.connection is None;
    law_save_then_restore(server, target, ranges, restored);
    crate::vmbus::restore_laws::lemma_slots_added(target, server.save(), ranges, restored);
    let at = crate::vmbus::restore_laws::law_restore_brings_back_everything(
        target,
        server.save(),
        ranges,
        restored,
    );
    let j = crate::vmbus::saved_slots::lemma_slot_is_saved(server.channels, reserved_only, i);
    let channel = server.channels[i].unwrap();
    assert(server.channel_consistent(i));
    crate::vmbus::laws::law_channel_saved_and_restored(channel, saved[j]);
    crate::vmbus::laws::law_channel_state_saved_and_restored(channel.state, server.protocol);
    lemma_restored_slot(target, server.save(), ranges, restored, at, j);
    at[j]
}

/// The slot of a saved channel in a restored server.
proof fn lemma_restored_slot(
    target: ServerView,
    saved: SavedStateView,
    ranges: Seq<Result<Seq<u64>, RangeError>>,
    restored: ServerView,
    at: Seq<int>,
    j: int,
)
    requires
        crate::vmbus::restore_laws::is_restored(
            restored,
            ServerView { state: restored.state, ..target },
            saved,
            at,
            ranges,
        ),
        0 <= j < saved.state.channels.len(),
    ensures
        0 <= at[j] < restored.channels.len(),
        restored.channels[at[j]] is Some,
        restored.channels[at[j]].unwrap().info == Some(saved.state.channels[j].spec_info()),
        restored.channels[at[j]].unwrap().offer.spec_key() == saved.state.channels[j].key,
        restored.channels[at[j]].unwrap().state == saved.state.channels[j].state.spec_restore(
            target.protocol,
        ).unwrap(),
        restored.assigned[saved.state.channels[j].channel_id - 1] == Some(OfferId(at[j] as usize)),
{
    let start = ServerView { state: restored.state, ..target };
    let with_channels = ServerView {
        gpadls: start.gpadls,
        incomplete: start.incomplete,
        pending_messages: start.pending_messages,
        ..restored
    };
    assert(crate::vmbus::restore_laws::placed_at(
        with_channels,
        start,
        saved.state.channels[j],
        at[j],
    ));
}

/// Each GPADL that a consistent server saves comes back as it was, at the channel that it was at.
pub proof fn law_gpadls_come_back(
    server: ServerView,
    target: ServerView,
    ranges: Seq<Result<Seq<u64>, RangeError>>,
    restored: ServerView,
    i: int,
) -> (j: int)
    requires
        server.consistent(),
        takes_on(target, server),
        crate::vmbus::restore_laws::ranges_kept(server.save().state.gpadls, ranges),
        restored == target.restore(Ok(()), server.save(), ranges).server,
        0 <= i < server.gpadls.len(),
        crate::vmbus::server::saved_entry(server.gpadls[i], server.channels) is Some,
    ensures
        0 <= j < restored.gpadls.len(),
        restored.gpadls[j].gpadl_id == server.gpadls[i].gpadl_id,
        restored.gpadls[j].gpadl == server.gpadls[i].gpadl,
        crate::vmbus::tables::is_offer(restored.channels, restored.gpadls[j].offer_id),
        restored.channels[restored.gpadls[j].offer_id.0 as int].unwrap().info
            == server.channels[server.gpadls[i].offer_id.0 as int].unwrap().info,
{
    let saved = server.save().state.gpadls;
    let saved_channels = server.save().state.channels;
    law_save_then_restore(server, target, ranges, restored);
    lemma_consistent_channels(server);
    crate::vmbus::restore_laws::lemma_slots_added(target, server.save(), ranges, restored);
    let at = crate::vmbus::restore_laws::law_restore_brings_back_everything(
        target,
        server.save(),
        ranges,
        restored,
    );
    let j = crate::vmbus::saved_slots::lemma_entry_is_saved(server.gpadls, server.channels, i);
    let k = lemma_gpadl_channel_saved(server, i);
    crate::vmbus::restore_laws::lemma_channel_index(
        saved_channels,
        server.protocol,
        server.assigned.len(),
        k,
    );
    let channel = server.channels[server.gpadls[i].offer_id.0 as int].unwrap();
    crate::vmbus::laws::law_channel_saved_and_restored(channel, saved_channels[k]);
    lemma_restored_slot(target, server.save(), ranges, restored, at, k);
    assert(restored.gpadls[j] == crate::vmbus::restore_laws::restored_entry(
        saved[j],
        saved_channels,
        at,
        ranges[j],
    ));
    j
}

/// `restored` is what `target`, consistent and without claimed offers, has become by the restore of
/// a saved state in which, without a connection, only what is reserved is saved.
spec fn has_restored(
    target: ServerView,
    saved: SavedStateView,
    ranges: Seq<Result<Seq<u64>, RangeError>>,
    restored: ServerView,
    at: Seq<int>,
) -> bool {
    &&& target.consistent()
    &&& crate::vmbus::restore_laws::unclaimed(target)
    &&& restored.channels.len() <= usize::MAX
    &&& crate::vmbus::restore_laws::only_reserved(saved.state)
    &&& crate::vmbus::restore_laws::saved_valid(
        saved,
        target.protocol,
        target.assigned.len(),
        ranges,
    )
    &&& crate::vmbus::restore_laws::is_restored(
        restored,
        ServerView { state: restored.state, ..target },
        saved,
        at,
        ranges,
    )
    &&& restored.state is Disconnected ==> saved.state.connection is None
}

/// The server with the channels of a restore, and nothing else.
spec fn with_channels(target: ServerView, restored: ServerView) -> ServerView {
    ServerView {
        gpadls: target.gpadls,
        incomplete: target.incomplete,
        pending_messages: target.pending_messages,
        ..restored
    }
}

/// What holds of the slot of a restored channel.
proof fn lemma_restored_channel(
    target: ServerView,
    saved: SavedStateView,
    ranges: Seq<Result<Seq<u64>, RangeError>>,
    restored: ServerView,
    at: Seq<int>,
    i: int,
)
    requires
        has_restored(target, saved, ranges, restored, at),
        0 <= i < saved.state.channels.len(),
    ensures
        0 <= at[i] < restored.channels.len(),
        restored.channels[at[i]] is Some,
        restored.channel_consistent(at[i]),
        !restored.channels[at[i]].unwrap().state.spec_is_released(),
        restored.channels[at[i]].unwrap().state.spec_is_revoked()
            <==> saved.state.channels[i].state is Revoked,
        restored.state is Disconnected
            ==> restored.channels[at[i]].unwrap().state.spec_is_reserved(),
{
    lemma_restored_slot(target, saved, ranges, restored, at, i);
    let channel = saved.state.channels[i];
    assert(crate::vmbus::restore_laws::channel_valid(
        channel,
        target.protocol,
        target.assigned.len(),
    ));
    crate::vmbus::laws::law_channel_state_restored_and_saved(
        channel.state,
        target.protocol,
        channel.state.spec_restore(target.protocol).unwrap(),
    );
}

/// Every slot of a restored server is consistent.
proof fn lemma_restored_slots(
    target: ServerView,
    saved: SavedStateView,
    ranges: Seq<Result<Seq<u64>, RangeError>>,
    restored: ServerView,
    at: Seq<int>,
    k: int,
)
    requires
        has_restored(target, saved, ranges, restored, at),
        0 <= k < restored.channels.len(),
    ensures
        restored.channel_consistent(k),
{
    assert(with_channels(target, restored).channels[k] == restored.channels[k]);
    if at.contains(k) {
        let i = choose|i: int| 0 <= i < at.len() && at[i] == k;
        lemma_restored_channel(target, saved, ranges, restored, at, i);
    } else {
        assert(restored.channels[k] == target.channels[k]);
        assert(target.channel_consistent(k));
        if let Some(channel) = target.channels[k] {
            if let Some(info) = channel.info {
                assert(target.assigned[info.channel_id.0 - 1] is Some);
            }
        }
    }
}

/// Every GPADL of a restored server is consistent, and no two are the same.
proof fn lemma_restored_gpadls(
    target: ServerView,
    saved: SavedStateView,
    ranges: Seq<Result<Seq<u64>, RangeError>>,
    restored: ServerView,
    at: Seq<int>,
)
    requires
        has_restored(target, saved, ranges, restored, at),
    ensures
        forall|j: int|
            0 <= j < restored.gpadls.len() ==> restored.gpadl_consistent(
                #[trigger] restored.gpadls[j],
            ),
        crate::vmbus::tables::entries_distinct(restored.gpadls),
{
    let saved_channels = saved.state.channels;
    let saved_gpadls = saved.state.gpadls;
    assert forall|j: int| 0 <= j < restored.gpadls.len() implies restored.gpadl_consistent(
        #[trigger] restored.gpadls[j],
    ) by {
        let gpadl = saved_gpadls[j];
        assert(crate::vmbus::restore_laws::gpadl_valid(gpadl, saved_channels, ranges[j]));
        let k = crate::vmbus::restore_laws::channel_index(saved_channels, gpadl.channel_id);
        assert(saved_channels[k].channel_id == gpadl.channel_id);
        lemma_restored_channel(target, saved, ranges, restored, at, k);
    }
    assert forall|i: int, j: int| 0 <= i < j < restored.gpadls.len() implies (
    #[trigger] restored.gpadls[i]).gpadl_id != (#[trigger] restored.gpadls[j]).gpadl_id
        || restored.gpadls[i].offer_id != restored.gpadls[j].offer_id by {
        assert(crate::vmbus::restore_laws::gpadl_valid(
            saved_gpadls[i],
            saved_channels,
            ranges[i],
        ));
        assert(crate::vmbus::restore_laws::gpadl_valid(
            saved_gpadls[j],
            saved_channels,
            ranges[j],
        ));
        let k = crate::vmbus::restore_laws::channel_index(
            saved_channels,
            saved_gpadls[i].channel_id,
        );
        let l = crate::vmbus::restore_laws::channel_index(
            saved_channels,
            saved_gpadls[j].channel_id,
        );
        assert(saved_channels[k].channel_id == saved_gpadls[i].channel_id);
        assert(saved_channels[l].channel_id == saved_gpadls[j].channel_id);
        assert(k != l ==> at[k] != at[l]);
        lemma_restored_slot(target, saved, ranges, restored, at, k);
        lemma_restored_slot(target, saved, ranges, restored, at, l);
    }
}

/// The IDs of a restored server lead to offers, and its offers have different keys.
proof fn lemma_restored_offers(
    target: ServerView,
    saved: SavedStateView,
    ranges: Seq<Result<Seq<u64>, RangeError>>,
    restored: ServerView,
    at: Seq<int>,
)
    requires
        has_restored(target, saved, ranges, restored, at),
    ensures
        forall|k: int|
            0 <= k < restored.assigned.len() ==> (#[trigger] restored.assigned[k] matches Some(
                offer_id,
            ) ==> crate::vmbus::tables::is_offer(restored.channels, offer_id)),
        forall|i: int, j: int|
            0 <= i < j < restored.channels.len() && #[trigger] restored.channels[i] is Some
                && #[trigger] restored.channels[j] is Some
                ==> restored.channels[i].unwrap().offer.spec_key()
                != restored.channels[j].unwrap().offer.spec_key(),
{
    let saved_channels = saved.state.channels;
    let placed = with_channels(target, restored);
    assert forall|k: int|
        0 <= k < restored.assigned.len() implies (#[trigger] restored.assigned[k] matches Some(
        offer_id,
    ) ==> crate::vmbus::tables::is_offer(restored.channels, offer_id)) by {
        if restored.assigned[k] is Some {
            assert(placed.assigned[k] is Some);
            let i = choose|i: int|
                0 <= i < saved_channels.len() && (#[trigger] saved_channels[i]).channel_id == k + 1;
            lemma_restored_slot(target, saved, ranges, restored, at, i);
        }
    }
    assert forall|i: int, j: int|
        0 <= i < j < restored.channels.len() && #[trigger] restored.channels[i] is Some
            && #[trigger] restored.channels[j] is Some implies restored.channels[i].unwrap().offer.spec_key()
        != restored.channels[j].unwrap().offer.spec_key() by {
        if restored.channels[i].unwrap().offer.spec_key()
            == restored.channels[j].unwrap().offer.spec_key() {
            crate::vmbus::restore_laws::lemma_key_found(
                placed,
                ServerView { state: restored.state, ..target },
                saved_channels,
                at,
                i,
                j,
            );
        }
    }
}

/// The messages of a restored server are no longer than the protocol allows.
proof fn lemma_restored_messages(had: Seq<Seq<u8>>, saved: Seq<Seq<u8>>, protocol: ProtocolView)
    requires
        crate::vmbus::restore_laws::messages_valid(had, protocol),
        crate::vmbus::restore_laws::messages_valid(saved, protocol),
    ensures
        crate::vmbus::restore_laws::messages_valid(had + saved, protocol),
{
    let all = had + saved;
    assert forall|i: int| 0 <= i < all.len() implies (#[trigger] all[i]).len()
        <= protocol.max_message_size by {
        if i < had.len() {
            assert(all[i] == had[i]);
        } else {
            assert(all[i] == saved[i - had.len()]);
        }
    }
}

/// A consistent server none of whose offers is claimed is still consistent when it has restored a
/// saved state in which, without a connection, only what is reserved is saved.
pub proof fn law_restored_server_is_consistent(
    target: ServerView,
    saved: SavedStateView,
    ranges: Seq<Result<Seq<u64>, RangeError>>,
    restored: ServerView,
)
    requires
        target.consistent(),
        crate::vmbus::restore_laws::unclaimed(target),
        restored.channels.len() <= usize::MAX,
        ranges.len() == saved.state.gpadls.len(),
        crate::vmbus::restore_laws::only_reserved(saved.state),
        target.restore(Ok(()), saved, ranges) == restored.done(),
    ensures
        restored.consistent(),
{
    let at = crate::vmbus::restore_laws::law_restore_brings_back_everything(
        target,
        saved,
        ranges,
        restored,
    );
    if let Some(connection) = saved.state.connection {
        crate::vmbus::laws::law_connection_restored_and_saved(
            connection,
            target.protocol,
            restored.state,
        );
    }
    assert(has_restored(target, saved, ranges, restored, at));
    lemma_restored_offers(target, saved, ranges, restored, at);
    lemma_restored_gpadls(target, saved, ranges, restored, at);
    assert forall|k: int|
        #![trigger restored.channels[k]]
        0 <= k < restored.channels.len() implies restored.channel_consistent(k) by {
        lemma_restored_slots(target, saved, ranges, restored, at, k);
    }
    lemma_restored_messages(target.pending_messages, saved.pending_messages, target.protocol);
}

} // verus!
