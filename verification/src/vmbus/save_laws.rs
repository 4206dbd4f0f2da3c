//! What is saved of a server: every channel that the guest knows of and every GPADL of such a
//! channel, once, in their order, and nothing else.

use super::channels;
use super::saved_data::{ConnectedState, DisconnectedState, SavedConnectionState, SavedState};
use super::saved_data::SavedStateData;
use super::saved_state::{ChannelState, Connection, GpadlState};
use super::server::{Server, ServerView};
use super::tables::GpadlEntryView;
use vstd::prelude::*;

verus! {

/// The saved channels are exactly those of the slots with a channel that the guest was told of and
/// has not released, and that is reserved if only these are saved: as many, in the same order, and
/// each with what the slot has. Nothing else about a channel matters, such as how far its restore
/// has come.
pub proof fn law_saved_channels(slots: Seq<Option<channels::Channel>>, reserved_only: bool)
    ensures
        ({
            let saved = crate::vmbus::server::saved_channels(slots, reserved_only);
            let known = slots.filter(
                |slot: Option<channels::Channel>|
                    match slot {
                        None => false,
                        Some(channel) => {
                            &&& channel.info is Some
                            &&& match channel.state {
                                channels::ChannelState::ClientReleased => false,
                                channels::ChannelState::ClosingClientRelease => false,
                                channels::ChannelState::OpeningClientRelease => false,
                                channels::ChannelState::Opening { reserved_state, .. } =>
                                    !reserved_only || reserved_state is Some,
                                channels::ChannelState::Open { reserved_state, .. } =>
                                    !reserved_only || reserved_state is Some,
                                channels::ChannelState::Closing { reserved_state, .. } =>
                                    !reserved_only || reserved_state is Some,
                                _ => !reserved_only,
                            }
                        },
                    },
            );
            &&& saved.len() == known.len()
            &&& forall|j: int|
                0 <= j < saved.len() ==> {
                    let channel = known[j].unwrap();
                    let info = channel.info.unwrap();
                    &&& (#[trigger] saved[j]).channel_id == info.channel_id.0
                    &&& saved[j].offered_connection_id == info.connection_id
                    &&& saved[j].monitor_id is Some <==> info.monitor_id is Some
                    &&& info.monitor_id matches Some(id) ==> saved[j].monitor_id == Some(id.0)
                    &&& saved[j].key.interface_id == channel.offer.interface_id
                    &&& saved[j].key.instance_id == channel.offer.instance_id
                    &&& saved[j].key.subchannel_index == channel.offer.subchannel_index
                    &&& ChannelState::spec_save(channel.state) == Some(saved[j].state)
                }
        }),
    decreases slots.len(),
{
    reveal(Seq::filter);
    if slots.len() > 0 {
        law_saved_channels(slots.drop_last(), reserved_only);
        let rest = crate::vmbus::server::saved_channels(slots.drop_last(), reserved_only);
        let saved = crate::vmbus::server::saved_channels(slots, reserved_only);
        assert forall|j: int| 0 <= j < rest.len() implies rest[j] == #[trigger] saved[j] by {}
    }
}

/// The saved GPADLs are exactly those of the entries whose channel the guest was told of and that
/// were not torn down before the device answered: as many, in the same order, and each with its ID,
/// the ID of its channel, its ranges and its state. Nothing else about the channel matters.
pub proof fn law_saved_gpadls(
    entries: Seq<GpadlEntryView>,
    slots: Seq<Option<channels::Channel>>,
)
    ensures
        ({
            let saved = crate::vmbus::server::saved_gpadls(entries, slots);
            let known = entries.filter(
                |entry: GpadlEntryView|
                    match slots[entry.offer_id.0 as int] {
                        None => false,
                        Some(channel) => channel.info is Some && !(entry.gpadl.state
                            is OfferedTearingDown),
                    },
            );
            &&& saved.len() == known.len()
            &&& forall|j: int|
                0 <= j < saved.len() ==> {
                    let entry = known[j];
                    let info = slots[entry.offer_id.0 as int].unwrap().info.unwrap();
                    &&& (#[trigger] saved[j]).id == entry.gpadl_id.0
                    &&& saved[j].channel_id == info.channel_id.0
                    &&& saved[j].count == entry.gpadl.count
                    &&& saved[j].buf == entry.gpadl.buf
                    &&& match (entry.gpadl.state, saved[j].state) {
                        (channels::GpadlState::InProgress, GpadlState::InProgress) => true,
                        (channels::GpadlState::Offered, GpadlState::Offered) => true,
                        (channels::GpadlState::Accepted, GpadlState::Accepted) => true,
                        (channels::GpadlState::TearingDown, GpadlState::TearingDown) => true,
                        _ => false,
                    }
                }
        }),
    decreases entries.len(),
{
    reveal(Seq::filter);
    if entries.len() > 0 {
        law_saved_gpadls(entries.drop_last(), slots);
        let rest = crate::vmbus::server::saved_gpadls(entries.drop_last(), slots);
        let saved = crate::vmbus::server::saved_gpadls(entries, slots);
        assert forall|j: int| 0 <= j < rest.len() implies rest[j] == #[trigger] saved[j] by {}
    }
}

/// Every channel that the guest was told of and has not released is saved, and without a
/// connection every such one that is reserved, whatever else holds of it.
pub proof fn law_known_channel_is_saved(
    server: ServerView,
    i: int,
    channel: channels::Channel,
    info: channels::OfferedInfo,
) -> (j: int)
    requires
        0 <= i < server.channels.len(),
        server.channels[i] == Some(channel),
        channel.info == Some(info),
        !(channel.state is ClientReleased),
        !(channel.state is ClosingClientRelease),
        !(channel.state is OpeningClientRelease),
        server.state is Disconnected ==> match channel.state {
            channels::ChannelState::Opening { reserved_state, .. } => reserved_state is Some,
            channels::ChannelState::Open { reserved_state, .. } => reserved_state is Some,
            channels::ChannelState::Closing { reserved_state, .. } => reserved_state is Some,
            _ => false,
        },
    ensures
        0 <= j < server.save().state.channels.len(),
        server.save().state.channels[j].channel_id == info.channel_id.0,
        server.save().state.channels[j].offered_connection_id == info.connection_id,
        server.save().state.channels[j].key.interface_id == channel.offer.interface_id,
        server.save().state.channels[j].key.instance_id == channel.offer.instance_id,
        server.save().state.channels[j].key.subchannel_index == channel.offer.subchannel_index,
        Some(server.save().state.channels[j].state) == ChannelState::spec_save(channel.state),
{
    crate::vmbus::saved_slots::lemma_slot_is_saved(
        server.channels,
        server.save().state.connection is None,
        i,
    )
}

/// Every GPADL of a channel that the guest was told of is saved, unless it was torn down before the
/// device answered.
pub proof fn law_known_gpadl_is_saved(
    server: ServerView,
    i: int,
    channel: channels::Channel,
    info: channels::OfferedInfo,
) -> (j: int)
    requires
        0 <= i < server.gpadls.len(),
        server.channels[server.gpadls[i].offer_id.0 as int] == Some(channel),
        channel.info == Some(info),
        !(server.gpadls[i].gpadl.state is OfferedTearingDown),
    ensures
        0 <= j < server.save().state.gpadls.len(),
        server.save().state.gpadls[j].id == server.gpadls[i].gpadl_id.0,
        server.save().state.gpadls[j].channel_id == info.channel_id.0,
        server.save().state.gpadls[j].count == server.gpadls[i].gpadl.count,
        server.save().state.gpadls[j].buf == server.gpadls[i].gpadl.buf,
        Some(server.save().state.gpadls[j].state) == GpadlState::spec_save(
            server.gpadls[i].gpadl.state,
        ),
{
    crate::vmbus::saved_slots::lemma_entry_is_saved(server.gpadls, server.channels, i)
}

/// What a server saves: its connection, if it has one; its channels, or the reserved ones if it has
/// no connection; its GPADLs; and all its messages.
pub proof fn law_save_parts(server: ServerView)
    ensures
        server.save().state.connection == Connection::spec_save(server.state),
        server.save().state.connection is None <==> server.state is Disconnected,
        server.save().state.channels == crate::vmbus::server::saved_channels(
            server.channels,
            server.state is Disconnected,
        ),
        server.save().state.gpadls == crate::vmbus::server::saved_gpadls(
            server.gpadls,
            server.channels,
        ),
        server.save().pending_messages == server.pending_messages,
{
}

/// The model of a server has what the server has.
pub proof fn law_server_model(server: Server)
    ensures
        server@.protocol == server.protocol@,
        server@.state == server.state,
        server@.channels == server.channels@,
        server@.assigned == server.assigned_channels@,
        server@.gpadls == server.gpadls@,
        server@.incomplete == server.incomplete_gpadls@,
        server@.pending_messages.len() == server.pending_messages@.len(),
        forall|i: int|
            0 <= i < server.pending_messages@.len() ==> #[trigger] server@.pending_messages[i]
                == server.pending_messages@[i]@,
{
}

/// The model of what is saved of a connected server has what that has.
pub proof fn law_connected_model(saved: ConnectedState)
    ensures
        saved@.connection == Some(saved.connection),
        saved@.channels == saved.channels@,
        saved@.gpadls.len() == saved.gpadls@.len(),
        forall|i: int|
            0 <= i < saved.gpadls@.len() ==> #[trigger] saved@.gpadls[i] == saved.gpadls@[i]@,
{
}

/// The model of what is saved of a disconnected server has what that has.
pub proof fn law_disconnected_model(saved: DisconnectedState)
    ensures
        saved@.connection is None,
        saved@.channels == saved.reserved_channels@,
        saved@.gpadls.len() == saved.reserved_gpadls@.len(),
        forall|i: int|
            0 <= i < saved.reserved_gpadls@.len() ==> #[trigger] saved@.gpadls[i]
                == saved.reserved_gpadls@[i]@,
{
}

/// The model of a saved state in the form in which it is used has what that has.
pub proof fn law_data_model(saved: SavedStateData)
    ensures
        saved@.state == (match saved.state {
            SavedConnectionState::Connected(connected) => connected@,
            SavedConnectionState::Disconnected(disconnected) => disconnected@,
        }),
        saved@.pending_messages.len() == saved.pending_messages@.len(),
        forall|i: int|
            0 <= i < saved.pending_messages@.len() ==> #[trigger] saved@.pending_messages[i]
                == saved.pending_messages@[i].0@,
{
}

/// The model of a saved state in the form in which it is stored: the connected half, if it is
/// there; else the disconnected half; and if neither is there, nothing without a connection.
pub proof fn law_stored_model(saved: SavedState)
    ensures
        saved.stored_connected() matches Some(connected) ==> saved@.state == connected@,
        saved.stored_connected() is None ==> (saved.stored_disconnected() matches Some(disconnected)
            ==> saved@.state == disconnected@),
        saved.stored_connected() is None && saved.stored_disconnected() is None ==> {
            &&& saved@.state.connection is None
            &&& saved@.state.channels.len() == 0
            &&& saved@.state.gpadls.len() == 0
        },
        saved@.pending_messages.len() == saved.stored_messages()@.len(),
        forall|i: int|
            0 <= i < saved.stored_messages()@.len() ==> #[trigger] saved@.pending_messages[i]
                == saved.stored_messages()@[i].0@,
{
}

} // verus!
