//! Saving a server.

use super::channels::OfferId;
use super::saved_data::{ConnectedState, DisconnectedState, SavedConnectionState, SavedState};
use super::saved_data::SavedStateData;
use super::saved_state::{Channel, Connection, Gpadl, OutgoingMessage};
use super::server::Server;
use vstd::prelude::*;

verus! {

impl Server {
    /// Saves state.
    pub fn save(&self) -> (saved: SavedState)
        requires
            self@.wf(),
        ensures
            saved@ == self@.save(),
            saved.stored_connected() is Some <==> !(self.state is Disconnected),
            saved.stored_disconnected() is Some <==> self.state is Disconnected,
    {
        let state = match self.save_connected_state() {
            Some(state) => SavedConnectionState::Connected(state),
            None => SavedConnectionState::Disconnected(self.save_disconnected_state()),
        };
        let data = SavedStateData { state, pending_messages: self.save_pending_messages() };
        SavedState::from(data)
    }

    /// Saves the connection and what belongs to it, if there is one.
    pub fn save_connected_state(&self) -> (saved: Option<ConnectedState>)
        requires
            self@.wf(),
        ensures
            match saved {
                Some(saved) => !(self.state is Disconnected) && saved@ == self@.save().state,
                None => self.state is Disconnected,
            },
    {
        match Connection::save(&self.state) {
            None => None,
            Some(connection) => {
                let channels = self.save_channels(false);
                let gpadls = self.save_gpadls();
                Some(ConnectedState { connection, channels, gpadls })
            },
        }
    }

    /// Saves the reserved channels and their GPADLs. There are no other GPADLs while
    /// disconnected.
    pub fn save_disconnected_state(&self) -> (saved: DisconnectedState)
        requires
            self@.wf(),
        ensures
            saved@.connection is None,
            saved@.channels == crate::vmbus::server::saved_channels(self@.channels, true),
            saved@.gpadls == crate::vmbus::server::saved_gpadls(self@.gpadls, self@.channels),
    {
        let reserved_channels = self.save_channels(true);
        let reserved_gpadls = self.save_gpadls();
        DisconnectedState { reserved_channels, reserved_gpadls }
    }

    /// Saves the channels that the guest knows of: all of them, or the reserved ones only.
    fn save_channels(&self, reserved_only: bool) -> (saved: Vec<Channel>)
        ensures
            saved@ == crate::vmbus::server::saved_channels(self@.channels, reserved_only),
    {
        let ghost slots = self@.channels;
        let mut saved: Vec<Channel> = Vec::new();
        let mut i: usize = 0;
        while i < self.channels.len()
            invariant
                i <= slots.len(),
                slots == self.channels@,
                saved@ == crate::vmbus::server::saved_channels(
                    slots.take(i as int),
                    reserved_only,
                ),
            decreases slots.len() - i,
        {
            assert(slots.take(i + 1).drop_last() =~= slots.take(i as int));
            if let Some(channel) = self.channels.get(OfferId(i)) {
                if !reserved_only || channel.state.is_reserved() {
                    if let Some(saved_channel) = Channel::save(&channel) {
                        saved.push(saved_channel);
                    }
                }
            }
            i = i + 1;
        }
        assert(slots.take(i as int) =~= slots);
        saved
    }

    /// Saves the GPADLs of the channels that the guest knows of.
    pub fn save_gpadls(&self) -> (saved: Vec<Gpadl>)
        requires
            self@.wf(),
        ensures
            crate::vmbus::saved_data::gpadl_views(saved@) == crate::vmbus::server::saved_gpadls(
                self@.gpadls,
                self@.channels,
            ),
    {
        let ghost entries = self@.gpadls;
        let ghost slots = self@.channels;
        let mut saved: Vec<Gpadl> = Vec::new();
        let mut i: usize = 0;
        assert(crate::vmbus::saved_data::gpadl_views(saved@) =~= Seq::empty());
        while i < self.gpadls.len()
            invariant
                self@.wf(),
                i <= entries.len(),
                entries == self@.gpadls,
                slots == self@.channels,
                crate::vmbus::saved_data::gpadl_views(saved@) == crate::vmbus::server::saved_gpadls(
                    entries.take(i as int),
                    slots,
                ),
            decreases entries.len() - i,
        {
            let ghost before = saved@;
            assert(entries.take(i + 1).drop_last() =~= entries.take(i as int));
            let entry = self.gpadls.entry(i);
            assert(entries[i as int].offer_id == entry.offer_id);
            if let Some(channel) = self.channels.get(entry.offer_id) {
                if let Some(info) = channel.info {
                    if let Some(saved_gpadl) = Gpadl::save(
                        entry.gpadl_id,
                        info.channel_id,
                        &entry.gpadl,
                    ) {
                        saved.push(saved_gpadl);
                        assert(crate::vmbus::saved_data::gpadl_views(saved@)
                            =~= crate::vmbus::saved_data::gpadl_views(before).push(saved_gpadl@));
                    }
                }
            }
            i = i + 1;
        }
        assert(entries.take(i as int) =~= entries);
        saved
    }

    /// Saves the messages that could not be sent yet.
    pub fn save_pending_messages(&self) -> (saved: Vec<OutgoingMessage>)
        ensures
            crate::vmbus::saved_data::message_views(saved@) == self@.pending_messages,
    {
        let mut saved: Vec<OutgoingMessage> = Vec::new();
        let mut i: usize = 0;
        while i < self.pending_messages.len()
            invariant
                i <= self.pending_messages@.len(),
                saved@.len() == i,
                forall|j: int|
                    0 <= j < i ==> (#[trigger] saved@[j])@ == self.pending_messages@[j]@,
            decreases self.pending_messages@.len() - i,
        {
            saved.push(OutgoingMessage::save(&self.pending_messages[i]));
            i = i + 1;
        }
        assert(crate::vmbus::saved_data::message_views(saved@) =~= self@.pending_messages);
        saved
    }
}

} // verus!
