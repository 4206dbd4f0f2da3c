//! A VMBus server's channel state, and the model of how it is saved and restored.

use super::channels;
use super::channels::{ConnectionState, MnfUsage, ModifyConnectionRequest, OfferId, RestoreState};
use super::protocol::{ChannelId, GpadlId, Protocol, ProtocolView};
use super::saved_data::{SavedConnectionView, SavedStateView};
use super::saved_state::{Channel, Connection, GpadlView, RangeError, RestoreError};
use super::tables::{AssignedChannels, ChannelList, GpadlEntryView, GpadlMap};
use std::collections::{HashMap, VecDeque};
use vstd::prelude::*;

verus! {

/// The channel state of a VMBus server.
#[derive(Debug)]
pub struct Server {
    pub protocol: Protocol,
    pub state: ConnectionState,
    pub channels: ChannelList,
    pub assigned_channels: AssignedChannels,
    pub gpadls: GpadlMap,
    /// The offer of each GPADL whose pages have not all arrived, by the GPADL's ID.
    pub incomplete_gpadls: HashMap<u32, OfferId>,
    /// The messages that could not be sent to the guest yet, the oldest first.
    pub pending_messages: VecDeque<channels::OutgoingMessage>,
}

/// The model of a [`Server`].
#[verifier::ext_equal]
pub struct ServerView {
    pub protocol: ProtocolView,
    pub state: ConnectionState,
    pub channels: Seq<Option<channels::Channel>>,
    pub assigned: Seq<Option<OfferId>>,
    pub gpadls: Seq<GpadlEntryView>,
    pub incomplete: Map<u32, OfferId>,
    pub pending_messages: Seq<Seq<u8>>,
}

/// The contents of a queue of messages.
pub open spec fn queued_views(messages: Seq<channels::OutgoingMessage>) -> Seq<Seq<u8>> {
    Seq::new(messages.len(), |i: int| messages[i]@)
}

impl View for Server {
    type V = ServerView;

    open spec fn view(&self) -> ServerView {
        ServerView {
            protocol: self.protocol@,
            state: self.state,
            channels: self.channels@,
            assigned: self.assigned_channels@,
            gpadls: self.gpadls@,
            incomplete: self.incomplete_gpadls@,
            pending_messages: queued_views(self.pending_messages@),
        }
    }
}

impl Server {
    /// Makes a server without offers, which can hand out `max_channels` channel IDs.
    pub fn new(protocol: Protocol, max_channels: usize) -> (server: Server)
        ensures
            server@ == ServerView::fresh(protocol@, max_channels as nat),
            server@.wf(),
    {
        let server = Server {
            protocol,
            state: ConnectionState::Disconnected,
            channels: ChannelList::new(),
            assigned_channels: AssignedChannels::new(max_channels),
            gpadls: GpadlMap::new(),
            incomplete_gpadls: HashMap::new(),
            pending_messages: VecDeque::new(),
        };
        assert(server@ =~= ServerView::fresh(protocol@, max_channels as nat));
        server
    }

    /// Tells whether the tables refer to offers that exist, and no GPADL is there twice.
    pub fn is_well_formed(&self) -> (well_formed: bool)
        ensures
            well_formed == self@.wf(),
    {
        proof {
            self.channels.lemma_len();
        }
        let mut i: usize = 0;
        while i < self.assigned_channels.len()
            invariant
                i <= self@.assigned.len(),
                forall|k: int|
                    0 <= k < i ==> (#[trigger] self@.assigned[k] matches Some(offer_id)
                        ==> crate::vmbus::tables::is_offer(self@.channels, offer_id)),
            decreases self@.assigned.len() - i,
        {
            if let Some(offer_id) = self.assigned_channels.at(i) {
                if self.channels.get(offer_id).is_none() {
                    assert(self@.assigned[i as int] == Some(offer_id));
                    return false;
                }
            }
            i = i + 1;
        }
        let mut j: usize = 0;
        while j < self.gpadls.len()
            invariant
                j <= self@.gpadls.len(),
                forall|k: int|
                    0 <= k < self@.assigned.len() ==> (
                    #[trigger] self@.assigned[k] matches Some(offer_id)
                        ==> crate::vmbus::tables::is_offer(self@.channels, offer_id)),
                forall|k: int|
                    0 <= k < j ==> crate::vmbus::tables::is_offer(
                        self@.channels,
                        (#[trigger] self@.gpadls[k]).offer_id,
                    ),
                crate::vmbus::tables::entries_distinct(self@.gpadls.take(j as int)),
            decreases self@.gpadls.len() - j,
        {
            let entry = self.gpadls.entry(j);
            assert(self@.gpadls[j as int].offer_id == entry.offer_id);
            if self.channels.get(entry.offer_id).is_none() {
                return false;
            }
            let mut k: usize = 0;
            while k < j
                invariant
                    k <= j < self@.gpadls.len(),
                    entry@ == self@.gpadls[j as int],
                    forall|l: int|
                        0 <= l < k ==> (#[trigger] self@.gpadls[l]).gpadl_id != entry.gpadl_id
                            || self@.gpadls[l].offer_id != entry.offer_id,
                decreases j - k,
            {
                let other = self.gpadls.entry(k);
                assert(self@.gpadls[k as int] == other@);
                if other.gpadl_id == entry.gpadl_id && other.offer_id == entry.offer_id {
                    assert(!crate::vmbus::tables::entries_distinct(self@.gpadls));
                    return false;
                }
                k = k + 1;
            }
            j = j + 1;
            assert(crate::vmbus::tables::entries_distinct(self@.gpadls.take(j as int))) by {
                let some = self@.gpadls.take(j as int);
                assert forall|a: int, b: int| 0 <= a < b < some.len() implies (
                #[trigger] some[a]).gpadl_id != (#[trigger] some[b]).gpadl_id || some[a].offer_id
                    != some[b].offer_id by {
                    if b < j - 1 {
                        let before = self@.gpadls.take(j - 1);
                        assert(before[a] == some[a] && before[b] == some[b]);
                    } else {
                        assert(self@.gpadls[a] == some[a]);
                    }
                }
            }
        }
        assert(self@.gpadls.take(j as int) =~= self@.gpadls);
        true
    }
}

/// How the restore of a saved state ended.
#[derive(Debug)]
pub enum RestoreOutcome {
    Done,
    Failed(RestoreError),
    /// An incomplete GPADL was to be restored while another channel has an incomplete GPADL with
    /// the same ID. A server finds these by their ID alone, so it cannot have both.
    DuplicateIncompleteGpadl(GpadlId, ChannelId),
}

/// What a restore makes of a server, and how it ends. A restore that fails leaves what it had
/// done by then.
pub struct Restored {
    pub server: ServerView,
    pub outcome: RestoreOutcome,
}

/// The saved form of the channels in `slots`, in their order: of all of them, or of the reserved
/// ones only.
pub open spec fn saved_channels(
    slots: Seq<Option<channels::Channel>>,
    reserved_only: bool,
) -> Seq<Channel>
    decreases slots.len(),
{
    if slots.len() == 0 {
        Seq::empty()
    } else {
        let rest = saved_channels(slots.drop_last(), reserved_only);
        match saved_slot(slots.last(), reserved_only) {
            Some(saved) => rest.push(saved),
            None => rest,
        }
    }
}

/// The saved form of the channel in a slot.
pub open spec fn saved_slot(slot: Option<channels::Channel>, reserved_only: bool) -> Option<
    Channel,
> {
    match slot {
        Some(channel) => if reserved_only && !channel.state.spec_is_reserved() {
            None
        } else {
            Channel::spec_save(channel)
        },
        None => None,
    }
}

/// The saved form of the GPADLs in `entries`, in their order.
pub open spec fn saved_gpadls(
    entries: Seq<GpadlEntryView>,
    slots: Seq<Option<channels::Channel>>,
) -> Seq<GpadlView>
    decreases entries.len(),
{
    if entries.len() == 0 {
        Seq::empty()
    } else {
        let rest = saved_gpadls(entries.drop_last(), slots);
        match saved_entry(entries.last(), slots) {
            Some(saved) => rest.push(saved),
            None => rest,
        }
    }
}

/// The saved form of a GPADL. One whose channel the guest does not know of has none.
pub open spec fn saved_entry(
    entry: GpadlEntryView,
    slots: Seq<Option<channels::Channel>>,
) -> Option<GpadlView> {
    match slots[entry.offer_id.0 as int] {
        Some(channel) => match channel.info {
            Some(info) => GpadlView::spec_save(entry.gpadl_id, info.channel_id, entry.gpadl),
            None => None,
        },
        None => None,
    }
}

impl ServerView {
    /// A server without offers, which can hand out `max_channels` channel IDs.
    pub open spec fn fresh(protocol: ProtocolView, max_channels: nat) -> ServerView {
        ServerView {
            protocol,
            state: ConnectionState::Disconnected,
            channels: Seq::empty(),
            assigned: Seq::new(max_channels, |i: int| None::<OfferId>),
            gpadls: Seq::empty(),
            incomplete: Map::empty(),
            pending_messages: Seq::empty(),
        }
    }

    /// The tables refer to offers that exist, of which there are no more than a machine can count,
    /// and no GPADL is there twice.
    pub open spec fn wf(self) -> bool {
        &&& self.channels.len() <= usize::MAX
        &&& forall|i: int|
            0 <= i < self.assigned.len() ==> (#[trigger] self.assigned[i] matches Some(offer_id)
                ==> crate::vmbus::tables::is_offer(self.channels, offer_id))
        &&& forall|i: int|
            0 <= i < self.gpadls.len() ==> crate::vmbus::tables::is_offer(
                self.channels,
                (#[trigger] self.gpadls[i]).offer_id,
            )
        &&& crate::vmbus::tables::entries_distinct(self.gpadls)
    }

    /// What is saved of the server. Without a connection, only the reserved channels are.
    pub open spec fn save(self) -> SavedStateView {
        let connection = Connection::spec_save(self.state);
        SavedStateView {
            state: SavedConnectionView {
                connection,
                channels: saved_channels(self.channels, connection is None),
                gpadls: saved_gpadls(self.gpadls, self.channels),
            },
            pending_messages: self.pending_messages,
        }
    }

    /// A restore that has succeeded, and left this server.
    pub open spec fn done(self) -> Restored {
        Restored { server: self, outcome: RestoreOutcome::Done }
    }

    /// A restore that has failed, and left this server.
    pub open spec fn failed(self, error: RestoreError) -> Restored {
        Restored { server: self, outcome: RestoreOutcome::Failed(error) }
    }

    /// The server with the connection of a saved state, or why it is refused.
    pub open spec fn restore_state(self, saved: SavedConnectionView) -> Result<
        ServerView,
        RestoreError,
    > {
        match saved.connection {
            None => Ok(ServerView { state: ConnectionState::Disconnected, ..self }),
            Some(connection) => match connection.spec_restore(self.protocol) {
                Ok(state) => Ok(ServerView { state, ..self }),
                Err(error) => Err(error),
            },
        }
    }

    /// The restore of a channel. One that is already offered takes on the saved state, unless
    /// it is in use or was restored before, or has another monitor ID than the one saved. One
    /// that is not is offered by a stand-in. Either way the saved channel ID must be free.
    pub open spec fn restore_channel(self, saved: Channel) -> Restored {
        let channel_id = ChannelId(saved.channel_id);
        let assign_error = crate::vmbus::tables::assign_error(self.assigned, channel_id);
        match saved.state.spec_restore(self.protocol) {
            Err(error) => self.failed(error),
            Ok(state) => match crate::vmbus::search::first_where(
                self.channels,
                crate::vmbus::tables::offers_key(saved.key),
            ) {
                Some(i) => {
                    let channel = self.channels[i].unwrap();
                    if !(channel.state is ClientReleased) || channel.restore_state
                        != RestoreState::New {
                        self.failed(RestoreError::AlreadyRestored(saved.key))
                    } else if channel.offer.use_mnf matches MnfUsage::Relayed { monitor_id }
                        && saved.monitor_id != Some(monitor_id) {
                        self.failed(
                            RestoreError::MismatchedMonitorId(
                                channel.offer.use_mnf->monitor_id,
                                saved.monitor_id,
                            ),
                        )
                    } else if assign_error is Some {
                        self.failed(RestoreError::Offer(assign_error.unwrap()))
                    } else {
                        ServerView {
                            channels: self.channels.update(
                                i,
                                Some(
                                    channels::Channel {
                                        info: Some(saved.spec_info()),
                                        offer: channel.offer,
                                        state,
                                        restore_state: RestoreState::Restoring,
                                    },
                                ),
                            ),
                            assigned: crate::vmbus::tables::with_assigned(
                                self.assigned,
                                channel_id,
                                OfferId(i as usize),
                            ),
                            ..self
                        }.done()
                    }
                },
                None => if assign_error is Some {
                    self.failed(RestoreError::Offer(assign_error.unwrap()))
                } else {
                    ServerView {
                        channels: crate::vmbus::tables::with_offer(
                            self.channels,
                            channels::Channel {
                                info: Some(saved.spec_info()),
                                offer: saved.spec_stub_offer(),
                                state,
                                restore_state: RestoreState::Unmatched,
                            },
                        ),
                        assigned: crate::vmbus::tables::with_assigned(
                            self.assigned,
                            channel_id,
                            OfferId(crate::vmbus::tables::next_offer(self.channels) as usize),
                        ),
                        ..self
                    }.done()
                },
            },
        }
    }

    /// The channel that a saved GPADL can be restored to: one that has the saved ID, that is part
    /// of the restore and that the guest has not released.
    pub open spec fn gpadl_channel(self, channel_id: ChannelId) -> Option<OfferId> {
        match crate::vmbus::tables::assigned_to(self.assigned, channel_id) {
            Some(offer_id) => {
                let channel = self.channels[offer_id.0 as int].unwrap();
                if channel.restore_state == RestoreState::New || channel.state.spec_is_released() {
                    None
                } else {
                    Some(offer_id)
                }
            },
            None => None,
        }
    }

    /// The restore of a GPADL, whose ranges were validated with the result `range`. One that is
    /// there already is replaced all the same.
    pub open spec fn restore_gpadl(
        self,
        saved: GpadlView,
        range: Result<Seq<u64>, RangeError>,
    ) -> Restored {
        let gpadl_id = GpadlId(saved.id);
        let channel_id = ChannelId(saved.channel_id);
        match self.gpadl_channel(channel_id) {
            None => self.failed(RestoreError::MissingGpadlChannel(gpadl_id, channel_id)),
            Some(offer_id) => match saved.spec_restore(
                self.channels[offer_id.0 as int].unwrap(),
                range,
            ) {
                Err(error) => self.failed(error),
                Ok(gpadl) => {
                    let with_gpadl = ServerView {
                        gpadls: crate::vmbus::tables::with_entry(
                            self.gpadls,
                            GpadlEntryView { gpadl_id, offer_id, gpadl },
                        ),
                        ..self
                    };
                    let with_incomplete = ServerView {
                        incomplete: self.incomplete.insert(gpadl_id.0, offer_id),
                        ..with_gpadl
                    };
                    if crate::vmbus::tables::has_entry(self.gpadls, gpadl_id, offer_id) {
                        with_gpadl.failed(RestoreError::GpadlIdInUse(gpadl_id, channel_id))
                    } else if !(saved.state is InProgress) {
                        with_gpadl.done()
                    } else if self.incomplete.contains_key(gpadl_id.0) {
                        Restored {
                            server: with_incomplete,
                            outcome: RestoreOutcome::DuplicateIncompleteGpadl(
                                gpadl_id,
                                channel_id,
                            ),
                        }
                    } else {
                        with_incomplete.done()
                    }
                },
            },
        }
    }

    /// The restore of a pending message, which goes behind those that are there.
    pub open spec fn restore_message(self, message: Seq<u8>) -> Restored {
        if message.len() > self.protocol.max_message_size {
            self.failed(RestoreError::MessageTooLarge)
        } else {
            ServerView { pending_messages: self.pending_messages.push(message), ..self }.done()
        }
    }

    /// The restore of channels one after the other, up to the first that fails.
    pub open spec fn restore_channels(self, saved: Seq<Channel>) -> Restored
        decreases saved.len(),
    {
        if saved.len() == 0 {
            self.done()
        } else {
            let before = self.restore_channels(saved.drop_last());
            if before.outcome is Done {
                before.server.restore_channel(saved.last())
            } else {
                before
            }
        }
    }

    /// The restore of GPADLs one after the other, up to the first that fails.
    pub open spec fn restore_gpadls(
        self,
        saved: Seq<GpadlView>,
        ranges: Seq<Result<Seq<u64>, RangeError>>,
    ) -> Restored
        decreases saved.len(),
    {
        if saved.len() == 0 {
            self.done()
        } else {
            let before = self.restore_gpadls(saved.drop_last(), ranges);
            if before.outcome is Done {
                before.server.restore_gpadl(saved.last(), ranges[saved.len() - 1])
            } else {
                before
            }
        }
    }

    /// The restore of messages one after the other, up to the first that fails.
    pub open spec fn restore_messages(self, saved: Seq<Seq<u8>>) -> Restored
        decreases saved.len(),
    {
        if saved.len() == 0 {
            self.done()
        } else {
            let before = self.restore_messages(saved.drop_last());
            if before.outcome is Done {
                before.server.restore_message(saved.last())
            } else {
                before
            }
        }
    }

    /// The restore of the channels of a saved state, of its GPADLs and of its messages, in this
    /// order and up to the first failure.
    pub open spec fn restore_contents(
        self,
        saved: SavedStateView,
        ranges: Seq<Result<Seq<u64>, RangeError>>,
    ) -> Restored {
        let channels = self.restore_channels(saved.state.channels);
        if channels.outcome is Done {
            let gpadls = channels.server.restore_gpadls(saved.state.gpadls, ranges);
            if gpadls.outcome is Done {
                gpadls.server.restore_messages(saved.pending_messages)
            } else {
                gpadls
            }
        } else {
            channels
        }
    }

    /// The rest of a restore, once the notifier has answered.
    pub open spec fn finish_restore(
        self,
        reply: Result<(), anyhow::Error>,
        saved: SavedStateView,
        ranges: Seq<Result<Seq<u64>, RangeError>>,
    ) -> Restored {
        match reply {
            Ok(_) => self.restore_contents(saved, ranges),
            Err(error) => self.failed(RestoreError::ServerError(error)),
        }
    }

    /// What the notifier is asked for in a restore, if the connection is not refused and there is
    /// anything to ask for.
    pub open spec fn restore_request(self, saved: SavedConnectionView) -> Option<
        ModifyConnectionRequest,
    > {
        match self.restore_state(saved) {
            Ok(restored) => restored.state.spec_restore_request(),
            Err(_) => None,
        }
    }

    /// The restore of a saved state: of its connection, then, if the notifier answers that this
    /// is in order, of the rest.
    pub open spec fn restore(
        self,
        reply: Result<(), anyhow::Error>,
        saved: SavedStateView,
        ranges: Seq<Result<Seq<u64>, RangeError>>,
    ) -> Restored {
        match self.restore_state(saved.state) {
            Ok(restored) => restored.finish_restore(reply, saved, ranges),
            Err(error) => self.failed(error),
        }
    }
}

} // verus!
