//! The saved state of a server as a whole.

use super::protocol::OfferKey;
use super::saved_state::{Channel, Connection, Gpadl, GpadlView, OutgoingMessage};
use vstd::prelude::*;

verus! {

/// The models of a list of saved GPADLs.
pub open spec fn gpadl_views(gpadls: Seq<Gpadl>) -> Seq<GpadlView> {
    Seq::new(gpadls.len(), |i: int| gpadls[i]@)
}

/// The contents of a list of saved messages.
pub open spec fn message_views(messages: Seq<OutgoingMessage>) -> Seq<Seq<u8>> {
    Seq::new(messages.len(), |i: int| messages[i]@)
}

/// What is saved of a server that has a connection.
#[derive(Clone, Debug)]
pub struct ConnectedState {
    pub connection: Connection,
    pub channels: Vec<Channel>,
    pub gpadls: Vec<Gpadl>,
}

/// What is saved of a server that has none: the reserved channels, which outlive a connection,
/// and their GPADLs.
#[derive(Clone, Debug)]
pub struct DisconnectedState {
    pub reserved_channels: Vec<Channel>,
    pub reserved_gpadls: Vec<Gpadl>,
}

/// Either of the two.
pub enum SavedConnectionState {
    Connected(ConnectedState),
    Disconnected(DisconnectedState),
}

/// The model of a [`SavedConnectionState`], a [`ConnectedState`] (which has a connection) or a
/// [`DisconnectedState`] (which has none): in either, the channels and the GPADLs.
#[verifier::ext_equal]
pub struct SavedConnectionView {
    pub connection: Option<Connection>,
    pub channels: Seq<Channel>,
    pub gpadls: Seq<GpadlView>,
}

impl SavedConnectionView {
    /// A disconnected server without reserved channels.
    pub open spec fn empty() -> SavedConnectionView {
        SavedConnectionView { connection: None, channels: Seq::empty(), gpadls: Seq::empty() }
    }
}

impl View for ConnectedState {
    type V = SavedConnectionView;

    open spec fn view(&self) -> SavedConnectionView {
        SavedConnectionView {
            connection: Some(self.connection),
            channels: self.channels@,
            gpadls: gpadl_views(self.gpadls@),
        }
    }
}

impl View for DisconnectedState {
    type V = SavedConnectionView;

    open spec fn view(&self) -> SavedConnectionView {
        SavedConnectionView {
            connection: None,
            channels: self.reserved_channels@,
            gpadls: gpadl_views(self.reserved_gpadls@),
        }
    }
}

impl View for SavedConnectionState {
    type V = SavedConnectionView;

    open spec fn view(&self) -> SavedConnectionView {
        match self {
            SavedConnectionState::Connected(connected) => connected@,
            SavedConnectionState::Disconnected(disconnected) => disconnected@,
        }
    }
}

impl Default for DisconnectedState {
    fn default() -> (state: DisconnectedState)
        ensures
            state@ == SavedConnectionView::empty(),
            state.reserved_channels@.len() == 0,
            state.reserved_gpadls@.len() == 0,
    {
        let state = DisconnectedState { reserved_channels: Vec::new(), reserved_gpadls: Vec::new() };
        assert(state@.gpadls =~= Seq::empty());
        state
    }
}

/// The saved state of a server, in the form in which it is stored.
///
/// Its two halves exclude each other, and are apart so that older saved states can be read. A
/// saved state that this library makes has exactly one of them; an older one may have neither.
/// What it holds is found by turning it into [`SavedStateData`], which has both cases to deal
/// with.
#[derive(Clone, Debug)]
pub struct SavedState {
    state: Option<ConnectedState>,
    disconnected_state: Option<DisconnectedState>,
    pending_messages: Vec<OutgoingMessage>,
}

impl SavedState {
    /// The stored connected half.
    pub closed spec fn stored_connected(self) -> Option<ConnectedState> {
        self.state
    }

    /// The stored disconnected half.
    pub closed spec fn stored_disconnected(self) -> Option<DisconnectedState> {
        self.disconnected_state
    }

    /// The stored messages.
    pub closed spec fn stored_messages(self) -> Vec<OutgoingMessage> {
        self.pending_messages
    }

    /// The state that is stored: that of the connected half, if it is there; else that of the
    /// disconnected half, which is empty where an older saved state has none.
    pub open spec fn stored_state(self) -> SavedConnectionView {
        match (self.stored_connected(), self.stored_disconnected()) {
            (Some(connected), _) => connected@,
            (None, Some(disconnected)) => disconnected@,
            (None, None) => SavedConnectionView::empty(),
        }
    }

    /// Puts a saved state together from its stored fields.
    pub fn from_stored(
        state: Option<ConnectedState>,
        disconnected_state: Option<DisconnectedState>,
        pending_messages: Vec<OutgoingMessage>,
    ) -> (saved: SavedState)
        ensures
            saved.stored_connected() == state,
            saved.stored_disconnected() == disconnected_state,
            saved.stored_messages() == pending_messages,
    {
        SavedState { state, disconnected_state, pending_messages }
    }

    /// Takes a saved state apart into its stored fields.
    pub fn into_stored(self) -> (stored: (
        Option<ConnectedState>,
        Option<DisconnectedState>,
        Vec<OutgoingMessage>,
    ))
        ensures
            stored.0 == self.stored_connected(),
            stored.1 == self.stored_disconnected(),
            stored.2 == self.stored_messages(),
    {
        (self.state, self.disconnected_state, self.pending_messages)
    }
}

/// The saved state of a server, in the form in which it is used: connected or disconnected, and
/// nothing else.
pub struct SavedStateData {
    pub state: SavedConnectionState,
    pub pending_messages: Vec<OutgoingMessage>,
}

/// The model of [`SavedStateData`], and of a [`SavedState`].
#[verifier::ext_equal]
pub struct SavedStateView {
    pub state: SavedConnectionView,
    pub pending_messages: Seq<Seq<u8>>,
}

impl View for SavedState {
    type V = SavedStateView;

    open spec fn view(&self) -> SavedStateView {
        SavedStateView {
            state: self.stored_state(),
            pending_messages: message_views(self.stored_messages()@),
        }
    }
}

impl View for SavedStateData {
    type V = SavedStateView;

    open spec fn view(&self) -> SavedStateView {
        SavedStateView {
            state: self.state@,
            pending_messages: message_views(self.pending_messages@),
        }
    }
}

impl From<SavedStateData> for SavedState {
    fn from(value: SavedStateData) -> (saved: SavedState)
        ensures
            saved@ == value@,
            saved.stored_messages() == value.pending_messages,
            match value.state {
                SavedConnectionState::Connected(connected) => saved.stored_connected() == Some(
                    connected,
                ) && saved.stored_disconnected() is None,
                SavedConnectionState::Disconnected(disconnected) => saved.stored_connected() is None
                    && saved.stored_disconnected() == Some(disconnected),
            },
    {
        let (state, disconnected_state) = match value.state {
            SavedConnectionState::Connected(connected) => (Some(connected), None),
            SavedConnectionState::Disconnected(disconnected) => (None, Some(disconnected)),
        };
        SavedState { state, disconnected_state, pending_messages: value.pending_messages }
    }
}

impl vstd::std_specs::convert::FromSpecImpl<SavedStateData> for SavedState {
    /// The conversion is specified on `from` itself, over the models.
    open spec fn obeys_from_spec() -> bool {
        false
    }

    open spec fn from_spec(value: SavedStateData) -> SavedState {
        arbitrary()
    }
}

impl From<SavedState> for SavedStateData {
    fn from(value: SavedState) -> (data: SavedStateData)
        ensures
            data@ == value@,
            data.pending_messages == value.stored_messages(),
            match (value.stored_connected(), value.stored_disconnected()) {
                (Some(connected), _) => data.state == SavedConnectionState::Connected(connected),
                (None, Some(disconnected)) => data.state == SavedConnectionState::Disconnected(
                    disconnected,
                ),
                (None, None) => data.state matches SavedConnectionState::Disconnected(
                    disconnected,
                ) && disconnected.reserved_channels@.len() == 0
                    && disconnected.reserved_gpadls@.len() == 0,
            },
    {
        SavedStateData {
            state: match value.state {
                Some(connected) => SavedConnectionState::Connected(connected),
                None => match value.disconnected_state {
                    Some(disconnected) => SavedConnectionState::Disconnected(disconnected),
                    None => SavedConnectionState::Disconnected(DisconnectedState::default()),
                },
            },
            pending_messages: value.pending_messages,
        }
    }
}

impl vstd::std_specs::convert::FromSpecImpl<SavedState> for SavedStateData {
    /// The conversion is specified on `from` itself, over the models.
    open spec fn obeys_from_spec() -> bool {
        false
    }

    open spec fn from_spec(value: SavedState) -> SavedStateData {
        arbitrary()
    }
}

/// Tells which saved channels have the key `offer`.
pub open spec fn has_key(offer: OfferKey) -> spec_fn(Channel) -> bool {
    |channel: Channel| channel.key == offer
}

impl SavedStateData {
    /// Finds a channel in the saved state.
    pub fn find_channel(&self, offer: OfferKey) -> (found: Option<&Channel>)
        ensures
            match crate::vmbus::search::first_where(self@.state.channels, has_key(offer)) {
                Some(i) => found == Some(&self@.state.channels[i]),
                None => found is None,
            },
            match found {
                Some(channel) => {
                    &&& channel.key.interface_id == offer.interface_id
                    &&& channel.key.instance_id == offer.instance_id
                    &&& channel.key.subchannel_index == offer.subchannel_index
                    &&& exists|i: int|
                        {
                            &&& 0 <= i < self@.state.channels.len()
                            &&& #[trigger] self@.state.channels[i] == *channel
                            &&& forall|j: int|
                                0 <= j < i ==> (#[trigger] self@.state.channels[j]).key != offer
                        }
                },
                None => forall|i: int|
                    0 <= i < self@.state.channels.len() ==> (
                    #[trigger] self@.state.channels[i]).key != offer,
            },
    {
        let (channels, _) = self.channels_and_gpadls();
        let ghost all = self@.state.channels;
        for channel in it: channels
            invariant
                all == channels@,
                all == self@.state.channels,
                it.seq() == channels@.as_ref(),
                forall|i: int| 0 <= i < it.index() ==> !has_key(offer)(#[trigger] all[i]),
        {
            if channel.key == offer {
                proof {
                    crate::vmbus::search::lemma_first_is(all, has_key(offer), it.index() as int);
                    assert(all[it.index() as int] == *channel);
                    assert forall|j: int| 0 <= j < it.index() implies (#[trigger] all[j]).key
                        != offer by {
                        assert(!has_key(offer)(all[j]));
                    }
                }
                return Some(channel);
            }
        }
        proof {
            crate::vmbus::search::lemma_first_none(all, has_key(offer));
            assert forall|i: int| 0 <= i < all.len() implies (#[trigger] all[i]).key != offer by {
                assert(!has_key(offer)(all[i]));
            }
        }
        None
    }

    /// Retrieves all the channels and GPADLs from the saved state. If disconnected, returns any
    /// reserved channels and their GPADLs.
    pub fn channels_and_gpadls(&self) -> (found: (&[Channel], &[Gpadl]))
        ensures
            found.0@ == self@.state.channels,
            gpadl_views(found.1@) == self@.state.gpadls,
            match self.state {
                SavedConnectionState::Connected(connected) => found.0@ == connected.channels@
                    && found.1@ == connected.gpadls@,
                SavedConnectionState::Disconnected(disconnected) => found.0@
                    == disconnected.reserved_channels@ && found.1@
                    == disconnected.reserved_gpadls@,
            },
    {
        match &self.state {
            SavedConnectionState::Connected(connected) => (
                connected.channels.as_slice(),
                connected.gpadls.as_slice(),
            ),
            SavedConnectionState::Disconnected(disconnected) => (
                disconnected.reserved_channels.as_slice(),
                disconnected.reserved_gpadls.as_slice(),
            ),
        }
    }
}

} // verus!
