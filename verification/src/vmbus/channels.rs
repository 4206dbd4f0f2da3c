//! The live state of a VMBus server: its connection, its channels and their GPADLs.

use super::protocol::{ChannelId, GpadlId, Guid, MonitorId, OfferKey, VersionInfo};
use vstd::prelude::*;

verus! {

/// The guest addresses of the two monitor pages.
#[derive(Clone, Copy, Debug, PartialEq, Eq, Structural)]
pub struct MonitorPageGpas {
    pub parent_to_child: u64,
    pub child_to_parent: u64,
}

/// The monitor pages that a guest asks for when it initiates contact.
#[derive(Clone, Copy, Debug, PartialEq, Eq, Structural)]
pub enum MonitorPageRequest {
    /// The guest uses no monitor pages.
    Unset,
    /// The guest gives both pages.
    Gpas(MonitorPageGpas),
    /// The guest gives one page only.
    Invalid,
}

/// A guest's request to connect.
#[derive(Clone, Copy, Debug)]
pub struct InitiateContactRequest {
    pub version_requested: u32,
    pub target_message_vp: u32,
    pub monitor_page: MonitorPageRequest,
    pub target_sint: u8,
    pub target_vtl: u8,
    pub feature_flags: u32,
    pub interrupt_page: Option<u64>,
    pub client_id: Guid,
    pub trusted: bool,
}

/// What the server does when it has disconnected.
#[derive(Clone, Copy, Debug)]
pub enum ConnectionAction {
    NoAction,
    /// A reset that the server's owner asked for.
    Reset,
    SendUnloadComplete,
    Reconnect { initiate_contact: InitiateContactRequest },
    SendFailedVersionResponse,
}

/// The parameters of a connection.
#[derive(Clone, Copy, Debug)]
pub struct ConnectionInfo {
    pub version: VersionInfo,
    pub trusted: bool,
    pub offers_sent: bool,
    pub interrupt_page: Option<u64>,
    pub monitor_page: Option<MonitorPageGpas>,
    pub target_message_vp: u32,
    pub modifying: bool,
    pub client_id: Guid,
    pub paused: bool,
}

/// The state of the connection to the guest.
#[derive(Clone, Copy, Debug)]
pub enum ConnectionState {
    Disconnected,
    Connecting { info: ConnectionInfo, next_action: ConnectionAction },
    Connected(ConnectionInfo),
    Disconnecting { next_action: ConnectionAction, modify_sent: bool },
}

/// A change to one setting of the connection.
#[derive(Clone, Copy, Debug)]
pub enum Update<T> {
    Unchanged,
    Reset,
    To(T),
}

impl<T> Update<T> {
    /// The update after which the setting is `value`.
    pub open spec fn spec_to(value: Option<T>) -> Update<T> {
        match value {
            Some(value) => Update::To(value),
            None => Update::Reset,
        }
    }

    /// Returns the update after which the setting is `value`.
    pub fn to(value: Option<T>) -> (update: Update<T>)
        ensures
            update == Update::<T>::spec_to(value),
    {
        match value {
            Some(value) => Update::To(value),
            None => Update::Reset,
        }
    }
}

/// What the server asks its notifier to apply to the connection.
#[derive(Clone, Copy, Debug)]
pub struct ModifyConnectionRequest {
    pub version: Option<u32>,
    pub monitor_page: Update<MonitorPageGpas>,
    pub interrupt_page: Update<u64>,
    pub target_message_vp: Option<u32>,
    pub notify_relay: bool,
}

impl ConnectionState {
    /// What the notifier has to be told again once this state is restored. The values are those
    /// of the connection; a relay has to hear of them only where the guest still awaits the
    /// outcome. There is nothing to tell of a connection that is gone or going: a disconnect in
    /// progress resends its own request.
    pub open spec fn spec_restore_request(self) -> Option<ModifyConnectionRequest> {
        match self {
            ConnectionState::Connecting { info, next_action } => Some(
                ModifyConnectionRequest {
                    version: Some(info.version.version.0),
                    monitor_page: Update::spec_to(info.monitor_page),
                    interrupt_page: Update::spec_to(info.interrupt_page),
                    target_message_vp: Some(info.target_message_vp),
                    notify_relay: true,
                },
            ),
            ConnectionState::Connected(info) => Some(
                ModifyConnectionRequest {
                    version: None,
                    monitor_page: Update::spec_to(info.monitor_page),
                    interrupt_page: Update::spec_to(info.interrupt_page),
                    target_message_vp: Some(info.target_message_vp),
                    notify_relay: info.modifying,
                },
            ),
            ConnectionState::Disconnected => None,
            ConnectionState::Disconnecting { .. } => None,
        }
    }

    /// Returns what the notifier has to be told again once this state is restored.
    pub fn restore_request(&self) -> (request: Option<ModifyConnectionRequest>)
        ensures
            request == self.spec_restore_request(),
    {
        match *self {
            ConnectionState::Connecting { info, next_action: _ } => Some(
                ModifyConnectionRequest {
                    version: Some(info.version.version.0),
                    monitor_page: Update::to(info.monitor_page),
                    interrupt_page: Update::to(info.interrupt_page),
                    target_message_vp: Some(info.target_message_vp),
                    notify_relay: true,
                },
            ),
            ConnectionState::Connected(info) => Some(
                ModifyConnectionRequest {
                    version: None,
                    monitor_page: Update::to(info.monitor_page),
                    interrupt_page: Update::to(info.interrupt_page),
                    target_message_vp: Some(info.target_message_vp),
                    notify_relay: info.modifying,
                },
            ),
            ConnectionState::Disconnected => None,
            ConnectionState::Disconnecting { .. } => None,
        }
    }
}

/// How the guest is signaled on a channel, where it chose that itself.
#[derive(Clone, Copy, Debug, PartialEq, Eq, Structural)]
pub struct SignalInfo {
    pub event_flag: u16,
    pub connection_id: u32,
}

/// The bytes that an open request passes through to the device.
#[derive(Clone, Copy, Debug)]
pub struct UserDefinedData(pub [u8; 120]);

/// The flags of an open request.
#[derive(Clone, Copy, Debug, PartialEq, Eq, Structural)]
pub struct OpenChannelFlags(pub u16);

/// A guest's request to open a channel.
#[derive(Clone, Copy, Debug)]
pub struct OpenRequest {
    pub open_id: u32,
    pub ring_buffer_gpadl_id: GpadlId,
    pub target_vp: u32,
    pub downstream_ring_buffer_page_offset: u32,
    pub user_data: UserDefinedData,
    pub guest_specified_interrupt_info: Option<SignalInfo>,
    pub flags: OpenChannelFlags,
}

/// Whether a modification of an open channel is in progress.
#[derive(Clone, Copy, Debug, PartialEq, Eq, Structural)]
pub enum ModifyState {
    NotModifying,
    Modifying { pending_target_vp: Option<u32> },
}

/// Where messages about a reserved channel are sent.
#[derive(Clone, Copy, Debug, PartialEq, Eq, Structural)]
pub struct ConnectionTarget {
    pub vp: u32,
    pub sint: u8,
}

/// What a reserved channel keeps of the connection on which it was reserved.
#[derive(Clone, Copy, Debug, PartialEq, Eq, Structural)]
pub struct ReservedState {
    pub version: VersionInfo,
    pub target: ConnectionTarget,
}

/// The state of a channel.
#[derive(Clone, Copy, Debug)]
pub enum ChannelState {
    /// The guest does not know of the channel.
    ClientReleased,
    Closed,
    Opening { request: OpenRequest, reserved_state: Option<ReservedState> },
    Open { params: OpenRequest, modify_state: ModifyState, reserved_state: Option<ReservedState> },
    Closing { params: OpenRequest, reserved_state: Option<ReservedState> },
    ClosingReopen { params: OpenRequest, request: OpenRequest },
    /// The device is gone, and the guest has yet to release the channel.
    Revoked,
    /// The device came back before the guest released the channel.
    Reoffered,
    ClosingClientRelease,
    OpeningClientRelease,
}

impl ChannelState {
    /// The guest has released the channel.
    pub open spec fn spec_is_released(self) -> bool {
        self is ClientReleased || self is ClosingClientRelease || self is OpeningClientRelease
    }

    /// The channel was revoked, whether it has been offered again or not.
    pub open spec fn spec_is_revoked(self) -> bool {
        self is Revoked || self is Reoffered
    }

    /// The channel is reserved: it outlives the connection.
    pub open spec fn spec_is_reserved(self) -> bool {
        match self {
            ChannelState::Opening { reserved_state, .. } => reserved_state is Some,
            ChannelState::Open { reserved_state, .. } => reserved_state is Some,
            ChannelState::Closing { reserved_state, .. } => reserved_state is Some,
            _ => false,
        }
    }

    /// Tells whether the guest has released the channel.
    pub fn is_released(&self) -> (released: bool)
        ensures
            released == self.spec_is_released(),
    {
        match self {
            ChannelState::ClientReleased => true,
            ChannelState::ClosingClientRelease => true,
            ChannelState::OpeningClientRelease => true,
            _ => false,
        }
    }

    /// Tells whether the channel was revoked, whether it has been offered again or not.
    pub fn is_revoked(&self) -> (revoked: bool)
        ensures
            revoked == self.spec_is_revoked(),
    {
        match self {
            ChannelState::Revoked => true,
            ChannelState::Reoffered => true,
            _ => false,
        }
    }

    /// Tells whether the channel is reserved.
    pub fn is_reserved(&self) -> (reserved: bool)
        ensures
            reserved == self.spec_is_reserved(),
    {
        match self {
            ChannelState::Opening { reserved_state, .. } => reserved_state.is_some(),
            ChannelState::Open { reserved_state, .. } => reserved_state.is_some(),
            ChannelState::Closing { reserved_state, .. } => reserved_state.is_some(),
            _ => false,
        }
    }
}

/// How far the restore of a channel has come.
#[derive(Clone, Copy, Debug, PartialEq, Eq, Structural)]
pub enum RestoreState {
    /// Offered, and not part of a restore.
    New,
    /// In the saved state and offered, and its device has yet to restore it.
    Restoring,
    /// Restored by its device.
    Restored,
    /// In the saved state, and not offered yet.
    Unmatched,
}

/// What the guest was told of a channel.
#[derive(Clone, Copy, Debug, PartialEq, Eq, Structural)]
pub struct OfferedInfo {
    pub channel_id: ChannelId,
    pub connection_id: u32,
    pub monitor_id: Option<MonitorId>,
}

/// How a channel uses the monitor pages.
#[derive(Clone, Copy, Debug, PartialEq, Eq, Structural)]
pub enum MnfUsage {
    /// Not at all.
    NoMnf,
    /// With a monitor ID that the server picks.
    Normal,
    /// With the monitor ID that the relayed channel has.
    Relayed { monitor_id: u8 },
}

/// The parameters of an offer.
#[derive(Clone, Copy, Debug, PartialEq, Eq, Structural)]
pub struct OfferParamsInternal {
    pub interface_id: Guid,
    pub instance_id: Guid,
    pub subchannel_index: u16,
    pub use_mnf: MnfUsage,
}

impl OfferParamsInternal {
    /// The key of the offer.
    pub open spec fn spec_key(self) -> OfferKey {
        OfferKey {
            interface_id: self.interface_id,
            instance_id: self.instance_id,
            subchannel_index: self.subchannel_index,
        }
    }

    /// Returns the key of the offer.
    pub fn key(&self) -> (key: OfferKey)
        ensures
            key == self.spec_key(),
    {
        OfferKey {
            interface_id: self.interface_id,
            instance_id: self.instance_id,
            subchannel_index: self.subchannel_index,
        }
    }
}

/// A channel.
#[derive(Clone, Copy, Debug)]
pub struct Channel {
    /// What the guest was told of the channel; `None` while it has not been told of it.
    pub info: Option<OfferedInfo>,
    pub offer: OfferParamsInternal,
    pub state: ChannelState,
    pub restore_state: RestoreState,
}

/// The ID under which the server keeps an offer.
#[derive(Clone, Copy, Debug, PartialEq, Eq, Structural)]
pub struct OfferId(pub usize);

/// A channel ID could not be given to a channel.
#[derive(Clone, Copy, Debug, PartialEq, Eq, Structural)]
pub enum OfferError {
    /// The ID is not one that the server hands out.
    InvalidChannelId(ChannelId),
    /// Another channel has the ID.
    ChannelIdInUse(ChannelId),
}

/// The state of a GPADL.
#[derive(Clone, Copy, Debug, PartialEq, Eq, Structural)]
pub enum GpadlState {
    /// The guest has yet to send the rest of its pages.
    InProgress,
    /// Handed to the device.
    Offered,
    /// Handed to the device, and torn down by the guest before the device answered.
    OfferedTearingDown,
    /// Accepted by the device.
    Accepted,
    /// Torn down by the guest; the device has yet to let go of it.
    TearingDown,
}

/// A GPADL: guest memory that a channel may use, as `count` ranges encoded in `buf`.
#[derive(Debug)]
pub struct Gpadl {
    pub count: u16,
    pub buf: Vec<u64>,
    pub state: GpadlState,
}

/// The model of a [`Gpadl`].
#[verifier::ext_equal]
pub struct GpadlView {
    pub count: u16,
    pub buf: Seq<u64>,
    pub state: GpadlState,
}

impl View for Gpadl {
    type V = GpadlView;

    open spec fn view(&self) -> GpadlView {
        GpadlView { count: self.count, buf: self.buf@, state: self.state }
    }
}

/// A message to the guest.
#[derive(Debug)]
pub struct OutgoingMessage(Vec<u8>);

/// A message was longer than the largest that can be sent.
#[derive(Debug)]
pub struct MessageTooLarge;

impl View for OutgoingMessage {
    type V = Seq<u8>;

    closed spec fn view(&self) -> Seq<u8> {
        self.0@
    }
}

impl OutgoingMessage {
    /// Makes a message of `message`, unless it is longer than `max_message_size`.
    pub fn from_message(message: &Vec<u8>, max_message_size: usize) -> (result: Result<
        OutgoingMessage,
        MessageTooLarge,
    >)
        ensures
            result is Ok <==> message@.len() <= max_message_size,
            result matches Ok(made) ==> made@ == message@,
    {
        if message.len() > max_message_size {
            Err(MessageTooLarge)
        } else {
            let made = OutgoingMessage(message.clone());
            assert(made@ =~= message@);
            Ok(made)
        }
    }

    /// Returns the bytes of the message.
    pub fn data(&self) -> (data: &Vec<u8>)
        ensures
            data@ == self@,
    {
        &self.0
    }
}

} // verus!
