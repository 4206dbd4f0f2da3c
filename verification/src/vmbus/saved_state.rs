//! The saved form of a server's channel state, and how each part of it is made from the live
//! state and turned back into it.
//!
//! The saved types mirror the live ones of [`channels`], with plain numbers where the live state
//! has checked values: what comes back from storage may name a version or a feature that this
//! server does not support, and is then refused.

use super::channels;
use super::channels::{MnfUsage, OfferError, OfferParamsInternal, OfferedInfo};
use super::protocol;
use super::protocol::{ChannelId, FeatureFlags, GpadlId, Guid, MonitorId, OfferKey, Protocol};
use super::protocol::{ProtocolView, Version};
use vstd::prelude::*;

verus! {

/// What the validation of a GPADL's ranges reported.
#[derive(Debug)]
pub struct RangeError(pub anyhow::Error);

/// Why a saved state could not be restored.
#[derive(Debug)]
pub enum RestoreError {
    Offer(OfferError),
    AlreadyRestored(OfferKey),
    MissingGpadlChannel(GpadlId, ChannelId),
    GpadlForRevokedChannel(GpadlId, ChannelId),
    GpadlIdInUse(GpadlId, ChannelId),
    UnsupportedVersion(u32),
    InvalidGpadl(RangeError),
    UnsupportedFeatureFlags(u32),
    MismatchedOpenState(OfferKey),
    MissingChannel(OfferKey),
    UnsupportedReserveVersion(u32),
    UnsupportedReserveFeatureFlags(u32),
    /// The monitor ID of the offer, and the one in the saved state.
    MismatchedMonitorId(u8, Option<u8>),
    DuplicateMonitorId(u8),
    ServerError(anyhow::Error),
    MissingReservedChannel(u32),
    MessageTooLarge,
}

impl From<OfferError> for RestoreError {
    fn from(error: OfferError) -> (result: RestoreError)
        ensures
            result == RestoreError::Offer(error),
    {
        RestoreError::Offer(error)
    }
}

impl vstd::std_specs::convert::FromSpecImpl<OfferError> for RestoreError {
    open spec fn obeys_from_spec() -> bool {
        true
    }

    open spec fn from_spec(error: OfferError) -> RestoreError {
        RestoreError::Offer(error)
    }
}

impl From<RangeError> for RestoreError {
    fn from(error: RangeError) -> (result: RestoreError)
        ensures
            result == RestoreError::InvalidGpadl(error),
    {
        RestoreError::InvalidGpadl(error)
    }
}

impl vstd::std_specs::convert::FromSpecImpl<RangeError> for RestoreError {
    open spec fn obeys_from_spec() -> bool {
        true
    }

    open spec fn from_spec(error: RangeError) -> RestoreError {
        RestoreError::InvalidGpadl(error)
    }
}

impl From<anyhow::Error> for RestoreError {
    fn from(error: anyhow::Error) -> (result: RestoreError)
        ensures
            result == RestoreError::ServerError(error),
    {
        RestoreError::ServerError(error)
    }
}

impl vstd::std_specs::convert::FromSpecImpl<anyhow::Error> for RestoreError {
    open spec fn obeys_from_spec() -> bool {
        true
    }

    open spec fn from_spec(error: anyhow::Error) -> RestoreError {
        RestoreError::ServerError(error)
    }
}

/// A saved version, with the features negotiated.
#[derive(Clone, Copy, Debug)]
pub struct VersionInfo {
    pub version: u32,
    pub feature_flags: u32,
}

impl VersionInfo {
    /// The saved form.
    pub open spec fn spec_save(value: protocol::VersionInfo) -> VersionInfo {
        VersionInfo { version: value.version.0, feature_flags: value.feature_flags.0 }
    }

    /// The live version that the saved numbers stand for.
    pub open spec fn live(self) -> protocol::VersionInfo {
        protocol::VersionInfo {
            version: Version(self.version),
            feature_flags: FeatureFlags(self.feature_flags),
        }
    }

    /// The version is refused unless it is supported, then the features are, unless all of them
    /// are supported on a connection that is `trusted` or not.
    pub open spec fn spec_restore(self, trusted: bool, protocol: ProtocolView) -> Result<
        protocol::VersionInfo,
        RestoreError,
    > {
        if !protocol.supported_versions.contains(Version(self.version)) {
            Err(RestoreError::UnsupportedVersion(self.version))
        } else if !protocol.feature_flags(trusted).spec_contains(
            FeatureFlags(self.feature_flags),
        ) {
            Err(RestoreError::UnsupportedFeatureFlags(self.feature_flags))
        } else {
            Ok(self.live())
        }
    }

    /// Saves a version.
    pub fn save(value: &protocol::VersionInfo) -> (saved: VersionInfo)
        ensures
            saved == VersionInfo::spec_save(*value),
    {
        VersionInfo { version: value.version.0, feature_flags: value.feature_flags.0 }
    }

    /// Restores a version, if a connection that is `trusted` or not can have it.
    pub fn restore(self, trusted: bool, protocol: &Protocol) -> (result: Result<
        protocol::VersionInfo,
        RestoreError,
    >)
        ensures
            result == self.spec_restore(trusted, protocol@),
    {
        let version = Version(self.version);
        if !protocol.supports_version(version) {
            return Err(RestoreError::UnsupportedVersion(self.version));
        }
        let feature_flags = FeatureFlags(self.feature_flags);
        if !protocol.feature_flags(trusted).contains(feature_flags) {
            return Err(RestoreError::UnsupportedFeatureFlags(self.feature_flags));
        }
        Ok(protocol::VersionInfo { version, feature_flags })
    }
}

/// Saved monitor page addresses.
#[derive(Clone, Copy, Debug, PartialEq, Eq, Structural)]
pub struct MonitorPageGpas {
    pub parent_to_child: u64,
    pub child_to_parent: u64,
}

impl MonitorPageGpas {
    /// The saved form.
    pub open spec fn spec_save(value: channels::MonitorPageGpas) -> MonitorPageGpas {
        MonitorPageGpas {
            parent_to_child: value.parent_to_child,
            child_to_parent: value.child_to_parent,
        }
    }

    /// The live value that the saved form stands for.
    pub open spec fn spec_restore(self) -> channels::MonitorPageGpas {
        channels::MonitorPageGpas {
            parent_to_child: self.parent_to_child,
            child_to_parent: self.child_to_parent,
        }
    }

    /// The saved form, where there is a value.
    pub open spec fn spec_save_option(value: Option<channels::MonitorPageGpas>) -> Option<
        MonitorPageGpas,
    > {
        match value {
            Some(value) => Some(MonitorPageGpas::spec_save(value)),
            None => None,
        }
    }

    /// The live value that the saved form stands for, where there is one.
    pub open spec fn spec_restore_option(value: Option<MonitorPageGpas>) -> Option<
        channels::MonitorPageGpas,
    > {
        match value {
            Some(value) => Some(value.spec_restore()),
            None => None,
        }
    }

    /// Saves a pair of monitor pages.
    pub fn save(value: channels::MonitorPageGpas) -> (saved: MonitorPageGpas)
        ensures
            saved == MonitorPageGpas::spec_save(value),
    {
        MonitorPageGpas {
            child_to_parent: value.child_to_parent,
            parent_to_child: value.parent_to_child,
        }
    }

    /// Restores a pair of monitor pages.
    pub fn restore(self) -> (restored: channels::MonitorPageGpas)
        ensures
            restored == self.spec_restore(),
    {
        channels::MonitorPageGpas {
            child_to_parent: self.child_to_parent,
            parent_to_child: self.parent_to_child,
        }
    }

    fn save_option(value: Option<channels::MonitorPageGpas>) -> (saved: Option<MonitorPageGpas>)
        ensures
            saved == MonitorPageGpas::spec_save_option(value),
    {
        match value {
            Some(value) => Some(MonitorPageGpas::save(value)),
            None => None,
        }
    }

    fn restore_option(value: Option<MonitorPageGpas>) -> (restored: Option<
        channels::MonitorPageGpas,
    >)
        ensures
            restored == MonitorPageGpas::spec_restore_option(value),
    {
        match value {
            Some(value) => Some(value.restore()),
            None => None,
        }
    }
}

/// A saved request for monitor pages.
#[derive(Clone, Copy, Debug, PartialEq, Eq, Structural)]
pub enum MonitorPageRequest {
    Unset,
    Gpas(MonitorPageGpas),
    Invalid,
}

impl MonitorPageRequest {
    /// The saved form.
    pub open spec fn spec_save(value: channels::MonitorPageRequest) -> MonitorPageRequest {
        match value {
            channels::MonitorPageRequest::Unset => MonitorPageRequest::Unset,
            channels::MonitorPageRequest::Gpas(gpas) => MonitorPageRequest::Gpas(
                MonitorPageGpas::spec_save(gpas),
            ),
            channels::MonitorPageRequest::Invalid => MonitorPageRequest::Invalid,
        }
    }

    /// The live value that the saved form stands for.
    pub open spec fn spec_restore(self) -> channels::MonitorPageRequest {
        match self {
            MonitorPageRequest::Unset => channels::MonitorPageRequest::Unset,
            MonitorPageRequest::Gpas(gpas) => channels::MonitorPageRequest::Gpas(
                gpas.spec_restore(),
            ),
            MonitorPageRequest::Invalid => channels::MonitorPageRequest::Invalid,
        }
    }

    /// Saves a request for monitor pages.
    pub fn save(value: channels::MonitorPageRequest) -> (saved: MonitorPageRequest)
        ensures
            saved == MonitorPageRequest::spec_save(value),
    {
        match value {
            channels::MonitorPageRequest::Unset => MonitorPageRequest::Unset,
            channels::MonitorPageRequest::Gpas(gpas) => MonitorPageRequest::Gpas(
                MonitorPageGpas::save(gpas),
            ),
            channels::MonitorPageRequest::Invalid => MonitorPageRequest::Invalid,
        }
    }

    /// Restores a request for monitor pages.
    pub fn restore(self) -> (restored: channels::MonitorPageRequest)
        ensures
            restored == self.spec_restore(),
    {
        match self {
            MonitorPageRequest::Unset => channels::MonitorPageRequest::Unset,
            MonitorPageRequest::Gpas(gpas) => channels::MonitorPageRequest::Gpas(gpas.restore()),
            MonitorPageRequest::Invalid => channels::MonitorPageRequest::Invalid,
        }
    }
}

/// A saved request to connect.
#[derive(Clone, Copy, Debug, PartialEq, Eq, Structural)]
pub struct InitiateContactRequest {
    pub version_requested: u32,
    pub target_message_vp: u32,
    pub monitor_page: MonitorPageRequest,
    pub target_sint: u8,
    pub target_vtl: u8,
    pub feature_flags: u32,
    pub interrupt_page: Option<u64>,
    pub client_id: Guid,
    pub trusted: bool,
}

impl InitiateContactRequest {
    /// The saved form.
    pub open spec fn spec_save(value: channels::InitiateContactRequest) -> InitiateContactRequest {
        InitiateContactRequest {
            version_requested: value.version_requested,
            target_message_vp: value.target_message_vp,
            monitor_page: MonitorPageRequest::spec_save(value.monitor_page),
            target_sint: value.target_sint,
            target_vtl: value.target_vtl,
            feature_flags: value.feature_flags,
            interrupt_page: value.interrupt_page,
            client_id: value.client_id,
            trusted: value.trusted,
        }
    }

    /// The live value that the saved form stands for.
    pub open spec fn spec_restore(self) -> channels::InitiateContactRequest {
        channels::InitiateContactRequest {
            version_requested: self.version_requested,
            target_message_vp: self.target_message_vp,
            monitor_page: self.monitor_page.spec_restore(),
            target_sint: self.target_sint,
            target_vtl: self.target_vtl,
            feature_flags: self.feature_flags,
            interrupt_page: self.interrupt_page,
            client_id: self.client_id,
            trusted: self.trusted,
        }
    }

    /// Saves a request to connect.
    pub fn save(value: &channels::InitiateContactRequest) -> (saved: InitiateContactRequest)
        ensures
            saved == InitiateContactRequest::spec_save(*value),
    {
        InitiateContactRequest {
            version_requested: value.version_requested,
            target_message_vp: value.target_message_vp,
            monitor_page: MonitorPageRequest::save(value.monitor_page),
            target_sint: value.target_sint,
            target_vtl: value.target_vtl,
            feature_flags: value.feature_flags,
            interrupt_page: value.interrupt_page,
            client_id: value.client_id,
            trusted: value.trusted,
        }
    }

    /// Restores a request to connect.
    pub fn restore(self) -> (restored: channels::InitiateContactRequest)
        ensures
            restored == self.spec_restore(),
    {
        channels::InitiateContactRequest {
            version_requested: self.version_requested,
            target_message_vp: self.target_message_vp,
            monitor_page: self.monitor_page.restore(),
            target_sint: self.target_sint,
            target_vtl: self.target_vtl,
            feature_flags: self.feature_flags,
            interrupt_page: self.interrupt_page,
            client_id: self.client_id,
            trusted: self.trusted,
        }
    }
}

/// What the server does once it has disconnected, in saved form.
#[derive(Clone, Copy, Debug)]
pub enum ConnectionAction {
    NoAction,
    SendUnloadComplete,
    Reconnect { initiate_contact: InitiateContactRequest },
    SendFailedVersionResponse,
}

impl ConnectionAction {
    /// A reset is not saved: whoever asked for it remembers it and asks again.
    pub open spec fn spec_save(value: channels::ConnectionAction) -> ConnectionAction {
        match value {
            channels::ConnectionAction::NoAction => ConnectionAction::NoAction,
            channels::ConnectionAction::Reset => ConnectionAction::NoAction,
            channels::ConnectionAction::SendUnloadComplete => ConnectionAction::SendUnloadComplete,
            channels::ConnectionAction::Reconnect { initiate_contact } =>
                ConnectionAction::Reconnect {
                initiate_contact: InitiateContactRequest::spec_save(initiate_contact),
            },
            channels::ConnectionAction::SendFailedVersionResponse =>
                ConnectionAction::SendFailedVersionResponse,
        }
    }

    /// The live value that the saved form stands for.
    pub open spec fn spec_restore(self) -> channels::ConnectionAction {
        match self {
            ConnectionAction::NoAction => channels::ConnectionAction::NoAction,
            ConnectionAction::SendUnloadComplete => channels::ConnectionAction::SendUnloadComplete,
            ConnectionAction::Reconnect { initiate_contact } =>
                channels::ConnectionAction::Reconnect {
                initiate_contact: initiate_contact.spec_restore(),
            },
            ConnectionAction::SendFailedVersionResponse =>
                channels::ConnectionAction::SendFailedVersionResponse,
        }
    }

    /// Saves the action that follows a disconnect.
    pub fn save(value: &channels::ConnectionAction) -> (saved: ConnectionAction)
        ensures
            saved == ConnectionAction::spec_save(*value),
    {
        match value {
            channels::ConnectionAction::Reset => ConnectionAction::NoAction,
            channels::ConnectionAction::NoAction => ConnectionAction::NoAction,
            channels::ConnectionAction::SendUnloadComplete => ConnectionAction::SendUnloadComplete,
            channels::ConnectionAction::Reconnect { initiate_contact } =>
                ConnectionAction::Reconnect {
                initiate_contact: InitiateContactRequest::save(initiate_contact),
            },
            channels::ConnectionAction::SendFailedVersionResponse =>
                ConnectionAction::SendFailedVersionResponse,
        }
    }

    /// Restores the action that follows a disconnect.
    pub fn restore(self) -> (restored: channels::ConnectionAction)
        ensures
            restored == self.spec_restore(),
    {
        match self {
            ConnectionAction::NoAction => channels::ConnectionAction::NoAction,
            ConnectionAction::SendUnloadComplete => channels::ConnectionAction::SendUnloadComplete,
            ConnectionAction::Reconnect { initiate_contact } =>
                channels::ConnectionAction::Reconnect { initiate_contact: initiate_contact.restore() },
            ConnectionAction::SendFailedVersionResponse =>
                channels::ConnectionAction::SendFailedVersionResponse,
        }
    }
}

/// A saved connection. A server that is disconnected has none.
#[derive(Clone, Copy, Debug)]
pub enum Connection {
    Disconnecting { next_action: ConnectionAction },
    Connecting {
        version: VersionInfo,
        interrupt_page: Option<u64>,
        monitor_page: Option<MonitorPageGpas>,
        target_message_vp: u32,
        next_action: ConnectionAction,
        client_id: Option<Guid>,
        trusted: bool,
    },
    Connected {
        version: VersionInfo,
        offers_sent: bool,
        interrupt_page: Option<u64>,
        monitor_page: Option<MonitorPageGpas>,
        target_message_vp: u32,
        modifying: bool,
        client_id: Option<Guid>,
        trusted: bool,
        paused: bool,
    },
}

/// The client ID that a saved connection stands for: zero where it was saved without one.
pub open spec fn client_id_or_zero(client_id: Option<Guid>) -> Guid {
    match client_id {
        Some(client_id) => client_id,
        None => Guid(0),
    }
}

impl Connection {
    /// The saved form.
    pub open spec fn spec_save(value: channels::ConnectionState) -> Option<Connection> {
        match value {
            channels::ConnectionState::Disconnected => None,
            channels::ConnectionState::Connecting { info, next_action } => Some(
                Connection::Connecting {
                    version: VersionInfo::spec_save(info.version),
                    interrupt_page: info.interrupt_page,
                    monitor_page: MonitorPageGpas::spec_save_option(info.monitor_page),
                    target_message_vp: info.target_message_vp,
                    next_action: ConnectionAction::spec_save(next_action),
                    client_id: Some(info.client_id),
                    trusted: info.trusted,
                },
            ),
            channels::ConnectionState::Connected(info) => Some(
                Connection::Connected {
                    version: VersionInfo::spec_save(info.version),
                    offers_sent: info.offers_sent,
                    interrupt_page: info.interrupt_page,
                    monitor_page: MonitorPageGpas::spec_save_option(info.monitor_page),
                    target_message_vp: info.target_message_vp,
                    modifying: info.modifying,
                    client_id: Some(info.client_id),
                    trusted: info.trusted,
                    paused: info.paused,
                },
            ),
            channels::ConnectionState::Disconnecting { next_action, modify_sent } => Some(
                Connection::Disconnecting { next_action: ConnectionAction::spec_save(next_action) },
            ),
        }
    }

    /// The version is refused or accepted as on a new connection. A guest that was still
    /// connecting has not been sent its offers, and is neither modifying nor paused. A request
    /// that was sent while disconnecting is to be sent again.
    pub open spec fn spec_restore(self, protocol: ProtocolView) -> Result<
        channels::ConnectionState,
        RestoreError,
    > {
        match self {
            Connection::Connecting {
                version,
                interrupt_page,
                monitor_page,
                target_message_vp,
                next_action,
                client_id,
                trusted,
            } => match version.spec_restore(trusted, protocol) {
                Err(error) => Err(error),
                Ok(version) => Ok(
                    channels::ConnectionState::Connecting {
                        info: channels::ConnectionInfo {
                            version,
                            trusted,
                            offers_sent: false,
                            interrupt_page,
                            monitor_page: MonitorPageGpas::spec_restore_option(monitor_page),
                            target_message_vp,
                            modifying: false,
                            client_id: client_id_or_zero(client_id),
                            paused: false,
                        },
                        next_action: next_action.spec_restore(),
                    },
                ),
            },
            Connection::Connected {
                version,
                offers_sent,
                interrupt_page,
                monitor_page,
                target_message_vp,
                modifying,
                client_id,
                trusted,
                paused,
            } => match version.spec_restore(trusted, protocol) {
                Err(error) => Err(error),
                Ok(version) => Ok(
                    channels::ConnectionState::Connected(
                        channels::ConnectionInfo {
                            version,
                            trusted,
                            offers_sent,
                            interrupt_page,
                            monitor_page: MonitorPageGpas::spec_restore_option(monitor_page),
                            target_message_vp,
                            modifying,
                            client_id: client_id_or_zero(client_id),
                            paused,
                        },
                    ),
                ),
            },
            Connection::Disconnecting { next_action } => Ok(
                channels::ConnectionState::Disconnecting {
                    next_action: next_action.spec_restore(),
                    modify_sent: false,
                },
            ),
        }
    }

    /// Saves the state of a connection, if there is one.
    pub fn save(value: &channels::ConnectionState) -> (saved: Option<Connection>)
        ensures
            saved == Connection::spec_save(*value),
    {
        match value {
            channels::ConnectionState::Disconnected => None,
            channels::ConnectionState::Connecting { info, next_action } => Some(
                Connection::Connecting {
                    version: VersionInfo::save(&info.version),
                    interrupt_page: info.interrupt_page,
                    monitor_page: MonitorPageGpas::save_option(info.monitor_page),
                    target_message_vp: info.target_message_vp,
                    next_action: ConnectionAction::save(next_action),
                    client_id: Some(info.client_id),
                    trusted: info.trusted,
                },
            ),
            channels::ConnectionState::Connected(info) => Some(
                Connection::Connected {
                    version: VersionInfo::save(&info.version),
                    offers_sent: info.offers_sent,
                    interrupt_page: info.interrupt_page,
                    monitor_page: MonitorPageGpas::save_option(info.monitor_page),
                    target_message_vp: info.target_message_vp,
                    modifying: info.modifying,
                    client_id: Some(info.client_id),
                    trusted: info.trusted,
                    paused: info.paused,
                },
            ),
            channels::ConnectionState::Disconnecting { next_action, modify_sent: _ } => Some(
                Connection::Disconnecting { next_action: ConnectionAction::save(next_action) },
            ),
        }
    }

    /// Restores the state of a connection, if the server supports its version and features.
    pub fn restore(self, protocol: &Protocol) -> (result: Result<
        channels::ConnectionState,
        RestoreError,
    >)
        ensures
            result == self.spec_restore(protocol@),
    {
        match self {
            Connection::Connecting {
                version,
                interrupt_page,
                monitor_page,
                target_message_vp,
                next_action,
                client_id,
                trusted,
            } => match version.restore(trusted, protocol) {
                Err(error) => Err(error),
                Ok(version) => Ok(
                    channels::ConnectionState::Connecting {
                        info: channels::ConnectionInfo {
                            version,
                            trusted,
                            offers_sent: false,
                            interrupt_page,
                            monitor_page: MonitorPageGpas::restore_option(monitor_page),
                            target_message_vp,
                            modifying: false,
                            client_id: client_id.unwrap_or(Guid::zero()),
                            paused: false,
                        },
                        next_action: next_action.restore(),
                    },
                ),
            },
            Connection::Connected {
                version,
                offers_sent,
                interrupt_page,
                monitor_page,
                target_message_vp,
                modifying,
                client_id,
                trusted,
                paused,
            } => match version.restore(trusted, protocol) {
                Err(error) => Err(error),
                Ok(version) => Ok(
                    channels::ConnectionState::Connected(
                        channels::ConnectionInfo {
                            version,
                            trusted,
                            offers_sent,
                            interrupt_page,
                            monitor_page: MonitorPageGpas::restore_option(monitor_page),
                            target_message_vp,
                            modifying,
                            client_id: client_id.unwrap_or(Guid::zero()),
                            paused,
                        },
                    ),
                ),
            },
            Connection::Disconnecting { next_action } => Ok(
                channels::ConnectionState::Disconnecting {
                    next_action: next_action.restore(),
                    modify_sent: false,
                },
            ),
        }
    }
}

/// Saved signal parameters.
#[derive(Clone, Copy, Debug)]
pub struct SignalInfo {
    pub event_flag: u16,
    pub connection_id: u32,
}

impl SignalInfo {
    /// The saved form.
    pub open spec fn spec_save(value: channels::SignalInfo) -> SignalInfo {
        SignalInfo { event_flag: value.event_flag, connection_id: value.connection_id }
    }

    /// The live value that the saved form stands for.
    pub open spec fn spec_restore(self) -> channels::SignalInfo {
        channels::SignalInfo { event_flag: self.event_flag, connection_id: self.connection_id }
    }

    /// Saves signal parameters.
    pub fn save(value: &channels::SignalInfo) -> (saved: SignalInfo)
        ensures
            saved == SignalInfo::spec_save(*value),
    {
        SignalInfo { event_flag: value.event_flag, connection_id: value.connection_id }
    }

    /// Restores signal parameters.
    pub fn restore(self) -> (restored: channels::SignalInfo)
        ensures
            restored == self.spec_restore(),
    {
        channels::SignalInfo { event_flag: self.event_flag, connection_id: self.connection_id }
    }
}

/// A saved open request.
#[derive(Clone, Copy, Debug)]
pub struct OpenRequest {
    pub open_id: u32,
    pub ring_buffer_gpadl_id: GpadlId,
    pub target_vp: u32,
    pub downstream_ring_buffer_page_offset: u32,
    pub user_data: [u8; 120],
    pub guest_specified_interrupt_info: Option<SignalInfo>,
    pub flags: u16,
}

impl OpenRequest {
    /// The saved form.
    pub open spec fn spec_save(value: channels::OpenRequest) -> OpenRequest {
        OpenRequest {
            open_id: value.open_id,
            ring_buffer_gpadl_id: value.ring_buffer_gpadl_id,
            target_vp: value.target_vp,
            downstream_ring_buffer_page_offset: value.downstream_ring_buffer_page_offset,
            user_data: value.user_data.0,
            guest_specified_interrupt_info: match value.guest_specified_interrupt_info {
                Some(info) => Some(SignalInfo::spec_save(info)),
                None => None,
            },
            flags: value.flags.0,
        }
    }

    /// The live value that the saved form stands for.
    pub open spec fn spec_restore(self) -> channels::OpenRequest {
        channels::OpenRequest {
            open_id: self.open_id,
            ring_buffer_gpadl_id: self.ring_buffer_gpadl_id,
            target_vp: self.target_vp,
            downstream_ring_buffer_page_offset: self.downstream_ring_buffer_page_offset,
            user_data: channels::UserDefinedData(self.user_data),
            guest_specified_interrupt_info: match self.guest_specified_interrupt_info {
                Some(info) => Some(info.spec_restore()),
                None => None,
            },
            flags: channels::OpenChannelFlags(self.flags),
        }
    }

    /// Saves an open request.
    pub fn save(value: &channels::OpenRequest) -> (saved: OpenRequest)
        ensures
            saved == OpenRequest::spec_save(*value),
    {
        OpenRequest {
            open_id: value.open_id,
            ring_buffer_gpadl_id: value.ring_buffer_gpadl_id,
            target_vp: value.target_vp,
            downstream_ring_buffer_page_offset: value.downstream_ring_buffer_page_offset,
            user_data: value.user_data.0,
            guest_specified_interrupt_info: match &value.guest_specified_interrupt_info {
                Some(info) => Some(SignalInfo::save(info)),
                None => None,
            },
            flags: value.flags.0,
        }
    }

    /// Restores an open request.
    pub fn restore(self) -> (restored: channels::OpenRequest)
        ensures
            restored == self.spec_restore(),
    {
        channels::OpenRequest {
            open_id: self.open_id,
            ring_buffer_gpadl_id: self.ring_buffer_gpadl_id,
            target_vp: self.target_vp,
            downstream_ring_buffer_page_offset: self.downstream_ring_buffer_page_offset,
            user_data: channels::UserDefinedData(self.user_data),
            guest_specified_interrupt_info: match self.guest_specified_interrupt_info {
                Some(info) => Some(info.restore()),
                None => None,
            },
            flags: channels::OpenChannelFlags(self.flags),
        }
    }
}

/// Whether a modification was in progress, in saved form.
#[derive(Clone, Copy, Debug)]
pub enum ModifyState {
    NotModifying,
    Modifying { pending_target_vp: Option<u32> },
}

impl ModifyState {
    /// The saved form.
    pub open spec fn spec_save(value: channels::ModifyState) -> ModifyState {
        match value {
            channels::ModifyState::NotModifying => ModifyState::NotModifying,
            channels::ModifyState::Modifying { pending_target_vp } => ModifyState::Modifying {
                pending_target_vp,
            },
        }
    }

    /// The live value that the saved form stands for.
    pub open spec fn spec_restore(self) -> channels::ModifyState {
        match self {
            ModifyState::NotModifying => channels::ModifyState::NotModifying,
            ModifyState::Modifying { pending_target_vp } => channels::ModifyState::Modifying {
                pending_target_vp,
            },
        }
    }

    /// Saves whether a modification is in progress.
    pub fn save(value: &channels::ModifyState) -> (saved: ModifyState)
        ensures
            saved == ModifyState::spec_save(*value),
    {
        match value {
            channels::ModifyState::NotModifying => ModifyState::NotModifying,
            channels::ModifyState::Modifying { pending_target_vp } => ModifyState::Modifying {
                pending_target_vp: *pending_target_vp,
            },
        }
    }

    /// Restores whether a modification is in progress.
    pub fn restore(self) -> (restored: channels::ModifyState)
        ensures
            restored == self.spec_restore(),
    {
        match self {
            ModifyState::NotModifying => channels::ModifyState::NotModifying,
            ModifyState::Modifying { pending_target_vp } => channels::ModifyState::Modifying {
                pending_target_vp,
            },
        }
    }
}

/// The saved state of a reserved channel.
#[derive(Clone, Copy, Debug)]
pub struct ReservedState {
    pub version: VersionInfo,
    pub vp: u32,
    pub sint: u8,
}

impl ReservedState {
    /// The saved form.
    pub open spec fn spec_save(value: channels::ReservedState) -> ReservedState {
        ReservedState {
            version: VersionInfo::spec_save(value.version),
            vp: value.target.vp,
            sint: value.target.sint,
        }
    }

    /// The saved form, where there is a value.
    pub open spec fn spec_save_option(value: Option<channels::ReservedState>) -> Option<
        ReservedState,
    > {
        match value {
            Some(value) => Some(ReservedState::spec_save(value)),
            None => None,
        }
    }

    /// The version and the features are held to what a trusted connection can have, since the
    /// connection on which the channel was reserved is not known. The version has to be one in
    /// which a channel can be reserved.
    pub open spec fn spec_restore(self, protocol: ProtocolView) -> Result<
        channels::ReservedState,
        RestoreError,
    > {
        match self.version.spec_restore(true, protocol) {
            Err(RestoreError::UnsupportedVersion(version)) => Err(
                RestoreError::UnsupportedReserveVersion(version),
            ),
            Err(RestoreError::UnsupportedFeatureFlags(flags)) => Err(
                RestoreError::UnsupportedReserveFeatureFlags(flags),
            ),
            Err(error) => Err(error),
            Ok(version) => if version.version.0 < protocol.first_reserve_version.0 {
                Err(RestoreError::UnsupportedReserveVersion(version.version.0))
            } else {
                Ok(
                    channels::ReservedState {
                        version,
                        target: channels::ConnectionTarget { vp: self.vp, sint: self.sint },
                    },
                )
            },
        }
    }

    /// A channel that was not reserved comes back so.
    pub open spec fn spec_restore_option(
        value: Option<ReservedState>,
        protocol: ProtocolView,
    ) -> Result<Option<channels::ReservedState>, RestoreError> {
        match value {
            None => Ok(None),
            Some(value) => match value.spec_restore(protocol) {
                Ok(restored) => Ok(Some(restored)),
                Err(error) => Err(error),
            },
        }
    }

    /// Saves the state of a reserved channel.
    pub fn save(reserved_state: &channels::ReservedState) -> (saved: ReservedState)
        ensures
            saved == ReservedState::spec_save(*reserved_state),
    {
        ReservedState {
            version: VersionInfo::save(&reserved_state.version),
            vp: reserved_state.target.vp,
            sint: reserved_state.target.sint,
        }
    }

    /// Restores the state of a reserved channel, if the server supports its version and features.
    pub fn restore(&self, protocol: &Protocol) -> (result: Result<
        channels::ReservedState,
        RestoreError,
    >)
        ensures
            result == self.spec_restore(protocol@),
    {
        let version = match self.version.restore(true, protocol) {
            Ok(version) => version,
            Err(RestoreError::UnsupportedVersion(version)) => {
                return Err(RestoreError::UnsupportedReserveVersion(version));
            },
            Err(RestoreError::UnsupportedFeatureFlags(flags)) => {
                return Err(RestoreError::UnsupportedReserveFeatureFlags(flags));
            },
            Err(error) => {
                return Err(error);
            },
        };
        if version.version.0 < protocol.first_reserve_version.0 {
            return Err(RestoreError::UnsupportedReserveVersion(version.version.0));
        }
        Ok(
            channels::ReservedState {
                version,
                target: channels::ConnectionTarget { vp: self.vp, sint: self.sint },
            },
        )
    }

    fn save_option(value: &Option<channels::ReservedState>) -> (saved: Option<ReservedState>)
        ensures
            saved == ReservedState::spec_save_option(*value),
    {
        match value {
            Some(value) => Some(ReservedState::save(value)),
            None => None,
        }
    }

    fn restore_option(value: &Option<ReservedState>, protocol: &Protocol) -> (result: Result<
        Option<channels::ReservedState>,
        RestoreError,
    >)
        ensures
            result == ReservedState::spec_restore_option(*value, protocol@),
    {
        match value {
            None => Ok(None),
            Some(value) => match value.restore(protocol) {
                Ok(restored) => Ok(Some(restored)),
                Err(error) => Err(error),
            },
        }
    }
}

/// The saved state of a channel. A channel that the guest has released has none.
#[derive(Clone, Copy, Debug)]
pub enum ChannelState {
    Closed,
    Opening { request: OpenRequest, reserved_state: Option<ReservedState> },
    Open { params: OpenRequest, modify_state: ModifyState, reserved_state: Option<ReservedState> },
    Closing { params: OpenRequest, reserved_state: Option<ReservedState> },
    ClosingReopen { params: OpenRequest, request: OpenRequest },
    Revoked,
}

impl ChannelState {
    /// A channel that was offered again after it was revoked is saved as revoked.
    pub open spec fn spec_save(value: channels::ChannelState) -> Option<ChannelState> {
        match value {
            channels::ChannelState::Closed => Some(ChannelState::Closed),
            channels::ChannelState::Opening { request, reserved_state } => Some(
                ChannelState::Opening {
                    request: OpenRequest::spec_save(request),
                    reserved_state: ReservedState::spec_save_option(reserved_state),
                },
            ),
            channels::ChannelState::Open { params, modify_state, reserved_state } => Some(
                ChannelState::Open {
                    params: OpenRequest::spec_save(params),
                    modify_state: ModifyState::spec_save(modify_state),
                    reserved_state: ReservedState::spec_save_option(reserved_state),
                },
            ),
            channels::ChannelState::Closing { params, reserved_state } => Some(
                ChannelState::Closing {
                    params: OpenRequest::spec_save(params),
                    reserved_state: ReservedState::spec_save_option(reserved_state),
                },
            ),
            channels::ChannelState::ClosingReopen { params, request } => Some(
                ChannelState::ClosingReopen {
                    params: OpenRequest::spec_save(params),
                    request: OpenRequest::spec_save(request),
                },
            ),
            channels::ChannelState::Revoked => Some(ChannelState::Revoked),
            channels::ChannelState::Reoffered => Some(ChannelState::Revoked),
            channels::ChannelState::ClientReleased => None,
            channels::ChannelState::ClosingClientRelease => None,
            channels::ChannelState::OpeningClientRelease => None,
        }
    }

    /// A revoked channel comes back as offered again; whether its device is there is found out
    /// once the restore is over.
    pub open spec fn spec_restore(self, protocol: ProtocolView) -> Result<
        channels::ChannelState,
        RestoreError,
    > {
        match self {
            ChannelState::Closed => Ok(channels::ChannelState::Closed),
            ChannelState::Opening { request, reserved_state } =>
                match ReservedState::spec_restore_option(reserved_state, protocol) {
                Err(error) => Err(error),
                Ok(reserved_state) => Ok(
                    channels::ChannelState::Opening {
                        request: request.spec_restore(),
                        reserved_state,
                    },
                ),
            },
            ChannelState::Open { params, modify_state, reserved_state } =>
                match ReservedState::spec_restore_option(reserved_state, protocol) {
                Err(error) => Err(error),
                Ok(reserved_state) => Ok(
                    channels::ChannelState::Open {
                        params: params.spec_restore(),
                        modify_state: modify_state.spec_restore(),
                        reserved_state,
                    },
                ),
            },
            ChannelState::Closing { params, reserved_state } =>
                match ReservedState::spec_restore_option(reserved_state, protocol) {
                Err(error) => Err(error),
                Ok(reserved_state) => Ok(
                    channels::ChannelState::Closing {
                        params: params.spec_restore(),
                        reserved_state,
                    },
                ),
            },
            ChannelState::ClosingReopen { params, request } => Ok(
                channels::ChannelState::ClosingReopen {
                    params: params.spec_restore(),
                    request: request.spec_restore(),
                },
            ),
            ChannelState::Revoked => Ok(channels::ChannelState::Reoffered),
        }
    }

    /// Saves the state of a channel, unless the guest has released it.
    pub fn save(value: &channels::ChannelState) -> (saved: Option<ChannelState>)
        ensures
            saved == ChannelState::spec_save(*value),
    {
        match value {
            channels::ChannelState::Closed => Some(ChannelState::Closed),
            channels::ChannelState::Opening { request, reserved_state } => Some(
                ChannelState::Opening {
                    request: OpenRequest::save(request),
                    reserved_state: ReservedState::save_option(reserved_state),
                },
            ),
            channels::ChannelState::ClosingReopen { params, request } => Some(
                ChannelState::ClosingReopen {
                    params: OpenRequest::save(params),
                    request: OpenRequest::save(request),
                },
            ),
            channels::ChannelState::Open { params, modify_state, reserved_state } => Some(
                ChannelState::Open {
                    params: OpenRequest::save(params),
                    modify_state: ModifyState::save(modify_state),
                    reserved_state: ReservedState::save_option(reserved_state),
                },
            ),
            channels::ChannelState::Closing { params, reserved_state } => Some(
                ChannelState::Closing {
                    params: OpenRequest::save(params),
                    reserved_state: ReservedState::save_option(reserved_state),
                },
            ),
            channels::ChannelState::Revoked => Some(ChannelState::Revoked),
            channels::ChannelState::Reoffered => Some(ChannelState::Revoked),
            channels::ChannelState::ClientReleased => None,
            channels::ChannelState::ClosingClientRelease => None,
            channels::ChannelState::OpeningClientRelease => None,
        }
    }

    /// Restores the state of a channel, if the server supports what it was reserved with.
    pub fn restore(&self, protocol: &Protocol) -> (result: Result<
        channels::ChannelState,
        RestoreError,
    >)
        ensures
            result == self.spec_restore(protocol@),
    {
        match self {
            ChannelState::Closed => Ok(channels::ChannelState::Closed),
            ChannelState::Opening { request, reserved_state } =>
                match ReservedState::restore_option(reserved_state, protocol) {
                Err(error) => Err(error),
                Ok(reserved_state) => Ok(
                    channels::ChannelState::Opening { request: request.restore(), reserved_state },
                ),
            },
            ChannelState::ClosingReopen { params, request } => Ok(
                channels::ChannelState::ClosingReopen {
                    params: params.restore(),
                    request: request.restore(),
                },
            ),
            ChannelState::Open { params, modify_state, reserved_state } =>
                match ReservedState::restore_option(reserved_state, protocol) {
                Err(error) => Err(error),
                Ok(reserved_state) => Ok(
                    channels::ChannelState::Open {
                        params: params.restore(),
                        modify_state: modify_state.restore(),
                        reserved_state,
                    },
                ),
            },
            ChannelState::Closing { params, reserved_state } =>
                match ReservedState::restore_option(reserved_state, protocol) {
                Err(error) => Err(error),
                Ok(reserved_state) => Ok(
                    channels::ChannelState::Closing { params: params.restore(), reserved_state },
                ),
            },
            ChannelState::Revoked => Ok(channels::ChannelState::Reoffered),
        }
    }

    /// The name of the state.
    pub open spec fn spec_name(self) -> Seq<char> {
        match self {
            ChannelState::Closed => "Closed"@,
            ChannelState::Opening { .. } => "Opening"@,
            ChannelState::Open { .. } => "Open"@,
            ChannelState::Closing { .. } => "Closing"@,
            ChannelState::ClosingReopen { .. } => "ClosingReopen"@,
            ChannelState::Revoked => "Revoked"@,
        }
    }

    /// Returns the name of the state, for messages.
    pub fn name(&self) -> (name: &'static str)
        ensures
            name@ == self.spec_name(),
    {
        match self {
            ChannelState::Closed => "Closed",
            ChannelState::Opening { .. } => "Opening",
            ChannelState::Open { .. } => "Open",
            ChannelState::Closing { .. } => "Closing",
            ChannelState::ClosingReopen { .. } => "ClosingReopen",
            ChannelState::Revoked => "Revoked",
        }
    }
}

/// A saved channel.
#[derive(Clone, Copy, Debug)]
pub struct Channel {
    pub key: OfferKey,
    pub channel_id: u32,
    pub offered_connection_id: u32,
    pub state: ChannelState,
    pub monitor_id: Option<u8>,
}

impl Channel {
    /// A channel is saved if the guest was told of it and has not released it.
    pub open spec fn spec_save(value: channels::Channel) -> Option<Channel> {
        match (value.info, ChannelState::spec_save(value.state)) {
            (Some(info), Some(state)) => Some(
                Channel {
                    key: value.offer.spec_key(),
                    channel_id: info.channel_id.0,
                    offered_connection_id: info.connection_id,
                    state,
                    monitor_id: match info.monitor_id {
                        Some(id) => Some(id.0),
                        None => None,
                    },
                },
            ),
            _ => None,
        }
    }

    /// What the guest was told of the channel.
    pub open spec fn spec_info(self) -> OfferedInfo {
        OfferedInfo {
            channel_id: ChannelId(self.channel_id),
            connection_id: self.offered_connection_id,
            monitor_id: match self.monitor_id {
                Some(id) => Some(MonitorId(id)),
                None => None,
            },
        }
    }

    /// An offer that stands in for the one that has yet to be made: it has the channel's key,
    /// and nothing else.
    pub open spec fn spec_stub_offer(self) -> OfferParamsInternal {
        OfferParamsInternal {
            interface_id: self.key.interface_id,
            instance_id: self.key.instance_id,
            subchannel_index: self.key.subchannel_index,
            use_mnf: MnfUsage::NoMnf,
        }
    }

    /// Saves a channel, if the guest knows of it.
    pub fn save(value: &channels::Channel) -> (saved: Option<Channel>)
        ensures
            saved == Channel::spec_save(*value),
    {
        let info = match &value.info {
            Some(info) => info,
            None => {
                return None;
            },
        };
        let key = value.offer.key();
        match ChannelState::save(&value.state) {
            Some(state) => Some(
                Channel {
                    channel_id: info.channel_id.0,
                    offered_connection_id: info.connection_id,
                    key,
                    state,
                    monitor_id: match info.monitor_id {
                        Some(id) => Some(id.0),
                        None => None,
                    },
                },
            ),
            None => None,
        }
    }

    /// Restores a channel: what the guest was told of it, a stand-in for its offer, and its
    /// state.
    pub fn restore(&self, protocol: &Protocol) -> (result: Result<
        (OfferedInfo, OfferParamsInternal, channels::ChannelState),
        RestoreError,
    >)
        ensures
            match self.state.spec_restore(protocol@) {
                Err(error) => result == Err::<
                    (OfferedInfo, OfferParamsInternal, channels::ChannelState),
                    RestoreError,
                >(error),
                Ok(state) => result == Ok::<_, RestoreError>(
                    (self.spec_info(), self.spec_stub_offer(), state),
                ),
            },
    {
        let info = OfferedInfo {
            channel_id: ChannelId(self.channel_id),
            connection_id: self.offered_connection_id,
            monitor_id: match self.monitor_id {
                Some(id) => Some(MonitorId(id)),
                None => None,
            },
        };
        let stub_offer = OfferParamsInternal {
            instance_id: self.key.instance_id,
            interface_id: self.key.interface_id,
            subchannel_index: self.key.subchannel_index,
            use_mnf: MnfUsage::NoMnf,
        };
        match self.state.restore(protocol) {
            Ok(state) => Ok((info, stub_offer, state)),
            Err(error) => Err(error),
        }
    }

    /// Returns the ID by which the guest knows the channel.
    pub fn channel_id(&self) -> (channel_id: u32)
        ensures
            channel_id == self.channel_id,
    {
        self.channel_id
    }

    /// Returns the key of the channel's offer.
    pub fn key(&self) -> (key: OfferKey)
        ensures
            key == self.key,
    {
        self.key
    }

    /// The request with which the channel was last opened, while it is opening, open or closing.
    pub open spec fn spec_open_request(self) -> Option<OpenRequest> {
        match self.state {
            ChannelState::Closed => None,
            ChannelState::Opening { request, .. } => Some(request),
            ChannelState::Open { params, .. } => Some(params),
            ChannelState::Closing { params, .. } => Some(params),
            ChannelState::ClosingReopen { params, .. } => Some(params),
            ChannelState::Revoked => None,
        }
    }

    /// Returns the request with which the channel was last opened. Of a channel that is closing
    /// to be opened anew, that is the old request.
    pub fn open_request(&self) -> (request: Option<OpenRequest>)
        ensures
            request == self.spec_open_request(),
    {
        match self.state {
            ChannelState::Closed => None,
            ChannelState::Opening { request, .. } => Some(request),
            ChannelState::Open { params, .. } => Some(params),
            ChannelState::Closing { params, .. } => Some(params),
            ChannelState::ClosingReopen { params, .. } => Some(params),
            ChannelState::Revoked => None,
        }
    }
}

/// The saved state of a GPADL. One that was torn down before its device answered has none.
#[derive(Clone, Copy, Debug, PartialEq, Eq, Structural)]
pub enum GpadlState {
    InProgress,
    Offered,
    Accepted,
    TearingDown,
}

impl GpadlState {
    /// The saved form.
    pub open spec fn spec_save(value: channels::GpadlState) -> Option<GpadlState> {
        match value {
            channels::GpadlState::InProgress => Some(GpadlState::InProgress),
            channels::GpadlState::Offered => Some(GpadlState::Offered),
            channels::GpadlState::Accepted => Some(GpadlState::Accepted),
            channels::GpadlState::TearingDown => Some(GpadlState::TearingDown),
            channels::GpadlState::OfferedTearingDown => None,
        }
    }

    /// The live value that the saved form stands for.
    pub open spec fn spec_restore(self) -> channels::GpadlState {
        match self {
            GpadlState::InProgress => channels::GpadlState::InProgress,
            GpadlState::Offered => channels::GpadlState::Offered,
            GpadlState::Accepted => channels::GpadlState::Accepted,
            GpadlState::TearingDown => channels::GpadlState::TearingDown,
        }
    }

    /// The channel of a GPADL in this state may be revoked: no device has yet heard of the
    /// GPADL, or it already knows of it.
    pub open spec fn allows_revoked(self) -> bool {
        self is InProgress || self is Accepted
    }
}

/// A saved GPADL.
#[derive(Clone, Debug)]
pub struct Gpadl {
    pub id: u32,
    pub channel_id: u32,
    pub count: u16,
    pub buf: Vec<u64>,
    pub state: GpadlState,
}

/// The model of a saved [`Gpadl`].
#[verifier::ext_equal]
pub struct GpadlView {
    pub id: u32,
    pub channel_id: u32,
    pub count: u16,
    pub buf: Seq<u64>,
    pub state: GpadlState,
}

/// What the validation of a GPADL's ranges gave: the buffer, or why it is not valid. Of a GPADL
/// whose pages have not all arrived, it is not looked at.
pub type RangeCheck = Result<Vec<u64>, RangeError>;

/// The model of a [`RangeCheck`].
pub open spec fn range_view(check: RangeCheck) -> Result<Seq<u64>, RangeError> {
    match check {
        Ok(buf) => Ok(buf@),
        Err(error) => Err(error),
    }
}

impl GpadlView {
    /// Every GPADL is saved, but for one that was torn down before its device answered.
    pub open spec fn spec_save(
        gpadl_id: GpadlId,
        channel_id: ChannelId,
        gpadl: channels::GpadlView,
    ) -> Option<GpadlView> {
        match GpadlState::spec_save(gpadl.state) {
            Some(state) => Some(
                GpadlView {
                    id: gpadl_id.0,
                    channel_id: channel_id.0,
                    count: gpadl.count,
                    buf: gpadl.buf,
                    state,
                },
            ),
            None => None,
        }
    }

    /// A GPADL that is complete comes back with the validated buffer, and one whose ranges are
    /// not valid is refused. After that, one that is offered or being torn down is refused if its
    /// channel is revoked.
    pub open spec fn spec_restore(
        self,
        channel: channels::Channel,
        range: Result<Seq<u64>, RangeError>,
    ) -> Result<channels::GpadlView, RestoreError> {
        let checked = if self.state is InProgress {
            Ok(self.buf)
        } else {
            range
        };
        match checked {
            Err(error) => Err(RestoreError::InvalidGpadl(error)),
            Ok(buf) => if !self.state.allows_revoked() && channel.state.spec_is_revoked() {
                Err(
                    RestoreError::GpadlForRevokedChannel(
                        GpadlId(self.id),
                        ChannelId(self.channel_id),
                    ),
                )
            } else {
                Ok(channels::GpadlView { count: self.count, buf, state: self.state.spec_restore() })
            },
        }
    }
}

impl View for Gpadl {
    type V = GpadlView;

    open spec fn view(&self) -> GpadlView {
        GpadlView {
            id: self.id,
            channel_id: self.channel_id,
            count: self.count,
            buf: self.buf@,
            state: self.state,
        }
    }
}

impl Gpadl {
    /// Saves a GPADL of the channel with the given ID.
    pub fn save(gpadl_id: GpadlId, channel_id: ChannelId, gpadl: &channels::Gpadl) -> (saved:
        Option<Gpadl>)
        ensures
            match (saved, GpadlView::spec_save(gpadl_id, channel_id, gpadl@)) {
                (Some(saved), Some(expected)) => saved@ == expected,
                (None, None) => true,
                _ => false,
            },
    {
        let state = match gpadl.state {
            channels::GpadlState::InProgress => GpadlState::InProgress,
            channels::GpadlState::Offered => GpadlState::Offered,
            channels::GpadlState::Accepted => GpadlState::Accepted,
            channels::GpadlState::TearingDown => GpadlState::TearingDown,
            channels::GpadlState::OfferedTearingDown => {
                return None;
            },
        };
        let buf = gpadl.buf.clone();
        assert(buf@ =~= gpadl.buf@);
        Some(Gpadl { id: gpadl_id.0, channel_id: channel_id.0, count: gpadl.count, buf, state })
    }

    /// Restores a GPADL of `channel`. `range` is what the validation of its `count` ranges in
    /// `buf` gave.
    pub fn restore(self, channel: &channels::Channel, range: RangeCheck) -> (result: Result<
        channels::Gpadl,
        RestoreError,
    >)
        ensures
            match (result, self@.spec_restore(*channel, range_view(range))) {
                (Ok(restored), Ok(expected)) => restored@ == expected,
                (Err(error), Err(expected)) => error == expected,
                _ => false,
            },
    {
        let mut buf = self.buf;
        if self.state != GpadlState::InProgress {
            match range {
                Ok(checked) => {
                    buf = checked;
                },
                Err(error) => {
                    return Err(RestoreError::from(error));
                },
            }
        }
        let (state, allow_revoked) = match self.state {
            GpadlState::InProgress => (channels::GpadlState::InProgress, true),
            GpadlState::Offered => (channels::GpadlState::Offered, false),
            GpadlState::Accepted => (channels::GpadlState::Accepted, true),
            GpadlState::TearingDown => (channels::GpadlState::TearingDown, false),
        };
        if !allow_revoked && channel.state.is_revoked() {
            return Err(
                RestoreError::GpadlForRevokedChannel(GpadlId(self.id), ChannelId(self.channel_id)),
            );
        }
        Ok(channels::Gpadl { count: self.count, buf, state })
    }

    /// Tells whether the guest is tearing the GPADL down.
    pub fn is_tearing_down(&self) -> (tearing_down: bool)
        ensures
            tearing_down == (self.state is TearingDown),
    {
        self.state == GpadlState::TearingDown
    }
}

/// A saved message to the guest.
#[derive(Clone, Debug)]
pub struct OutgoingMessage(pub Vec<u8>);

impl View for OutgoingMessage {
    type V = Seq<u8>;

    open spec fn view(&self) -> Seq<u8> {
        self.0@
    }
}

impl OutgoingMessage {
    /// Saves a message.
    pub fn save(value: &channels::OutgoingMessage) -> (saved: OutgoingMessage)
        ensures
            saved@ == value@,
    {
        let data = value.data().clone();
        assert(data@ =~= value@);
        OutgoingMessage(data)
    }

    /// Restores a message, unless it is longer than `max_message_size`.
    pub fn restore(self, max_message_size: usize) -> (result: Result<
        channels::OutgoingMessage,
        RestoreError,
    >)
        ensures
            match result {
                Ok(restored) => self@.len() <= max_message_size && restored@ == self@,
                Err(error) => self@.len() > max_message_size && error
                    == RestoreError::MessageTooLarge,
            },
    {
        match channels::OutgoingMessage::from_message(&self.0, max_message_size) {
            Ok(restored) => Ok(restored),
            Err(_) => Err(RestoreError::MessageTooLarge),
        }
    }
}

} // verus!
