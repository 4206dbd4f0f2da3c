//! What holds of a save followed by a restore, and of a restore followed by a save, part by part.

use super::channels;
use super::channels::{ModifyConnectionRequest, RestoreState, Update};
use super::protocol;
use super::protocol::{ChannelId, GpadlId, ProtocolView};
use super::saved_state::{Channel, ChannelState, Connection, ConnectionAction, GpadlState};
use super::saved_state::{GpadlView, InitiateContactRequest, ModifyState, MonitorPageGpas};
use super::saved_state::{MonitorPageRequest, OpenRequest, RangeError, ReservedState};
use super::saved_state::{RestoreError, SignalInfo, VersionInfo};
use vstd::prelude::*;

verus! {

/// A version that the server supports comes back from a save as it was.
pub proof fn law_version_saved_and_restored(
    info: protocol::VersionInfo,
    trusted: bool,
    protocol: ProtocolView,
)
    requires
        protocol.supports(info, trusted),
    ensures
        VersionInfo::spec_save(info).spec_restore(trusted, protocol) == Ok::<_, RestoreError>(info),
{
}

/// A version that is restored is one that the server supports, and is saved as it was.
pub proof fn law_version_restored_and_saved(
    saved: VersionInfo,
    trusted: bool,
    protocol: ProtocolView,
    info: protocol::VersionInfo,
)
    requires
        saved.spec_restore(trusted, protocol) == Ok::<_, RestoreError>(info),
    ensures
        protocol.supports(info, trusted),
        VersionInfo::spec_save(info) == saved,
{
}

/// Confidential channels are never restored on a connection that is not trusted.
pub proof fn law_confidential_only_if_trusted(
    saved: VersionInfo,
    protocol: ProtocolView,
    info: protocol::VersionInfo,
)
    requires
        saved.spec_restore(false, protocol) == Ok::<_, RestoreError>(info),
    ensures
        info.feature_flags.0 & protocol.confidential_channels.0 == 0,
{
    let all = protocol.supported_feature_flags.0;
    let confidential = protocol.confidential_channels.0;
    let flags = info.feature_flags.0;
    assert(flags & confidential == 0) by (bit_vector)
        requires
            (all & !confidential) & flags == flags,
    ;
}

/// Monitor pages survive a save and a restore, in either order.
pub proof fn law_monitor_pages(live: channels::MonitorPageGpas, saved: MonitorPageGpas)
    ensures
        MonitorPageGpas::spec_save(live).spec_restore() == live,
        MonitorPageGpas::spec_save(saved.spec_restore()) == saved,
{
}

/// A request for monitor pages survives a save and a restore, in either order.
pub proof fn law_monitor_page_request(live: channels::MonitorPageRequest, saved: MonitorPageRequest)
    ensures
        MonitorPageRequest::spec_save(live).spec_restore() == live,
        MonitorPageRequest::spec_save(saved.spec_restore()) == saved,
{
}

/// A request to connect survives a save and a restore, in either order.
pub proof fn law_initiate_contact(
    live: channels::InitiateContactRequest,
    saved: InitiateContactRequest,
)
    ensures
        InitiateContactRequest::spec_save(live).spec_restore() == live,
        InitiateContactRequest::spec_save(saved.spec_restore()) == saved,
{
    law_monitor_page_request(live.monitor_page, saved.monitor_page);
}

/// Signal parameters survive a save and a restore, in either order.
pub proof fn law_signal_info(live: channels::SignalInfo, saved: SignalInfo)
    ensures
        SignalInfo::spec_save(live).spec_restore() == live,
        SignalInfo::spec_save(saved.spec_restore()) == saved,
{
}

/// An open request survives a save and a restore, in either order.
pub proof fn law_open_request(live: channels::OpenRequest, saved: OpenRequest)
    ensures
        OpenRequest::spec_save(live).spec_restore() == live,
        OpenRequest::spec_save(saved.spec_restore()) == saved,
{
}

/// The progress of a modification survives a save and a restore, in either order.
pub proof fn law_modify_state(live: channels::ModifyState, saved: ModifyState)
    ensures
        ModifyState::spec_save(live).spec_restore() == live,
        ModifyState::spec_save(saved.spec_restore()) == saved,
{
}

/// The action after a restore: the one before the save, but for a reset, which is not saved.
pub open spec fn settled_action(live: channels::ConnectionAction) -> channels::ConnectionAction {
    match live {
        channels::ConnectionAction::Reset => channels::ConnectionAction::NoAction,
        _ => live,
    }
}

/// The action that follows a disconnect survives a restore and a save, and also a save and a
/// restore unless it is a reset.
pub proof fn law_connection_action(live: channels::ConnectionAction, saved: ConnectionAction)
    ensures
        ConnectionAction::spec_save(live).spec_restore() == settled_action(live),
        ConnectionAction::spec_save(saved.spec_restore()) == saved,
{
    if let channels::ConnectionAction::Reconnect { initiate_contact } = live {
        law_initiate_contact(initiate_contact, InitiateContactRequest::spec_save(initiate_contact));
    }
    if let ConnectionAction::Reconnect { initiate_contact } = saved {
        law_initiate_contact(initiate_contact.spec_restore(), initiate_contact);
    }
}

/// The state of the connection after a save and a restore. While connecting, the guest has not
/// been sent its offers and is neither modifying nor paused. While disconnecting, the request
/// that was sent will be sent again.
pub open spec fn settled_connection(live: channels::ConnectionState) -> channels::ConnectionState {
    match live {
        channels::ConnectionState::Disconnected => live,
        channels::ConnectionState::Connecting { info, next_action } =>
            channels::ConnectionState::Connecting {
            info: channels::ConnectionInfo {
                offers_sent: false,
                modifying: false,
                paused: false,
                ..info
            },
            next_action: settled_action(next_action),
        },
        channels::ConnectionState::Connected(_) => live,
        channels::ConnectionState::Disconnecting { next_action, .. } =>
            channels::ConnectionState::Disconnecting {
            next_action: settled_action(next_action),
            modify_sent: false,
        },
    }
}

/// The version of the connection, if it has one, is one that the server supports.
pub open spec fn connection_supported(
    live: channels::ConnectionState,
    protocol: ProtocolView,
) -> bool {
    match live {
        channels::ConnectionState::Connecting { info, .. } => protocol.supports(
            info.version,
            info.trusted,
        ),
        channels::ConnectionState::Connected(info) => protocol.supports(info.version, info.trusted),
        _ => true,
    }
}

/// A connection whose version the server supports comes back from a save settled. One without
/// a connection has nothing to save.
pub proof fn law_connection_saved_and_restored(
    live: channels::ConnectionState,
    protocol: ProtocolView,
)
    requires
        connection_supported(live, protocol),
    ensures
        match Connection::spec_save(live) {
            Some(saved) => saved.spec_restore(protocol) == Ok::<_, RestoreError>(
                settled_connection(live),
            ),
            None => live is Disconnected,
        },
{
    match live {
        channels::ConnectionState::Connecting { info, next_action } => {
            law_connection_action(next_action, ConnectionAction::NoAction);
            law_version_saved_and_restored(info.version, info.trusted, protocol);
        },
        channels::ConnectionState::Connected(info) => {
            law_version_saved_and_restored(info.version, info.trusted, protocol);
        },
        channels::ConnectionState::Disconnecting { next_action, .. } => {
            law_connection_action(next_action, ConnectionAction::NoAction);
        },
        channels::ConnectionState::Disconnected => {},
    }
}

/// A saved connection with the client ID that it stands for.
pub open spec fn with_client_id(saved: Connection) -> Connection {
    match saved {
        Connection::Connecting {
            version,
            interrupt_page,
            monitor_page,
            target_message_vp,
            next_action,
            client_id,
            trusted,
        } => Connection::Connecting {
            version,
            interrupt_page,
            monitor_page,
            target_message_vp,
            next_action,
            client_id: Some(crate::vmbus::saved_state::client_id_or_zero(client_id)),
            trusted,
        },
        Connection::Connected {
            version,
            offers_sent,
            interrupt_page,
            monitor_page,
            target_message_vp,
            modifying,
            client_id,
            trusted,
            paused,
        } => Connection::Connected {
            version,
            offers_sent,
            interrupt_page,
            monitor_page,
            target_message_vp,
            modifying,
            client_id: Some(crate::vmbus::saved_state::client_id_or_zero(client_id)),
            trusted,
            paused,
        },
        Connection::Disconnecting { .. } => saved,
    }
}

/// A connection that is restored has a supported version, and is saved as it was; a missing
/// client ID has become zero.
pub proof fn law_connection_restored_and_saved(
    saved: Connection,
    protocol: ProtocolView,
    live: channels::ConnectionState,
)
    requires
        saved.spec_restore(protocol) == Ok::<_, RestoreError>(live),
    ensures
        connection_supported(live, protocol),
        Connection::spec_save(live) == Some(with_client_id(saved)),
        settled_connection(live) == live,
{
    match saved {
        Connection::Connecting { next_action, .. } => {
            law_connection_action(next_action.spec_restore(), next_action);
        },
        Connection::Disconnecting { next_action } => {
            law_connection_action(next_action.spec_restore(), next_action);
        },
        Connection::Connected { .. } => {},
    }
}

/// A save keeps everything that the notifier is told of a connection once it is restored: it is
/// told what it would be told of the connection itself.
pub proof fn law_notifier_is_told_the_same(live: channels::ConnectionState)
    ensures
        settled_connection(live).spec_restore_request() == live.spec_restore_request(),
{
}

/// The notifier is told of a connection exactly if there is one that is not going, and what it
/// is told is what that connection has. The version is part of it while the guest is connecting.
/// A relay hears of it exactly if the guest awaits the outcome.
pub proof fn law_notifier_request(live: channels::ConnectionState)
    ensures
        match (live, live.spec_restore_request()) {
            (channels::ConnectionState::Connecting { info, .. }, Some(request)) => {
                &&& request.version == Some(info.version.version.0)
                &&& request.notify_relay
                &&& carries(request, info)
            },
            (channels::ConnectionState::Connected(info), Some(request)) => {
                &&& request.version is None
                &&& request.notify_relay == info.modifying
                &&& carries(request, info)
            },
            (channels::ConnectionState::Disconnected, None) => true,
            (channels::ConnectionState::Disconnecting { .. }, None) => true,
            _ => false,
        },
{
}

/// The request has the pages and the processor of a connection.
pub open spec fn carries(request: ModifyConnectionRequest, info: channels::ConnectionInfo) -> bool {
    &&& request.monitor_page == Update::spec_to(info.monitor_page)
    &&& request.interrupt_page == Update::spec_to(info.interrupt_page)
    &&& request.target_message_vp == Some(info.target_message_vp)
}

/// A channel can be reserved with this on a server with this protocol.
pub open spec fn reserved_supported(live: channels::ReservedState, protocol: ProtocolView) -> bool {
    &&& protocol.supports(live.version, true)
    &&& live.version.version.0 >= protocol.first_reserve_version.0
}

/// The reservation of a channel survives a save and a restore if the server supports it.
pub proof fn law_reserved_saved_and_restored(live: channels::ReservedState, protocol: ProtocolView)
    requires
        reserved_supported(live, protocol),
    ensures
        ReservedState::spec_save(live).spec_restore(protocol) == Ok::<_, RestoreError>(live),
{
    law_version_saved_and_restored(live.version, true, protocol);
}

/// A reservation that is restored is supported, and is saved as it was.
pub proof fn law_reserved_restored_and_saved(
    saved: ReservedState,
    protocol: ProtocolView,
    live: channels::ReservedState,
)
    requires
        saved.spec_restore(protocol) == Ok::<_, RestoreError>(live),
    ensures
        reserved_supported(live, protocol),
        ReservedState::spec_save(live) == saved,
{
    law_version_restored_and_saved(saved.version, true, protocol, live.version);
}

/// The reservation in a state, if there is one.
pub open spec fn reservation(live: channels::ChannelState) -> Option<channels::ReservedState> {
    match live {
        channels::ChannelState::Opening { reserved_state, .. } => reserved_state,
        channels::ChannelState::Open { reserved_state, .. } => reserved_state,
        channels::ChannelState::Closing { reserved_state, .. } => reserved_state,
        _ => None,
    }
}

/// The state of a channel after a save and a restore: as it was, but that a revoked channel
/// counts as offered again.
pub open spec fn settled_channel_state(live: channels::ChannelState) -> channels::ChannelState {
    match live {
        channels::ChannelState::Revoked => channels::ChannelState::Reoffered,
        _ => live,
    }
}

/// The state of a channel comes back from a save settled, if the server supports its
/// reservation. It is not saved exactly if the guest has released the channel.
pub proof fn law_channel_state_saved_and_restored(
    live: channels::ChannelState,
    protocol: ProtocolView,
)
    requires
        reservation(live) matches Some(reserved) ==> reserved_supported(reserved, protocol),
    ensures
        match ChannelState::spec_save(live) {
            Some(saved) => saved.spec_restore(protocol) == Ok::<_, RestoreError>(
                settled_channel_state(live),
            ),
            None => live.spec_is_released(),
        },
{
    if let Some(reserved) = reservation(live) {
        law_reserved_saved_and_restored(reserved, protocol);
    }
}

/// The state of a channel that is restored is saved as it was. The guest has not released the
/// channel, and the channel is revoked or reserved exactly if the saved one was.
pub proof fn law_channel_state_restored_and_saved(
    saved: ChannelState,
    protocol: ProtocolView,
    live: channels::ChannelState,
)
    requires
        saved.spec_restore(protocol) == Ok::<_, RestoreError>(live),
    ensures
        ChannelState::spec_save(live) == Some(saved),
        !live.spec_is_released(),
        live.spec_is_revoked() <==> saved is Revoked,
        settled_channel_state(live) == live,
        reservation(live) matches Some(reserved) ==> reserved_supported(reserved, protocol),
{
    match saved {
        ChannelState::Opening { request, reserved_state } => {
            law_open_request(request.spec_restore(), request);
            if let Some(reserved) = reserved_state {
                law_reserved_restored_and_saved(
                    reserved,
                    protocol,
                    reserved.spec_restore(protocol).unwrap(),
                );
            }
        },
        ChannelState::Open { params, modify_state, reserved_state } => {
            law_open_request(params.spec_restore(), params);
            law_modify_state(modify_state.spec_restore(), modify_state);
            if let Some(reserved) = reserved_state {
                law_reserved_restored_and_saved(
                    reserved,
                    protocol,
                    reserved.spec_restore(protocol).unwrap(),
                );
            }
        },
        ChannelState::Closing { params, reserved_state } => {
            law_open_request(params.spec_restore(), params);
            if let Some(reserved) = reserved_state {
                law_reserved_restored_and_saved(
                    reserved,
                    protocol,
                    reserved.spec_restore(protocol).unwrap(),
                );
            }
        },
        ChannelState::ClosingReopen { params, request } => {
            law_open_request(params.spec_restore(), params);
            law_open_request(request.spec_restore(), request);
        },
        _ => {},
    }
}

/// A channel that is restored is saved as it was, whatever its offer is, if that has its key.
pub proof fn law_channel_restored_and_saved(
    saved: Channel,
    protocol: ProtocolView,
    offer: channels::OfferParamsInternal,
    state: channels::ChannelState,
    restore_state: RestoreState,
)
    requires
        saved.state.spec_restore(protocol) == Ok::<_, RestoreError>(state),
        offer.spec_key() == saved.key,
    ensures
        Channel::spec_save(
            channels::Channel { info: Some(saved.spec_info()), offer, state, restore_state },
        ) == Some(saved),
        saved.spec_stub_offer().spec_key() == saved.key,
{
    law_channel_state_restored_and_saved(saved.state, protocol, state);
}

/// What the guest was told of a channel, and its key, survive a save and a restore.
pub proof fn law_channel_saved_and_restored(live: channels::Channel, saved: Channel)
    requires
        Channel::spec_save(live) == Some(saved),
    ensures
        live.info == Some(saved.spec_info()),
        live.offer.spec_key() == saved.key,
        saved.spec_stub_offer().spec_key() == saved.key,
        ChannelState::spec_save(live.state) == Some(saved.state),
{
}

/// A GPADL comes back from a save as it was, if its ranges are found valid as they are and its
/// channel is not revoked while the device has yet to answer. It is not saved exactly if it was
/// torn down before the device answered.
pub proof fn law_gpadl_saved_and_restored(
    gpadl_id: GpadlId,
    channel_id: ChannelId,
    live: channels::GpadlView,
    channel: channels::Channel,
    range: Result<Seq<u64>, RangeError>,
)
    requires
        range == Ok::<_, RangeError>(live.buf),
        channel.state.spec_is_revoked() ==> live.state is InProgress || live.state is Accepted,
    ensures
        match GpadlView::spec_save(gpadl_id, channel_id, live) {
            Some(saved) => {
                &&& saved.spec_restore(channel, range) == Ok::<_, RestoreError>(live)
                &&& saved.id == gpadl_id.0
                &&& saved.channel_id == channel_id.0
            },
            None => live.state is OfferedTearingDown,
        },
{
}

/// A GPADL that is restored is saved as it was, if its ranges are found valid as they are.
pub proof fn law_gpadl_restored_and_saved(
    saved: GpadlView,
    channel: channels::Channel,
    range: Result<Seq<u64>, RangeError>,
    live: channels::GpadlView,
)
    requires
        saved.state is InProgress || range == Ok::<_, RangeError>(saved.buf),
        saved.spec_restore(channel, range) == Ok::<_, RestoreError>(live),
    ensures
        GpadlView::spec_save(GpadlId(saved.id), ChannelId(saved.channel_id), live) == Some(saved),
        GpadlState::spec_save(live.state) == Some(saved.state),
{
}

} // verus!
