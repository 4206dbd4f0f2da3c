//! What each saved form holds, part by part: where every part of the live state goes when it is
//! saved, and where every part of the saved form goes when it is restored.

use super::channels;
use super::channels::{MnfUsage, Update};
use super::protocol;
use super::protocol::{ChannelId, FeatureFlags, GpadlId, Guid, MonitorId, Protocol, ProtocolView};
use super::saved_state::{Channel, ChannelState, Connection, ConnectionAction, Gpadl, GpadlState};
use super::saved_state::{GpadlView, InitiateContactRequest, ModifyState, MonitorPageGpas};
use super::saved_state::{MonitorPageRequest, OpenRequest, OutgoingMessage, RangeError};
use super::saved_state::{ReservedState, RestoreError, SignalInfo, VersionInfo};
use vstd::prelude::*;

verus! {

/// A set of features contains another exactly if the other has no feature beyond it.
pub proof fn law_contains_bits(all: FeatureFlags, flags: FeatureFlags)
    ensures
        all.spec_contains(flags) <==> flags.0 & !all.0 == 0,
{
    let a = all.0;
    let f = flags.0;
    assert(a & f == f <==> f & !a == 0) by (bit_vector);
}

/// Features that are added are there, those that are taken out are not, and no other changes.
pub proof fn law_with_bits(all: FeatureFlags, flags: FeatureFlags, bit: u32)
    requires
        bit < 32,
    ensures
        (all.spec_with(flags, true).0 >> bit) & 1 == 1 <==> (all.0 >> bit) & 1 == 1 || (flags.0
            >> bit) & 1 == 1,
        (all.spec_with(flags, false).0 >> bit) & 1 == 1 <==> (all.0 >> bit) & 1 == 1 && (flags.0
            >> bit) & 1 == 0,
{
    let a = all.0;
    let f = flags.0;
    assert(((a | f) >> bit) & 1 == 1 <==> (a >> bit) & 1 == 1 || (f >> bit) & 1 == 1) by (bit_vector)
        requires
            bit < 32,
    ;
    assert(((a & !f) >> bit) & 1 == 1 <==> (a >> bit) & 1 == 1 && (f >> bit) & 1 == 0)
        by (bit_vector)
        requires
            bit < 32,
    ;
}

/// On a trusted connection the supported features are those of the base set and the confidential
/// one. On another they are those of the base set without the confidential one.
pub proof fn law_supported_features(protocol: ProtocolView, flags: FeatureFlags)
    ensures
        protocol.feature_flags(true).spec_contains(flags) <==> flags.0 & !(
        protocol.supported_feature_flags.0 | protocol.confidential_channels.0) == 0,
        protocol.feature_flags(false).spec_contains(flags) <==> flags.0 & !(
        protocol.supported_feature_flags.0 & !protocol.confidential_channels.0) == 0,
{
    let s = protocol.supported_feature_flags.0;
    let c = protocol.confidential_channels.0;
    let f = flags.0;
    assert((s | c) & f == f <==> f & !(s | c) == 0) by (bit_vector);
    assert((s & !c) & f == f <==> f & !(s & !c) == 0) by (bit_vector);
}

/// The model of a protocol has what the protocol has.
pub proof fn law_protocol_model(protocol: Protocol)
    ensures
        protocol@.supported_versions == protocol.supported_versions@,
        protocol@.supported_feature_flags == protocol.supported_feature_flags,
        protocol@.confidential_channels == protocol.confidential_channels,
        protocol@.first_reserve_version == protocol.first_reserve_version,
        protocol@.max_message_size == protocol.max_message_size,
{
}

/// A version is saved with its number and its features.
pub proof fn law_version_saved(live: protocol::VersionInfo)
    ensures
        VersionInfo::spec_save(live).version == live.version.0,
        VersionInfo::spec_save(live).feature_flags == live.feature_flags.0,
{
}

/// A saved version is restored with its number and its features exactly if the number is in the
/// list and no feature goes beyond those that the connection can have. If the number is not in the
/// list, that is the error, and else that the features go beyond.
pub proof fn law_version_restored(saved: VersionInfo, trusted: bool, protocol: ProtocolView)
    ensures
        ({
            let listed = exists|i: int|
                0 <= i < protocol.supported_versions.len() && (
                #[trigger] protocol.supported_versions[i]).0 == saved.version;
            let beyond = if trusted {
                saved.feature_flags & !(protocol.supported_feature_flags.0
                    | protocol.confidential_channels.0) != 0
            } else {
                saved.feature_flags & !(protocol.supported_feature_flags.0
                    & !protocol.confidential_channels.0) != 0
            };
            match saved.spec_restore(trusted, protocol) {
                Ok(info) => {
                    &&& listed
                    &&& !beyond
                    &&& info.version.0 == saved.version
                    &&& info.feature_flags.0 == saved.feature_flags
                },
                Err(RestoreError::UnsupportedVersion(version)) => !listed && version
                    == saved.version,
                Err(RestoreError::UnsupportedFeatureFlags(flags)) => listed && beyond && flags
                    == saved.feature_flags,
                Err(_) => false,
            }
        }),
{
    law_supported_features(protocol, FeatureFlags(saved.feature_flags));
    let versions = protocol.supported_versions;
    let version = protocol::Version(saved.version);
    if versions.contains(version) {
        let i = choose|i: int| 0 <= i < versions.len() && versions[i] == version;
        assert(versions[i].0 == saved.version);
    } else {
        assert forall|i: int| 0 <= i < versions.len() implies (#[trigger] versions[i]).0
            != saved.version by {
            if versions[i].0 == saved.version {
                assert(versions[i] == version);
            }
        }
    }
}

/// Monitor pages are saved and restored page by page.
pub proof fn law_monitor_page_fields(live: channels::MonitorPageGpas, saved: MonitorPageGpas)
    ensures
        MonitorPageGpas::spec_save(live).parent_to_child == live.parent_to_child,
        MonitorPageGpas::spec_save(live).child_to_parent == live.child_to_parent,
        saved.spec_restore().parent_to_child == saved.parent_to_child,
        saved.spec_restore().child_to_parent == saved.child_to_parent,
{
}

/// A request for monitor pages is saved as what it is: none, both pages, or invalid.
pub proof fn law_monitor_page_request_saved(live: channels::MonitorPageRequest)
    ensures
        match (live, MonitorPageRequest::spec_save(live)) {
            (channels::MonitorPageRequest::Unset, MonitorPageRequest::Unset) => true,
            (channels::MonitorPageRequest::Gpas(live), MonitorPageRequest::Gpas(saved)) => {
                &&& saved.parent_to_child == live.parent_to_child
                &&& saved.child_to_parent == live.child_to_parent
            },
            (channels::MonitorPageRequest::Invalid, MonitorPageRequest::Invalid) => true,
            _ => false,
        },
{
}

/// A saved request for monitor pages is restored as what it is.
pub proof fn law_monitor_page_request_restored(saved: MonitorPageRequest)
    ensures
        match (saved, saved.spec_restore()) {
            (MonitorPageRequest::Unset, channels::MonitorPageRequest::Unset) => true,
            (MonitorPageRequest::Gpas(saved), channels::MonitorPageRequest::Gpas(live)) => {
                &&& live.parent_to_child == saved.parent_to_child
                &&& live.child_to_parent == saved.child_to_parent
            },
            (MonitorPageRequest::Invalid, channels::MonitorPageRequest::Invalid) => true,
            _ => false,
        },
{
}

/// A request to connect is saved with all that it asks for.
pub proof fn law_initiate_contact_saved(live: channels::InitiateContactRequest)
    ensures
        ({
            let saved = InitiateContactRequest::spec_save(live);
            &&& saved.version_requested == live.version_requested
            &&& saved.target_message_vp == live.target_message_vp
            &&& saved.monitor_page == MonitorPageRequest::spec_save(live.monitor_page)
            &&& saved.target_sint == live.target_sint
            &&& saved.target_vtl == live.target_vtl
            &&& saved.feature_flags == live.feature_flags
            &&& saved.interrupt_page == live.interrupt_page
            &&& saved.client_id == live.client_id
            &&& saved.trusted == live.trusted
        }),
{
}

/// A saved request to connect is restored with all that it asks for.
pub proof fn law_initiate_contact_restored(saved: InitiateContactRequest)
    ensures
        ({
            let live = saved.spec_restore();
            &&& live.version_requested == saved.version_requested
            &&& live.target_message_vp == saved.target_message_vp
            &&& live.monitor_page == saved.monitor_page.spec_restore()
            &&& live.target_sint == saved.target_sint
            &&& live.target_vtl == saved.target_vtl
            &&& live.feature_flags == saved.feature_flags
            &&& live.interrupt_page == saved.interrupt_page
            &&& live.client_id == saved.client_id
            &&& live.trusted == saved.trusted
        }),
{
}

/// The action that follows a disconnect is saved as what it is; a reset is saved as no action.
pub proof fn law_connection_action_saved(live: channels::ConnectionAction)
    ensures
        match (live, ConnectionAction::spec_save(live)) {
            (channels::ConnectionAction::NoAction, ConnectionAction::NoAction) => true,
            (channels::ConnectionAction::Reset, ConnectionAction::NoAction) => true,
            (
                channels::ConnectionAction::SendUnloadComplete,
                ConnectionAction::SendUnloadComplete,
            ) => true,
            (
                channels::ConnectionAction::Reconnect { initiate_contact: live },
                ConnectionAction::Reconnect { initiate_contact: saved },
            ) => saved == InitiateContactRequest::spec_save(live),
            (
                channels::ConnectionAction::SendFailedVersionResponse,
                ConnectionAction::SendFailedVersionResponse,
            ) => true,
            _ => false,
        },
{
}

/// A saved action that follows a disconnect is restored as what it is.
pub proof fn law_connection_action_restored(saved: ConnectionAction)
    ensures
        match (saved, saved.spec_restore()) {
            (ConnectionAction::NoAction, channels::ConnectionAction::NoAction) => true,
            (
                ConnectionAction::SendUnloadComplete,
                channels::ConnectionAction::SendUnloadComplete,
            ) => true,
            (
                ConnectionAction::Reconnect { initiate_contact: saved },
                channels::ConnectionAction::Reconnect { initiate_contact: live },
            ) => live == saved.spec_restore(),
            (
                ConnectionAction::SendFailedVersionResponse,
                channels::ConnectionAction::SendFailedVersionResponse,
            ) => true,
            _ => false,
        },
{
}

/// A connection is saved as what it is, with all its parameters. One that is gone has no saved
/// form.
pub proof fn law_connection_saved(live: channels::ConnectionState)
    ensures
        match (live, Connection::spec_save(live)) {
            (channels::ConnectionState::Disconnected, None) => true,
            (
                channels::ConnectionState::Connecting { info, next_action: live_action },
                Some(
                    Connection::Connecting {
                        version,
                        interrupt_page,
                        monitor_page,
                        target_message_vp,
                        next_action,
                        client_id,
                        trusted,
                    },
                ),
            ) => {
                &&& version.version == info.version.version.0
                &&& version.feature_flags == info.version.feature_flags.0
                &&& interrupt_page == info.interrupt_page
                &&& match (info.monitor_page, monitor_page) {
                    (Some(live), Some(saved)) => saved.parent_to_child == live.parent_to_child
                        && saved.child_to_parent == live.child_to_parent,
                    (None, None) => true,
                    _ => false,
                }
                &&& target_message_vp == info.target_message_vp
                &&& next_action == ConnectionAction::spec_save(live_action)
                &&& client_id == Some(info.client_id)
                &&& trusted == info.trusted
            },
            (
                channels::ConnectionState::Connected(info),
                Some(
                    Connection::Connected {
                        version,
                        offers_sent,
                        interrupt_page,
                        monitor_page,
                        target_message_vp,
                        modifying,
                        client_id,
                        trusted,
                        paused,
                    },
                ),
            ) => {
                &&& version.version == info.version.version.0
                &&& version.feature_flags == info.version.feature_flags.0
                &&& offers_sent == info.offers_sent
                &&& interrupt_page == info.interrupt_page
                &&& match (info.monitor_page, monitor_page) {
                    (Some(live), Some(saved)) => saved.parent_to_child == live.parent_to_child
                        && saved.child_to_parent == live.child_to_parent,
                    (None, None) => true,
                    _ => false,
                }
                &&& target_message_vp == info.target_message_vp
                &&& modifying == info.modifying
                &&& client_id == Some(info.client_id)
                &&& trusted == info.trusted
                &&& paused == info.paused
            },
            (
                channels::ConnectionState::Disconnecting { next_action: live_action, .. },
                Some(Connection::Disconnecting { next_action }),
            ) => next_action == ConnectionAction::spec_save(live_action),
            _ => false,
        },
{
}

/// A saved connection is restored as what it is, with all its parameters, and with the version that
/// is restored for a connection of its trust; if that version is refused, so is the connection, for
/// the same reason. A missing client ID is zero.
pub proof fn law_connection_restored(saved: Connection, protocol: ProtocolView)
    ensures
        match (saved, saved.spec_restore(protocol)) {
            (
                Connection::Connecting {
                    version,
                    interrupt_page,
                    monitor_page,
                    target_message_vp,
                    next_action,
                    client_id,
                    trusted,
                },
                Ok(
                    channels::ConnectionState::Connecting { info, next_action: live_action },
                ),
            ) => {
                &&& version.spec_restore(trusted, protocol) == Ok::<_, RestoreError>(info.version)
                &&& info.trusted == trusted
                &&& !info.offers_sent
                &&& info.interrupt_page == interrupt_page
                &&& match (monitor_page, info.monitor_page) {
                    (Some(saved), Some(live)) => live.parent_to_child == saved.parent_to_child
                        && live.child_to_parent == saved.child_to_parent,
                    (None, None) => true,
                    _ => false,
                }
                &&& info.target_message_vp == target_message_vp
                &&& !info.modifying
                &&& !info.paused
                &&& client_id is Some ==> client_id == Some(info.client_id)
                &&& client_id is None ==> info.client_id == Guid(0)
                &&& live_action == next_action.spec_restore()
            },
            (
                Connection::Connected {
                    version,
                    offers_sent,
                    interrupt_page,
                    monitor_page,
                    target_message_vp,
                    modifying,
                    client_id,
                    trusted,
                    paused,
                },
                Ok(channels::ConnectionState::Connected(info)),
            ) => {
                &&& version.spec_restore(trusted, protocol) == Ok::<_, RestoreError>(info.version)
                &&& info.trusted == trusted
                &&& info.offers_sent == offers_sent
                &&& info.interrupt_page == interrupt_page
                &&& match (monitor_page, info.monitor_page) {
                    (Some(saved), Some(live)) => live.parent_to_child == saved.parent_to_child
                        && live.child_to_parent == saved.child_to_parent,
                    (None, None) => true,
                    _ => false,
                }
                &&& info.target_message_vp == target_message_vp
                &&& info.modifying == modifying
                &&& info.paused == paused
                &&& client_id is Some ==> client_id == Some(info.client_id)
                &&& client_id is None ==> info.client_id == Guid(0)
            },
            (
                Connection::Disconnecting { next_action },
                Ok(
                    channels::ConnectionState::Disconnecting {
                        next_action: live_action,
                        modify_sent,
                    },
                ),
            ) => live_action == next_action.spec_restore() && !modify_sent,
            (Connection::Connecting { version, trusted, .. }, Err(error)) => version.spec_restore(
                trusted,
                protocol,
            ) == Err::<protocol::VersionInfo, _>(error),
            (Connection::Connected { version, trusted, .. }, Err(error)) => version.spec_restore(
                trusted,
                protocol,
            ) == Err::<protocol::VersionInfo, _>(error),
            _ => false,
        },
{
}

/// An update to a value sets it, and an update to no value resets the setting.
pub proof fn law_update<T>(value: Option<T>)
    ensures
        match (value, Update::spec_to(value)) {
            (Some(value), Update::To(to)) => to == value,
            (None, Update::Reset) => true,
            _ => false,
        },
{
}

/// What the notifier is told of a restored connection, setting by setting.
pub proof fn law_restore_request(live: channels::ConnectionState)
    ensures
        match live {
            channels::ConnectionState::Connecting { info, .. } => {
                &&& live.spec_restore_request() matches Some(request)
                &&& request.version == Some(info.version.version.0)
                &&& request.target_message_vp == Some(info.target_message_vp)
                &&& request.notify_relay
                &&& match (info.monitor_page, request.monitor_page) {
                    (Some(page), Update::To(to)) => to == page,
                    (None, Update::Reset) => true,
                    _ => false,
                }
                &&& match (info.interrupt_page, request.interrupt_page) {
                    (Some(page), Update::To(to)) => to == page,
                    (None, Update::Reset) => true,
                    _ => false,
                }
            },
            channels::ConnectionState::Connected(info) => {
                &&& live.spec_restore_request() matches Some(request)
                &&& request.version is None
                &&& request.target_message_vp == Some(info.target_message_vp)
                &&& request.notify_relay == info.modifying
                &&& match (info.monitor_page, request.monitor_page) {
                    (Some(page), Update::To(to)) => to == page,
                    (None, Update::Reset) => true,
                    _ => false,
                }
                &&& match (info.interrupt_page, request.interrupt_page) {
                    (Some(page), Update::To(to)) => to == page,
                    (None, Update::Reset) => true,
                    _ => false,
                }
            },
            _ => live.spec_restore_request() is None,
        },
{
}

/// Signal parameters are saved and restored field by field.
pub proof fn law_signal_info_fields(live: channels::SignalInfo, saved: SignalInfo)
    ensures
        SignalInfo::spec_save(live).event_flag == live.event_flag,
        SignalInfo::spec_save(live).connection_id == live.connection_id,
        saved.spec_restore().event_flag == saved.event_flag,
        saved.spec_restore().connection_id == saved.connection_id,
{
}

/// An open request is saved with all that it asks for.
pub proof fn law_open_request_saved(live: channels::OpenRequest)
    ensures
        ({
            let saved = OpenRequest::spec_save(live);
            &&& saved.open_id == live.open_id
            &&& saved.ring_buffer_gpadl_id == live.ring_buffer_gpadl_id
            &&& saved.target_vp == live.target_vp
            &&& saved.downstream_ring_buffer_page_offset == live.downstream_ring_buffer_page_offset
            &&& saved.user_data == live.user_data.0
            &&& match (live.guest_specified_interrupt_info, saved.guest_specified_interrupt_info) {
                (Some(live), Some(saved)) => saved.event_flag == live.event_flag
                    && saved.connection_id == live.connection_id,
                (None, None) => true,
                _ => false,
            }
            &&& saved.flags == live.flags.0
        }),
{
}

/// A saved open request is restored with all that it asks for.
pub proof fn law_open_request_restored(saved: OpenRequest)
    ensures
        ({
            let live = saved.spec_restore();
            &&& live.open_id == saved.open_id
            &&& live.ring_buffer_gpadl_id == saved.ring_buffer_gpadl_id
            &&& live.target_vp == saved.target_vp
            &&& live.downstream_ring_buffer_page_offset == saved.downstream_ring_buffer_page_offset
            &&& live.user_data.0 == saved.user_data
            &&& match (saved.guest_specified_interrupt_info, live.guest_specified_interrupt_info) {
                (Some(saved), Some(live)) => live.event_flag == saved.event_flag
                    && live.connection_id == saved.connection_id,
                (None, None) => true,
                _ => false,
            }
            &&& live.flags.0 == saved.flags
        }),
{
}

/// The progress of a modification is saved and restored as what it is, with the processor.
pub proof fn law_modify_state_fields(live: channels::ModifyState, saved: ModifyState)
    ensures
        match (live, ModifyState::spec_save(live)) {
            (channels::ModifyState::NotModifying, ModifyState::NotModifying) => true,
            (
                channels::ModifyState::Modifying { pending_target_vp: live },
                ModifyState::Modifying { pending_target_vp: saved },
            ) => saved == live,
            _ => false,
        },
        match (saved, saved.spec_restore()) {
            (ModifyState::NotModifying, channels::ModifyState::NotModifying) => true,
            (
                ModifyState::Modifying { pending_target_vp: saved },
                channels::ModifyState::Modifying { pending_target_vp: live },
            ) => live == saved,
            _ => false,
        },
{
}

/// A reservation is saved with its version and where its messages go.
pub proof fn law_reserved_saved(live: channels::ReservedState)
    ensures
        ({
            let saved = ReservedState::spec_save(live);
            &&& saved.version.version == live.version.version.0
            &&& saved.version.feature_flags == live.version.feature_flags.0
            &&& saved.vp == live.target.vp
            &&& saved.sint == live.target.sint
        }),
        match ReservedState::spec_save_option(Some(live)) {
            Some(saved) => saved == ReservedState::spec_save(live),
            None => false,
        },
        ReservedState::spec_save_option(None) is None,
{
}

/// A saved reservation is restored, with its version and where its messages go, exactly if the
/// version is in the list, no feature goes beyond those of a trusted connection, and the version is
/// not before the first in which a channel can be reserved. The errors name the version, or the
/// features if the version is in the list.
pub proof fn law_reserved_restored(saved: ReservedState, protocol: ProtocolView)
    ensures
        ({
            let listed = exists|i: int|
                0 <= i < protocol.supported_versions.len() && (
                #[trigger] protocol.supported_versions[i]).0 == saved.version.version;
            let beyond = saved.version.feature_flags & !(protocol.supported_feature_flags.0
                | protocol.confidential_channels.0) != 0;
            let early = saved.version.version < protocol.first_reserve_version.0;
            match saved.spec_restore(protocol) {
                Ok(live) => {
                    &&& listed
                    &&& !beyond
                    &&& !early
                    &&& live.version.version.0 == saved.version.version
                    &&& live.version.feature_flags.0 == saved.version.feature_flags
                    &&& live.target.vp == saved.vp
                    &&& live.target.sint == saved.sint
                },
                Err(RestoreError::UnsupportedReserveVersion(version)) => (!listed || !beyond
                    && early) && version == saved.version.version,
                Err(RestoreError::UnsupportedReserveFeatureFlags(flags)) => listed && beyond
                    && flags == saved.version.feature_flags,
                Err(_) => false,
            }
        }),
{
    law_version_restored(saved.version, true, protocol);
}

/// A reservation that is not there is restored as such, and one that is there as itself.
pub proof fn law_reserved_option_restored(
    saved: Option<ReservedState>,
    protocol: ProtocolView,
)
    ensures
        match (saved, ReservedState::spec_restore_option(saved, protocol)) {
            (None, Ok(live)) => live is None,
            (Some(saved), Ok(Some(live))) => saved.spec_restore(protocol) == Ok::<_, RestoreError>(
                live,
            ),
            (Some(saved), Err(error)) => saved.spec_restore(protocol) == Err::<
                channels::ReservedState,
                _,
            >(error),
            _ => false,
        },
{
}

/// The state of a channel is saved as what it is, with its requests, its modification and its
/// reservation. One that was offered again counts as revoked, and one that the guest has released
/// is not saved.
pub proof fn law_channel_state_saved(live: channels::ChannelState)
    ensures
        match (live, ChannelState::spec_save(live)) {
            (channels::ChannelState::Closed, Some(ChannelState::Closed)) => true,
            (
                channels::ChannelState::Opening { request: r, reserved_state: s },
                Some(ChannelState::Opening { request, reserved_state }),
            ) => {
                &&& request == OpenRequest::spec_save(r)
                &&& reserved_state is Some <==> s is Some
                &&& s matches Some(s) ==> reserved_state == Some(ReservedState::spec_save(s))
            },
            (
                channels::ChannelState::Open { params: p, modify_state: m, reserved_state: s },
                Some(ChannelState::Open { params, modify_state, reserved_state }),
            ) => {
                &&& params == OpenRequest::spec_save(p)
                &&& modify_state == ModifyState::spec_save(m)
                &&& reserved_state is Some <==> s is Some
                &&& s matches Some(s) ==> reserved_state == Some(ReservedState::spec_save(s))
            },
            (
                channels::ChannelState::Closing { params: p, reserved_state: s },
                Some(ChannelState::Closing { params, reserved_state }),
            ) => {
                &&& params == OpenRequest::spec_save(p)
                &&& reserved_state is Some <==> s is Some
                &&& s matches Some(s) ==> reserved_state == Some(ReservedState::spec_save(s))
            },
            (
                channels::ChannelState::ClosingReopen { params: p, request: r },
                Some(ChannelState::ClosingReopen { params, request }),
            ) => params == OpenRequest::spec_save(p) && request == OpenRequest::spec_save(r),
            (channels::ChannelState::Revoked, Some(ChannelState::Revoked)) => true,
            (channels::ChannelState::Reoffered, Some(ChannelState::Revoked)) => true,
            (channels::ChannelState::ClientReleased, None) => true,
            (channels::ChannelState::ClosingClientRelease, None) => true,
            (channels::ChannelState::OpeningClientRelease, None) => true,
            _ => false,
        },
{
}

/// The saved state of a channel is restored as what it is, with its requests, its modification and
/// its reservation; a revoked one counts as offered again. It is refused exactly if its reservation
/// is, for the same reason.
pub proof fn law_channel_state_restored(saved: ChannelState, protocol: ProtocolView)
    ensures
        match (saved, saved.spec_restore(protocol)) {
            (ChannelState::Closed, Ok(channels::ChannelState::Closed)) => true,
            (
                ChannelState::Opening { request: r, reserved_state: s },
                Ok(channels::ChannelState::Opening { request, reserved_state }),
            ) => {
                &&& request == r.spec_restore()
                &&& ReservedState::spec_restore_option(s, protocol) == Ok::<_, RestoreError>(
                    reserved_state,
                )
            },
            (
                ChannelState::Open { params: p, modify_state: m, reserved_state: s },
                Ok(channels::ChannelState::Open { params, modify_state, reserved_state }),
            ) => {
                &&& params == p.spec_restore()
                &&& modify_state == m.spec_restore()
                &&& ReservedState::spec_restore_option(s, protocol) == Ok::<_, RestoreError>(
                    reserved_state,
                )
            },
            (
                ChannelState::Closing { params: p, reserved_state: s },
                Ok(channels::ChannelState::Closing { params, reserved_state }),
            ) => {
                &&& params == p.spec_restore()
                &&& ReservedState::spec_restore_option(s, protocol) == Ok::<_, RestoreError>(
                    reserved_state,
                )
            },
            (
                ChannelState::ClosingReopen { params: p, request: r },
                Ok(channels::ChannelState::ClosingReopen { params, request }),
            ) => params == p.spec_restore() && request == r.spec_restore(),
            (ChannelState::Revoked, Ok(channels::ChannelState::Reoffered)) => true,
            (ChannelState::Opening { reserved_state: Some(s), .. }, Err(error)) => s.spec_restore(
                protocol,
            ) == Err::<channels::ReservedState, _>(error),
            (ChannelState::Open { reserved_state: Some(s), .. }, Err(error)) => s.spec_restore(
                protocol,
            ) == Err::<channels::ReservedState, _>(error),
            (ChannelState::Closing { reserved_state: Some(s), .. }, Err(error)) => s.spec_restore(
                protocol,
            ) == Err::<channels::ReservedState, _>(error),
            _ => false,
        },
{
}

/// Each saved state has its own name.
pub proof fn law_channel_state_names(saved: ChannelState)
    ensures
        saved.spec_name() == "Closed"@ <==> saved is Closed,
        saved.spec_name() == "Opening"@ <==> saved is Opening,
        saved.spec_name() == "Open"@ <==> saved is Open,
        saved.spec_name() == "Closing"@ <==> saved is Closing,
        saved.spec_name() == "ClosingReopen"@ <==> saved is ClosingReopen,
        saved.spec_name() == "Revoked"@ <==> saved is Revoked,
{
    reveal_strlit("Closed");
    reveal_strlit("Opening");
    reveal_strlit("Open");
    reveal_strlit("Closing");
    reveal_strlit("ClosingReopen");
    reveal_strlit("Revoked");
    assert("Closed"@[0] != "Open"@[0]);
    assert("Closed"@.len() == 6);
    assert("Opening"@.len() == 7);
    assert("Open"@.len() == 4);
    assert("Closing"@.len() == 7);
    assert("ClosingReopen"@.len() == 13);
    assert("Revoked"@.len() == 7);
    assert("Opening"@[0] == 'O' && "Closing"@[0] == 'C' && "Revoked"@[0] == 'R');
}

/// The guest has released a channel in exactly three states, a channel is revoked in exactly two,
/// and reserved in exactly the three that can carry a reservation, if they do.
pub proof fn law_channel_state_kinds(live: channels::ChannelState)
    ensures
        live.spec_is_released() <==> live is ClientReleased || live is ClosingClientRelease
            || live is OpeningClientRelease,
        live.spec_is_released() <==> ChannelState::spec_save(live) is None,
        live.spec_is_revoked() <==> live is Revoked || live is Reoffered,
        live.spec_is_revoked() <==> ChannelState::spec_save(live) == Some(ChannelState::Revoked),
        live.spec_is_reserved() <==> match live {
            channels::ChannelState::Opening { reserved_state: Some(_), .. } => true,
            channels::ChannelState::Open { reserved_state: Some(_), .. } => true,
            channels::ChannelState::Closing { reserved_state: Some(_), .. } => true,
            _ => false,
        },
{
}

/// The key of an offer is made of its interface, its instance and its subchannel.
pub proof fn law_offer_key(offer: channels::OfferParamsInternal)
    ensures
        offer.spec_key().interface_id == offer.interface_id,
        offer.spec_key().instance_id == offer.instance_id,
        offer.spec_key().subchannel_index == offer.subchannel_index,
{
}

/// A channel is saved exactly if the guest was told of it and its state has a saved form, and then
/// with its key, with all that the guest was told and with that form. Nothing else matters.
pub proof fn law_channel_saved(live: channels::Channel)
    ensures
        match Channel::spec_save(live) {
            Some(saved) => {
                &&& live.info matches Some(info)
                &&& saved.channel_id == info.channel_id.0
                &&& saved.offered_connection_id == info.connection_id
                &&& match (info.monitor_id, saved.monitor_id) {
                    (Some(live), Some(saved)) => saved == live.0,
                    (None, None) => true,
                    _ => false,
                }
                &&& saved.key.interface_id == live.offer.interface_id
                &&& saved.key.instance_id == live.offer.instance_id
                &&& saved.key.subchannel_index == live.offer.subchannel_index
                &&& ChannelState::spec_save(live.state) == Some(saved.state)
            },
            None => live.info is None || live.state is ClientReleased
                || live.state is ClosingClientRelease || live.state is OpeningClientRelease,
        },
{
}

/// What the guest was told of a saved channel, and the offer that stands in for its own.
pub proof fn law_channel_restored(saved: Channel)
    ensures
        saved.spec_info().channel_id == ChannelId(saved.channel_id),
        saved.spec_info().connection_id == saved.offered_connection_id,
        match (saved.monitor_id, saved.spec_info().monitor_id) {
            (Some(saved), Some(live)) => live == MonitorId(saved),
            (None, None) => true,
            _ => false,
        },
        saved.spec_stub_offer().interface_id == saved.key.interface_id,
        saved.spec_stub_offer().instance_id == saved.key.instance_id,
        saved.spec_stub_offer().subchannel_index == saved.key.subchannel_index,
        saved.spec_stub_offer().use_mnf == MnfUsage::NoMnf,
{
}

/// The request with which a saved channel was opened: the one that it is opening with, or the one
/// that it was opened with and has not yet been closed.
pub proof fn law_channel_open_request(saved: Channel)
    ensures
        match saved.state {
            ChannelState::Closed => saved.spec_open_request() is None,
            ChannelState::Opening { request, .. } => saved.spec_open_request() == Some(request),
            ChannelState::Open { params, .. } => saved.spec_open_request() == Some(params),
            ChannelState::Closing { params, .. } => saved.spec_open_request() == Some(params),
            ChannelState::ClosingReopen { params, .. } => saved.spec_open_request() == Some(params),
            ChannelState::Revoked => saved.spec_open_request() is None,
        },
{
}

/// The open request of a channel that is saved while it is open has the ring buffer of the live
/// channel.
pub proof fn law_saved_ring_buffer(live: channels::Channel, saved: Channel)
    requires
        Channel::spec_save(live) == Some(saved),
    ensures
        live.state matches channels::ChannelState::Open { params, .. } ==> {
            &&& saved.spec_open_request() matches Some(request)
            &&& request.ring_buffer_gpadl_id == params.ring_buffer_gpadl_id
            &&& request.downstream_ring_buffer_page_offset
                == params.downstream_ring_buffer_page_offset
        },
{
}

/// The state of a GPADL is saved and restored as what it is; one that was torn down before its
/// device answered is not saved. Of a revoked channel, the GPADLs that the device has not been
/// handed, or has accepted, can be restored.
pub proof fn law_gpadl_state_fields(live: channels::GpadlState, saved: GpadlState)
    ensures
        match (live, GpadlState::spec_save(live)) {
            (channels::GpadlState::InProgress, Some(GpadlState::InProgress)) => true,
            (channels::GpadlState::Offered, Some(GpadlState::Offered)) => true,
            (channels::GpadlState::Accepted, Some(GpadlState::Accepted)) => true,
            (channels::GpadlState::TearingDown, Some(GpadlState::TearingDown)) => true,
            (channels::GpadlState::OfferedTearingDown, None) => true,
            _ => false,
        },
        match (saved, saved.spec_restore()) {
            (GpadlState::InProgress, channels::GpadlState::InProgress) => saved.allows_revoked(),
            (GpadlState::Offered, channels::GpadlState::Offered) => !saved.allows_revoked(),
            (GpadlState::Accepted, channels::GpadlState::Accepted) => saved.allows_revoked(),
            (GpadlState::TearingDown, channels::GpadlState::TearingDown) =>
                !saved.allows_revoked(),
            _ => false,
        },
{
}

/// A GPADL is saved, unless it was torn down before its device answered, with its ID, the ID of its
/// channel, its ranges and its state.
pub proof fn law_gpadl_saved(gpadl_id: GpadlId, channel_id: ChannelId, live: channels::GpadlView)
    ensures
        match GpadlView::spec_save(gpadl_id, channel_id, live) {
            Some(saved) => {
                &&& !(live.state is OfferedTearingDown)
                &&& saved.id == gpadl_id.0
                &&& saved.channel_id == channel_id.0
                &&& saved.count == live.count
                &&& saved.buf == live.buf
                &&& match (live.state, saved.state) {
                    (channels::GpadlState::InProgress, GpadlState::InProgress) => true,
                    (channels::GpadlState::Offered, GpadlState::Offered) => true,
                    (channels::GpadlState::Accepted, GpadlState::Accepted) => true,
                    (channels::GpadlState::TearingDown, GpadlState::TearingDown) => true,
                    _ => false,
                }
            },
            None => live.state is OfferedTearingDown,
        },
{
}

/// A saved GPADL is restored with its ranges and its state. While it is incomplete its buffer is
/// the saved one; else it is the one that the validation gave, and where that refused the ranges,
/// so is the GPADL. One that is offered or being torn down is refused if its channel is revoked.
pub proof fn law_gpadl_restored(
    saved: GpadlView,
    channel: channels::Channel,
    range: Result<Seq<u64>, RangeError>,
)
    ensures
        ({
            let revoked = channel.state is Revoked || channel.state is Reoffered;
            let waiting = saved.state is Offered || saved.state is TearingDown;
            match saved.spec_restore(channel, range) {
                Ok(live) => {
                    &&& live.count == saved.count
                    &&& saved.state is InProgress ==> live.buf == saved.buf
                    &&& !(saved.state is InProgress) ==> range == Ok::<_, RangeError>(live.buf)
                    &&& !(waiting && revoked)
                    &&& match (saved.state, live.state) {
                        (GpadlState::InProgress, channels::GpadlState::InProgress) => true,
                        (GpadlState::Offered, channels::GpadlState::Offered) => true,
                        (GpadlState::Accepted, channels::GpadlState::Accepted) => true,
                        (GpadlState::TearingDown, channels::GpadlState::TearingDown) => true,
                        _ => false,
                    }
                },
                Err(RestoreError::InvalidGpadl(error)) => !(saved.state is InProgress) && range
                    == Err::<Seq<u64>, _>(error),
                Err(RestoreError::GpadlForRevokedChannel(gpadl_id, channel_id)) => {
                    &&& waiting
                    &&& revoked
                    &&& range is Ok
                    &&& gpadl_id.0 == saved.id
                    &&& channel_id.0 == saved.channel_id
                },
                Err(_) => false,
            }
        }),
{
}

/// The models of saved and live GPADLs and of saved messages have what these have.
pub proof fn law_models(saved: Gpadl, live: channels::Gpadl, message: OutgoingMessage)
    ensures
        saved@.id == saved.id,
        saved@.channel_id == saved.channel_id,
        saved@.count == saved.count,
        saved@.buf == saved.buf@,
        saved@.state == saved.state,
        live@.count == live.count,
        live@.buf == live.buf@,
        live@.state == live.state,
        message@ == message.0@,
{
}

} // verus!
