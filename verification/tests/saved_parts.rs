use vm_devices::vmbus::channels;
use vm_devices::vmbus::channels::{MnfUsage, OfferError, OfferParamsInternal, OfferedInfo};
use vm_devices::vmbus::channels::{RestoreState, Update};
use vm_devices::vmbus::protocol;
use vm_devices::vmbus::protocol::{ChannelId, FeatureFlags, GpadlId, Guid, MonitorId, OfferKey};
use vm_devices::vmbus::protocol::{Protocol, Version};
use vm_devices::vmbus::saved_state::{
    Channel, ChannelState, Connection, ConnectionAction, Gpadl, GpadlState,
    InitiateContactRequest, ModifyState, MonitorPageGpas, MonitorPageRequest, OpenRequest,
    OutgoingMessage, RangeError, ReservedState, RestoreError, SignalInfo, VersionInfo,
};

const V1: Version = Version(0x0000_000d);
const V4: Version = Version(0x0004_0000);
const V5: Version = Version(0x0005_0003);
const PLAIN: u32 = 0b0011;
const CONFIDENTIAL: u32 = 0b1000;

fn protocol() -> Protocol {
    Protocol {
        supported_versions: vec![V1, V4, V5],
        supported_feature_flags: FeatureFlags(PLAIN | CONFIDENTIAL),
        confidential_channels: FeatureFlags(CONFIDENTIAL),
        first_reserve_version: V4,
        max_message_size: 240,
    }
}

fn show<T: std::fmt::Debug>(value: &T) -> String {
    format!("{:?}", value)
}

fn key(n: u16) -> OfferKey {
    OfferKey {
        interface_id: Guid(0x11),
        instance_id: Guid(0x22),
        subchannel_index: n,
    }
}

fn open_request() -> channels::OpenRequest {
    let mut user_data = [0u8; 120];
    user_data[0] = 0xaa;
    user_data[119] = 0x55;
    channels::OpenRequest {
        open_id: 7,
        ring_buffer_gpadl_id: GpadlId(31),
        target_vp: 3,
        downstream_ring_buffer_page_offset: 9,
        user_data: channels::UserDefinedData(user_data),
        guest_specified_interrupt_info: Some(channels::SignalInfo {
            event_flag: 12,
            connection_id: 0x2000,
        }),
        flags: channels::OpenChannelFlags(0x8001),
    }
}

fn info(version: Version, flags: u32) -> channels::ConnectionInfo {
    channels::ConnectionInfo {
        version: protocol::VersionInfo {
            version,
            feature_flags: FeatureFlags(flags),
        },
        trusted: false,
        offers_sent: true,
        interrupt_page: Some(0x1000),
        monitor_page: Some(channels::MonitorPageGpas {
            parent_to_child: 0x2000,
            child_to_parent: 0x3000,
        }),
        target_message_vp: 2,
        modifying: true,
        client_id: Guid(0xabc),
        paused: true,
    }
}

fn contact() -> channels::InitiateContactRequest {
    channels::InitiateContactRequest {
        version_requested: V5.0,
        target_message_vp: 1,
        monitor_page: channels::MonitorPageRequest::Gpas(channels::MonitorPageGpas {
            parent_to_child: 5,
            child_to_parent: 6,
        }),
        target_sint: 2,
        target_vtl: 0,
        feature_flags: PLAIN,
        interrupt_page: None,
        client_id: Guid(99),
        trusted: true,
    }
}

#[test]
fn version_round_trip() {
    let live = protocol::VersionInfo {
        version: V5,
        feature_flags: FeatureFlags(0b0001),
    };
    let saved = VersionInfo::save(&live);
    assert_eq!(saved.version, 0x0005_0003);
    assert_eq!(saved.feature_flags, 1);
    assert_eq!(saved.restore(false, &protocol()).unwrap(), live);
}

#[test]
fn version_unsupported() {
    let saved = VersionInfo {
        version: 0x0006_0000,
        feature_flags: 0xffff,
    };
    assert!(matches!(
        saved.restore(true, &protocol()),
        Err(RestoreError::UnsupportedVersion(0x0006_0000))
    ));
}

#[test]
fn version_unsupported_flags() {
    let saved = VersionInfo {
        version: V4.0,
        feature_flags: 0b0100,
    };
    assert!(matches!(
        saved.restore(true, &protocol()),
        Err(RestoreError::UnsupportedFeatureFlags(0b0100))
    ));
}

#[test]
fn confidential_channels_need_trust() {
    let saved = VersionInfo {
        version: V5.0,
        feature_flags: PLAIN | CONFIDENTIAL,
    };
    assert_eq!(
        saved.restore(true, &protocol()).unwrap().feature_flags,
        FeatureFlags(0b1011)
    );
    assert!(matches!(
        saved.restore(false, &protocol()),
        Err(RestoreError::UnsupportedFeatureFlags(0b1011))
    ));
}

#[test]
fn feature_flags_with_and_contains() {
    let flags = FeatureFlags(0b0110);
    assert_eq!(flags.with(FeatureFlags(0b1010), true), FeatureFlags(0b1110));
    assert_eq!(
        flags.with(FeatureFlags(0b1010), false),
        FeatureFlags(0b0100)
    );
    assert!(flags.contains(FeatureFlags(0b0100)));
    assert!(flags.contains(FeatureFlags(0)));
    assert!(!flags.contains(FeatureFlags(0b0101)));
}

#[test]
fn monitor_pages_round_trip() {
    let live = channels::MonitorPageGpas {
        parent_to_child: 1,
        child_to_parent: 2,
    };
    let saved = MonitorPageGpas::save(live);
    assert_eq!(saved.parent_to_child, 1);
    assert_eq!(saved.child_to_parent, 2);
    assert_eq!(saved.restore(), live);
    for request in [
        channels::MonitorPageRequest::Unset,
        channels::MonitorPageRequest::Gpas(live),
        channels::MonitorPageRequest::Invalid,
    ] {
        assert_eq!(MonitorPageRequest::save(request).restore(), request);
    }
    assert_eq!(
        MonitorPageRequest::save(channels::MonitorPageRequest::Gpas(live)),
        MonitorPageRequest::Gpas(saved)
    );
}

#[test]
fn initiate_contact_round_trip() {
    let live = contact();
    let saved = InitiateContactRequest::save(&live);
    assert_eq!(saved.client_id, Guid(99));
    assert_eq!(saved.target_sint, 2);
    assert!(saved.trusted);
    assert_eq!(show(&saved.restore()), show(&live));
}

#[test]
fn connection_action_reset_is_not_saved() {
    let saved = ConnectionAction::save(&channels::ConnectionAction::Reset);
    assert!(matches!(saved, ConnectionAction::NoAction));
    assert!(matches!(
        saved.restore(),
        channels::ConnectionAction::NoAction
    ));
    for live in [
        channels::ConnectionAction::NoAction,
        channels::ConnectionAction::SendUnloadComplete,
        channels::ConnectionAction::Reconnect {
            initiate_contact: contact(),
        },
        channels::ConnectionAction::SendFailedVersionResponse,
    ] {
        assert_eq!(
            show(&ConnectionAction::save(&live).restore()),
            show(&live)
        );
    }
}

#[test]
fn connection_disconnected_has_no_saved_form() {
    assert!(Connection::save(&channels::ConnectionState::Disconnected).is_none());
}

#[test]
fn connection_connected_round_trip() {
    let live = channels::ConnectionState::Connected(info(V5, PLAIN));
    let saved = Connection::save(&live).unwrap();
    assert_eq!(show(&saved.restore(&protocol()).unwrap()), show(&live));
}

#[test]
fn connection_connecting_settles() {
    let live = channels::ConnectionState::Connecting {
        info: info(V4, 0),
        next_action: channels::ConnectionAction::Reset,
    };
    let saved = Connection::save(&live).unwrap();
    let expected = channels::ConnectionState::Connecting {
        info: channels::ConnectionInfo {
            offers_sent: false,
            modifying: false,
            paused: false,
            ..info(V4, 0)
        },
        next_action: channels::ConnectionAction::NoAction,
    };
    assert_eq!(show(&saved.restore(&protocol()).unwrap()), show(&expected));
}

#[test]
fn connection_disconnecting_will_resend() {
    let live = channels::ConnectionState::Disconnecting {
        next_action: channels::ConnectionAction::SendUnloadComplete,
        modify_sent: true,
    };
    let saved = Connection::save(&live).unwrap();
    assert!(matches!(
        saved.restore(&protocol()),
        Ok(channels::ConnectionState::Disconnecting {
            next_action: channels::ConnectionAction::SendUnloadComplete,
            modify_sent: false,
        })
    ));
}

#[test]
fn connection_without_client_id() {
    let saved = Connection::Connected {
        version: VersionInfo {
            version: V1.0,
            feature_flags: 0,
        },
        offers_sent: false,
        interrupt_page: None,
        monitor_page: None,
        target_message_vp: 0,
        modifying: false,
        client_id: None,
        trusted: false,
        paused: false,
    };
    match saved.restore(&protocol()) {
        Ok(channels::ConnectionState::Connected(info)) => assert_eq!(info.client_id, Guid::zero()),
        other => panic!("{:?}", other),
    }
}

#[test]
fn connection_with_unsupported_version() {
    let live = channels::ConnectionState::Connected(info(Version(1), 0));
    let saved = Connection::save(&live).unwrap();
    assert!(matches!(
        saved.restore(&protocol()),
        Err(RestoreError::UnsupportedVersion(1))
    ));
}

#[test]
fn restore_request_of_each_state() {
    let connecting = channels::ConnectionState::Connecting {
        info: info(V4, 0),
        next_action: channels::ConnectionAction::NoAction,
    };
    let request = connecting.restore_request().unwrap();
    assert_eq!(request.version, Some(0x0004_0000));
    assert!(request.notify_relay);
    assert!(matches!(request.interrupt_page, Update::To(0x1000)));
    assert!(matches!(
        request.monitor_page,
        Update::To(channels::MonitorPageGpas {
            parent_to_child: 0x2000,
            child_to_parent: 0x3000
        })
    ));
    assert_eq!(request.target_message_vp, Some(2));

    let connected = channels::ConnectionState::Connected(channels::ConnectionInfo {
        modifying: false,
        interrupt_page: None,
        monitor_page: None,
        ..info(V4, 0)
    });
    let request = connected.restore_request().unwrap();
    assert_eq!(request.version, None);
    assert!(!request.notify_relay);
    assert!(matches!(request.interrupt_page, Update::Reset));
    assert!(matches!(request.monitor_page, Update::Reset));

    let modifying = channels::ConnectionState::Connected(info(V4, 0));
    assert!(modifying.restore_request().unwrap().notify_relay);

    assert!(channels::ConnectionState::Disconnected
        .restore_request()
        .is_none());
    assert!(channels::ConnectionState::Disconnecting {
        next_action: channels::ConnectionAction::NoAction,
        modify_sent: true,
    }
    .restore_request()
    .is_none());
}

#[test]
fn open_request_round_trip() {
    let live = open_request();
    let saved = OpenRequest::save(&live);
    assert_eq!(saved.user_data[119], 0x55);
    assert_eq!(saved.flags, 0x8001);
    assert_eq!(show(&saved.restore()), show(&live));
    let plain = channels::OpenRequest {
        guest_specified_interrupt_info: None,
        ..live
    };
    assert_eq!(show(&OpenRequest::save(&plain).restore()), show(&plain));
    let signal = channels::SignalInfo {
        event_flag: 1,
        connection_id: 2,
    };
    assert_eq!(SignalInfo::save(&signal).restore(), signal);
}

#[test]
fn modify_state_round_trip() {
    for live in [
        channels::ModifyState::NotModifying,
        channels::ModifyState::Modifying {
            pending_target_vp: None,
        },
        channels::ModifyState::Modifying {
            pending_target_vp: Some(4),
        },
    ] {
        assert_eq!(ModifyState::save(&live).restore(), live);
    }
}

fn reserved(version: Version, flags: u32) -> channels::ReservedState {
    channels::ReservedState {
        version: protocol::VersionInfo {
            version,
            feature_flags: FeatureFlags(flags),
        },
        target: channels::ConnectionTarget { vp: 5, sint: 6 },
    }
}

#[test]
fn reserved_state_round_trip() {
    let live = reserved(V4, PLAIN | CONFIDENTIAL);
    let saved = ReservedState::save(&live);
    assert_eq!((saved.vp, saved.sint), (5, 6));
    assert_eq!(saved.restore(&protocol()).unwrap(), live);
}

#[test]
fn reserved_state_refusals() {
    let too_old = ReservedState::save(&reserved(V1, 0));
    assert!(matches!(
        too_old.restore(&protocol()),
        Err(RestoreError::UnsupportedReserveVersion(0x0000_000d))
    ));
    let unknown = ReservedState::save(&reserved(Version(0x0009_0000), 0));
    assert!(matches!(
        unknown.restore(&protocol()),
        Err(RestoreError::UnsupportedReserveVersion(0x0009_0000))
    ));
    let flags = ReservedState::save(&reserved(V5, 0b0100));
    assert!(matches!(
        flags.restore(&protocol()),
        Err(RestoreError::UnsupportedReserveFeatureFlags(0b0100))
    ));
}

#[test]
fn channel_state_round_trip() {
    for live in [
        channels::ChannelState::Closed,
        channels::ChannelState::Opening {
            request: open_request(),
            reserved_state: None,
        },
        channels::ChannelState::Open {
            params: open_request(),
            modify_state: channels::ModifyState::NotModifying,
            reserved_state: Some(reserved(V5, 0)),
        },
        channels::ChannelState::Closing {
            params: open_request(),
            reserved_state: Some(reserved(V4, 1)),
        },
        channels::ChannelState::ClosingReopen {
            params: open_request(),
            request: channels::OpenRequest {
                open_id: 8,
                ..open_request()
            },
        },
        channels::ChannelState::Reoffered,
    ] {
        let saved = ChannelState::save(&live).unwrap();
        assert_eq!(show(&saved.restore(&protocol()).unwrap()), show(&live));
    }
}

#[test]
fn channel_state_revoked_comes_back_reoffered() {
    let saved = ChannelState::save(&channels::ChannelState::Revoked).unwrap();
    assert!(matches!(saved, ChannelState::Revoked));
    assert!(matches!(
        saved.restore(&protocol()),
        Ok(channels::ChannelState::Reoffered)
    ));
}

#[test]
fn channel_state_released_is_not_saved() {
    for live in [
        channels::ChannelState::ClientReleased,
        channels::ChannelState::ClosingClientRelease,
        channels::ChannelState::OpeningClientRelease,
    ] {
        assert!(live.is_released());
        assert!(ChannelState::save(&live).is_none());
    }
    assert!(!channels::ChannelState::Closed.is_released());
}

#[test]
fn channel_state_with_bad_reservation() {
    let live = channels::ChannelState::Opening {
        request: open_request(),
        reserved_state: Some(reserved(V1, 0)),
    };
    assert!(live.is_reserved());
    let saved = ChannelState::save(&live).unwrap();
    assert!(matches!(
        saved.restore(&protocol()),
        Err(RestoreError::UnsupportedReserveVersion(0xd))
    ));
}

#[test]
fn channel_state_names() {
    let params = OpenRequest::save(&open_request());
    let names = [
        ChannelState::Closed.name(),
        ChannelState::Opening {
            request: params,
            reserved_state: None,
        }
        .name(),
        ChannelState::Open {
            params,
            modify_state: ModifyState::NotModifying,
            reserved_state: None,
        }
        .name(),
        ChannelState::Closing {
            params,
            reserved_state: None,
        }
        .name(),
        ChannelState::ClosingReopen {
            params,
            request: params,
        }
        .name(),
        ChannelState::Revoked.name(),
    ];
    assert_eq!(
        names,
        ["Closed", "Opening", "Open", "Closing", "ClosingReopen", "Revoked"]
    );
}

fn live_channel(state: channels::ChannelState) -> channels::Channel {
    channels::Channel {
        info: Some(OfferedInfo {
            channel_id: ChannelId(3),
            connection_id: 0x1003,
            monitor_id: Some(MonitorId(17)),
        }),
        offer: OfferParamsInternal {
            interface_id: Guid(0x11),
            instance_id: Guid(0x22),
            subchannel_index: 4,
            use_mnf: MnfUsage::Normal,
        },
        state,
        restore_state: RestoreState::New,
    }
}

#[test]
fn channel_round_trip() {
    let saved = Channel::save(&live_channel(channels::ChannelState::Closed)).unwrap();
    assert_eq!(saved.channel_id(), 3);
    assert_eq!(saved.key(), key(4));
    assert_eq!(saved.offered_connection_id, 0x1003);
    assert_eq!(saved.monitor_id, Some(17));
    let (info, stub_offer, state) = saved.restore(&protocol()).unwrap();
    assert_eq!(Some(info), live_channel(state).info);
    assert_eq!(stub_offer.key(), key(4));
    assert_eq!(stub_offer.use_mnf, MnfUsage::NoMnf);
    assert!(matches!(state, channels::ChannelState::Closed));
}

#[test]
fn channel_unknown_to_the_guest_is_not_saved() {
    let mut channel = live_channel(channels::ChannelState::Closed);
    channel.info = None;
    assert!(Channel::save(&channel).is_none());
    let released = live_channel(channels::ChannelState::ClientReleased);
    assert!(Channel::save(&released).is_none());
}

#[test]
fn channel_open_request_by_state() {
    let old = open_request();
    let new = channels::OpenRequest {
        open_id: 8,
        ..open_request()
    };
    let request = |state| Channel::save(&live_channel(state)).unwrap().open_request();
    assert!(request(channels::ChannelState::Closed).is_none());
    assert!(request(channels::ChannelState::Revoked).is_none());
    let opening = channels::ChannelState::Opening {
        request: new,
        reserved_state: None,
    };
    assert_eq!(request(opening).unwrap().open_id, 8);
    let open = channels::ChannelState::Open {
        params: old,
        modify_state: channels::ModifyState::NotModifying,
        reserved_state: None,
    };
    assert_eq!(request(open).unwrap().open_id, 7);
    let closing = channels::ChannelState::Closing {
        params: old,
        reserved_state: None,
    };
    assert_eq!(request(closing).unwrap().open_id, 7);
    let reopening = channels::ChannelState::ClosingReopen {
        params: old,
        request: new,
    };
    assert_eq!(request(reopening).unwrap().open_id, 7);
}

fn live_gpadl(state: channels::GpadlState) -> channels::Gpadl {
    channels::Gpadl {
        count: 1,
        buf: vec![0x1000, 5, 6],
        state,
    }
}

#[test]
fn gpadl_save_by_state() {
    let save = |state| Gpadl::save(GpadlId(40), ChannelId(3), &live_gpadl(state));
    let saved = save(channels::GpadlState::Accepted).unwrap();
    assert_eq!((saved.id, saved.channel_id, saved.count), (40, 3, 1));
    assert_eq!(saved.buf, vec![0x1000, 5, 6]);
    assert_eq!(saved.state, GpadlState::Accepted);
    assert!(!saved.is_tearing_down());
    assert_eq!(
        save(channels::GpadlState::InProgress).unwrap().state,
        GpadlState::InProgress
    );
    assert_eq!(
        save(channels::GpadlState::Offered).unwrap().state,
        GpadlState::Offered
    );
    assert!(save(channels::GpadlState::TearingDown)
        .unwrap()
        .is_tearing_down());
    assert!(save(channels::GpadlState::OfferedTearingDown).is_none());
}

#[test]
fn gpadl_restore_uses_the_validated_buffer() {
    let channel = live_channel(channels::ChannelState::Closed);
    let saved =
        Gpadl::save(GpadlId(40), ChannelId(3), &live_gpadl(channels::GpadlState::Offered)).unwrap();
    let restored = saved.restore(&channel, Ok(vec![1, 2])).unwrap();
    assert_eq!(restored.buf, vec![1, 2]);
    assert_eq!(restored.state, channels::GpadlState::Offered);
    assert_eq!(restored.count, 1);
}

#[test]
fn gpadl_incomplete_is_not_validated() {
    let channel = live_channel(channels::ChannelState::Reoffered);
    let saved = Gpadl::save(
        GpadlId(40),
        ChannelId(3),
        &live_gpadl(channels::GpadlState::InProgress),
    )
    .unwrap();
    let range = Err(RangeError(anyhow::Error::msg("not looked at")));
    let restored = saved.restore(&channel, range).unwrap();
    assert_eq!(restored.buf, vec![0x1000, 5, 6]);
    assert_eq!(restored.state, channels::GpadlState::InProgress);
}

#[test]
fn gpadl_invalid() {
    let channel = live_channel(channels::ChannelState::Reoffered);
    let saved =
        Gpadl::save(GpadlId(40), ChannelId(3), &live_gpadl(channels::GpadlState::Offered)).unwrap();
    let range = Err(RangeError(anyhow::Error::msg("odd range")));
    match saved.restore(&channel, range) {
        Err(RestoreError::InvalidGpadl(RangeError(error))) => {
            assert_eq!(error.to_string(), "odd range")
        }
        other => panic!("{:?}", other),
    }
}

#[test]
fn gpadl_of_a_revoked_channel() {
    let channel = live_channel(channels::ChannelState::Reoffered);
    assert!(channel.state.is_revoked());
    for (state, allowed) in [
        (channels::GpadlState::InProgress, true),
        (channels::GpadlState::Offered, false),
        (channels::GpadlState::Accepted, true),
        (channels::GpadlState::TearingDown, false),
    ] {
        let saved = Gpadl::save(GpadlId(40), ChannelId(3), &live_gpadl(state)).unwrap();
        let result = saved.restore(&channel, Ok(vec![9]));
        if allowed {
            assert_eq!(result.unwrap().state, state);
        } else {
            assert!(matches!(
                result,
                Err(RestoreError::GpadlForRevokedChannel(
                    GpadlId(40),
                    ChannelId(3)
                ))
            ));
        }
    }
}

#[test]
fn message_round_trip() {
    let live = channels::OutgoingMessage::from_message(&vec![1, 2, 3], 240).unwrap();
    let saved = OutgoingMessage::save(&live);
    assert_eq!(saved.0, vec![1, 2, 3]);
    assert_eq!(saved.restore(3).unwrap().data(), &vec![1, 2, 3]);
}

#[test]
fn message_too_large() {
    assert!(channels::OutgoingMessage::from_message(&vec![0; 241], 240).is_err());
    assert!(matches!(
        OutgoingMessage(vec![0; 241]).restore(240),
        Err(RestoreError::MessageTooLarge)
    ));
    assert!(OutgoingMessage(vec![0; 240]).restore(240).is_ok());
}

#[test]
fn errors_convert() {
    let offer = OfferError::InvalidChannelId(ChannelId(0));
    assert!(matches!(
        RestoreError::from(offer),
        RestoreError::Offer(OfferError::InvalidChannelId(ChannelId(0)))
    ));
    assert!(matches!(
        RestoreError::from(RangeError(anyhow::Error::msg("range"))),
        RestoreError::InvalidGpadl(_)
    ));
    match RestoreError::from(anyhow::Error::msg("server")) {
        RestoreError::ServerError(error) => assert_eq!(error.to_string(), "server"),
        other => panic!("{:?}", other),
    }
}
