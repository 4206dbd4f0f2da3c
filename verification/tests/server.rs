use std::collections::VecDeque;
use vm_devices::vmbus::channels;
use vm_devices::vmbus::channels::{
    ConnectionInfo, ConnectionState, MnfUsage, ModifyConnectionRequest, OfferError, OfferId,
    OfferParamsInternal, OfferedInfo, RestoreState,
};
use vm_devices::vmbus::protocol::{
    ChannelId, FeatureFlags, GpadlId, Guid, MonitorId, OfferKey, Protocol, Version, VersionInfo,
};
use vm_devices::vmbus::restore::{Notifier, ServerWithNotifier};
use vm_devices::vmbus::saved_data::{
    ConnectedState, DisconnectedState, SavedConnectionState, SavedState, SavedStateData,
};
use vm_devices::vmbus::saved_state;
use vm_devices::vmbus::saved_state::{RangeCheck, RangeError, RestoreError};
use vm_devices::vmbus::server::{RestoreOutcome, Server};

struct Recorder {
    requests: Vec<ModifyConnectionRequest>,
    refuse: bool,
}

impl Notifier for Recorder {
    fn modify_connection(
        &mut self,
        request: ModifyConnectionRequest,
    ) -> Result<(), anyhow::Error> {
        self.requests.push(request);
        if self.refuse {
            Err(anyhow::Error::msg("refused"))
        } else {
            Ok(())
        }
    }
}

fn recorder() -> Recorder {
    Recorder {
        requests: Vec::new(),
        refuse: false,
    }
}

const V4: Version = Version(0x0004_0000);

fn protocol() -> Protocol {
    Protocol {
        supported_versions: vec![Version(0xd), V4],
        supported_feature_flags: FeatureFlags(0b11),
        confidential_channels: FeatureFlags(0b1000),
        first_reserve_version: V4,
        max_message_size: 16,
    }
}

fn server() -> Server {
    Server::new(protocol(), 8)
}

fn show<T: std::fmt::Debug>(value: &T) -> String {
    format!("{:?}", value)
}

fn key(n: u16) -> OfferKey {
    OfferKey {
        interface_id: Guid(1),
        instance_id: Guid(2),
        subchannel_index: n,
    }
}

fn offer(n: u16, use_mnf: MnfUsage) -> OfferParamsInternal {
    OfferParamsInternal {
        interface_id: Guid(1),
        instance_id: Guid(2),
        subchannel_index: n,
        use_mnf,
    }
}

fn connection() -> ConnectionInfo {
    ConnectionInfo {
        version: VersionInfo {
            version: V4,
            feature_flags: FeatureFlags(1),
        },
        trusted: false,
        offers_sent: true,
        interrupt_page: None,
        monitor_page: None,
        target_message_vp: 6,
        modifying: false,
        client_id: Guid(77),
        paused: false,
    }
}

fn open_params() -> channels::OpenRequest {
    channels::OpenRequest {
        open_id: 1,
        ring_buffer_gpadl_id: GpadlId(30),
        target_vp: 0,
        downstream_ring_buffer_page_offset: 2,
        user_data: channels::UserDefinedData([3; 120]),
        guest_specified_interrupt_info: None,
        flags: channels::OpenChannelFlags(0),
    }
}

fn open_state(reserved: bool) -> channels::ChannelState {
    channels::ChannelState::Open {
        params: open_params(),
        modify_state: channels::ModifyState::NotModifying,
        reserved_state: if reserved {
            Some(channels::ReservedState {
                version: connection().version,
                target: channels::ConnectionTarget { vp: 1, sint: 2 },
            })
        } else {
            None
        },
    }
}

fn add(server: &mut Server, n: u16, id: u32, state: channels::ChannelState) -> OfferId {
    let offer_id = server.channels.offer(channels::Channel {
        info: Some(OfferedInfo {
            channel_id: ChannelId(id),
            connection_id: 0x1000 + id,
            monitor_id: None,
        }),
        offer: offer(n, MnfUsage::NoMnf),
        state,
        restore_state: RestoreState::New,
    });
    server.assigned_channels.check(ChannelId(id)).unwrap();
    server.assigned_channels.assign(ChannelId(id), offer_id);
    offer_id
}

fn add_gpadl(server: &mut Server, id: u32, offer_id: OfferId, state: channels::GpadlState) {
    let replaced = server.gpadls.insert(
        GpadlId(id),
        offer_id,
        channels::Gpadl {
            count: 1,
            buf: vec![0x1000, u64::from(id)],
            state,
        },
    );
    assert!(!replaced);
    if state == channels::GpadlState::InProgress {
        server.incomplete_gpadls.insert(id, offer_id);
    }
}

/// A connected server with an open, a closed, a revoked and a released channel.
fn busy_server() -> Server {
    let mut server = server();
    server.state = ConnectionState::Connected(connection());
    let open = add(&mut server, 1, 3, open_state(false));
    add(&mut server, 2, 1, channels::ChannelState::Closed);
    let revoked = add(&mut server, 3, 8, channels::ChannelState::Revoked);
    add(&mut server, 4, 2, channels::ChannelState::ClientReleased);
    add_gpadl(&mut server, 30, open, channels::GpadlState::Accepted);
    add_gpadl(&mut server, 31, open, channels::GpadlState::InProgress);
    add_gpadl(&mut server, 30, revoked, channels::GpadlState::Accepted);
    add_gpadl(&mut server, 32, open, channels::GpadlState::OfferedTearingDown);
    server
        .pending_messages
        .push_back(channels::OutgoingMessage::from_message(&vec![1, 2], 16).unwrap());
    server
        .pending_messages
        .push_back(channels::OutgoingMessage::from_message(&vec![3], 16).unwrap());
    server
}

fn ranges_of(saved: &SavedState) -> VecDeque<RangeCheck> {
    let data = SavedStateData::from(saved.clone());
    let (_, gpadls) = data.channels_and_gpadls();
    gpadls.iter().map(|gpadl| Ok(gpadl.buf.clone())).collect()
}

fn restore_into(
    server: &mut Server,
    notifier: &mut Recorder,
    saved: SavedState,
) -> Result<(), RestoreError> {
    let ranges = ranges_of(&saved);
    ServerWithNotifier {
        inner: server,
        notifier,
    }
    .restore(saved, ranges)
}

fn saved_channel(n: u16, id: u32) -> saved_state::Channel {
    saved_state::Channel {
        key: key(n),
        channel_id: id,
        offered_connection_id: 0x2000 + id,
        state: saved_state::ChannelState::Closed,
        monitor_id: None,
    }
}

fn saved_gpadl(id: u32, channel_id: u32, state: saved_state::GpadlState) -> saved_state::Gpadl {
    saved_state::Gpadl {
        id,
        channel_id,
        count: 1,
        buf: vec![5],
        state,
    }
}

fn connected(
    channels: Vec<saved_state::Channel>,
    gpadls: Vec<saved_state::Gpadl>,
    messages: Vec<saved_state::OutgoingMessage>,
) -> SavedState {
    let connection =
        saved_state::Connection::save(&ConnectionState::Connected(connection())).unwrap();
    SavedState::from(SavedStateData {
        state: SavedConnectionState::Connected(ConnectedState {
            connection,
            channels,
            gpadls,
        }),
        pending_messages: messages,
    })
}

#[test]
fn save_of_a_busy_server() {
    let saved = busy_server().save();
    let data = SavedStateData::from(saved);
    let (channels, gpadls) = data.channels_and_gpadls();
    let ids: Vec<u32> = channels.iter().map(|channel| channel.channel_id()).collect();
    assert_eq!(ids, vec![3, 1, 8]);
    let gpadl_ids: Vec<(u32, u32)> = gpadls.iter().map(|g| (g.id, g.channel_id)).collect();
    assert_eq!(gpadl_ids, vec![(30, 3), (31, 3), (30, 8)]);
    assert_eq!(data.pending_messages[0].0, vec![1, 2]);
    assert_eq!(data.pending_messages[1].0, vec![3]);
    assert!(matches!(data.state, SavedConnectionState::Connected(_)));
}

#[test]
fn save_has_exactly_one_half() {
    let (state, disconnected_state, _) = busy_server().save().into_stored();
    assert!(state.is_some());
    assert!(disconnected_state.is_none());
    let (state, disconnected_state, _) = server().save().into_stored();
    assert!(state.is_none());
    assert!(disconnected_state.is_some());
}

#[test]
fn save_while_disconnected_keeps_reserved_channels_only() {
    let mut server = server();
    add(&mut server, 1, 3, channels::ChannelState::Closed);
    let reserved = add(&mut server, 2, 4, open_state(true));
    add_gpadl(&mut server, 9, reserved, channels::GpadlState::Accepted);
    let saved = server.save();
    let data = SavedStateData::from(saved);
    let (channels, gpadls) = data.channels_and_gpadls();
    assert_eq!(channels.len(), 1);
    assert_eq!(channels[0].channel_id(), 4);
    assert_eq!(gpadls.len(), 1);
    assert_eq!(gpadls[0].id, 9);
}

#[test]
fn save_parts_agree_with_save() {
    let server = busy_server();
    assert_eq!(server.save_connected_state().unwrap().channels.len(), 3);
    assert!(server.save_disconnected_state().reserved_channels.is_empty());
    assert_eq!(server.save_gpadls().len(), 3);
    assert_eq!(server.save_pending_messages().len(), 2);
    assert!(Server::new(protocol(), 0).save_connected_state().is_none());
}

#[test]
fn restored_server_saves_the_same() {
    let saved = busy_server().save();
    let mut restored = server();
    let mut notifier = recorder();
    restore_into(&mut restored, &mut notifier, saved.clone()).unwrap();
    assert_eq!(show(&restored.save()), show(&saved));
    assert_eq!(notifier.requests.len(), 1);
    assert_eq!(notifier.requests[0].version, None);
    assert_eq!(notifier.requests[0].target_message_vp, Some(6));
    assert!(!notifier.requests[0].notify_relay);
    assert_eq!(restored.incomplete_gpadls.len(), 1);
    assert_eq!(
        restored.incomplete_gpadls.get(&31).copied(),
        restored.assigned_channels.get(ChannelId(3))
    );
    let revoked = restored.assigned_channels.get(ChannelId(8)).unwrap();
    let channel = restored.channels.get(revoked).unwrap();
    assert!(matches!(
        channel.state,
        channels::ChannelState::Reoffered
    ));
    assert_eq!(channel.restore_state, RestoreState::Unmatched);
    assert_eq!(restored.pending_messages[0].data(), &vec![1, 2]);
}

#[test]
fn restored_disconnected_server_saves_the_same() {
    let mut original = server();
    let reserved = add(&mut original, 2, 4, open_state(true));
    add_gpadl(&mut original, 9, reserved, channels::GpadlState::Accepted);
    let saved = original.save();
    let mut restored = server();
    restored.state = ConnectionState::Connected(connection());
    let mut notifier = recorder();
    restore_into(&mut restored, &mut notifier, saved.clone()).unwrap();
    assert!(matches!(restored.state, ConnectionState::Disconnected));
    assert!(notifier.requests.is_empty());
    assert_eq!(show(&restored.save()), show(&saved));
}

#[test]
fn restore_of_an_older_empty_state() {
    let saved = SavedState::from_stored(None, None, Vec::new());
    let data = SavedStateData::from(saved.clone());
    assert!(matches!(data.state, SavedConnectionState::Disconnected(_)));
    assert!(data.channels_and_gpadls().0.is_empty());
    assert!(data.channels_and_gpadls().1.is_empty());
    let mut restored = server();
    restore_into(&mut restored, &mut recorder(), saved).unwrap();
    assert_eq!(restored.channels.len(), 0);
}

#[test]
fn stored_connected_half_wins() {
    let (state, _, messages) = busy_server().save().into_stored();
    let both = SavedState::from_stored(state, Some(DisconnectedState::default()), messages);
    let data = SavedStateData::from(both);
    assert!(matches!(data.state, SavedConnectionState::Connected(_)));
    let again = SavedState::from(data);
    assert_eq!(show(&again), show(&busy_server().save()));
}

#[test]
fn find_channel_in_saved_state() {
    let data = SavedStateData::from(busy_server().save());
    assert_eq!(data.find_channel(key(2)).unwrap().channel_id(), 1);
    assert!(data.find_channel(key(4)).is_none());
    assert!(data.find_channel(key(9)).is_none());
}

#[test]
fn restore_on_top_of_an_offer() {
    let mut restored = server();
    let offer_id = restored.channels.offer(channels::Channel {
        info: None,
        offer: offer(1, MnfUsage::Relayed { monitor_id: 5 }),
        state: channels::ChannelState::ClientReleased,
        restore_state: RestoreState::New,
    });
    let other = restored.channels.offer(channels::Channel {
        info: None,
        offer: offer(2, MnfUsage::Normal),
        state: channels::ChannelState::ClientReleased,
        restore_state: RestoreState::New,
    });
    let untouched = show(&restored.channels.get(other).unwrap());
    let mut channel = saved_channel(1, 4);
    channel.monitor_id = Some(5);
    restore_into(
        &mut restored,
        &mut recorder(),
        connected(vec![channel], vec![], vec![]),
    )
    .unwrap();
    let channel = restored.channels.get(offer_id).unwrap();
    assert_eq!(channel.restore_state, RestoreState::Restoring);
    assert_eq!(
        channel.info,
        Some(OfferedInfo {
            channel_id: ChannelId(4),
            connection_id: 0x2004,
            monitor_id: Some(MonitorId(5)),
        })
    );
    assert_eq!(channel.offer.use_mnf, MnfUsage::Relayed { monitor_id: 5 });
    assert!(matches!(channel.state, channels::ChannelState::Closed));
    assert_eq!(
        restored.assigned_channels.get(ChannelId(4)),
        Some(offer_id)
    );
    assert_eq!(show(&restored.channels.get(other).unwrap()), untouched);
    assert_eq!(restored.channels.len(), 2);
}

#[test]
fn restore_with_another_monitor_id() {
    let mut restored = server();
    restored.channels.offer(channels::Channel {
        info: None,
        offer: offer(1, MnfUsage::Relayed { monitor_id: 5 }),
        state: channels::ChannelState::ClientReleased,
        restore_state: RestoreState::New,
    });
    let result = restored.restore_one_channel(saved_channel(1, 4));
    assert!(matches!(
        result,
        Err(RestoreError::MismatchedMonitorId(5, None))
    ));
    let mut channel = saved_channel(1, 4);
    channel.monitor_id = Some(6);
    assert!(matches!(
        restored.restore_one_channel(channel),
        Err(RestoreError::MismatchedMonitorId(5, Some(6)))
    ));
    assert!(restored.assigned_channels.get(ChannelId(4)).is_none());
}

#[test]
fn restore_of_a_channel_in_use() {
    let mut restored = server();
    add(&mut restored, 1, 2, channels::ChannelState::Closed);
    match restored.restore_one_channel(saved_channel(1, 4)) {
        Err(RestoreError::AlreadyRestored(found)) => assert_eq!(found, key(1)),
        other => panic!("{:?}", other),
    }
}

#[test]
fn duplicate_keys_and_ids_are_refused() {
    let mut restored = server();
    let result = restore_into(
        &mut restored,
        &mut recorder(),
        connected(vec![saved_channel(1, 1), saved_channel(1, 2)], vec![], vec![]),
    );
    assert!(matches!(result, Err(RestoreError::AlreadyRestored(_))));
    let mut restored = server();
    let result = restore_into(
        &mut restored,
        &mut recorder(),
        connected(vec![saved_channel(1, 1), saved_channel(2, 1)], vec![], vec![]),
    );
    assert!(matches!(
        result,
        Err(RestoreError::Offer(OfferError::ChannelIdInUse(ChannelId(1))))
    ));
}

#[test]
fn channel_id_out_of_range() {
    for id in [0, 9, u32::MAX] {
        let mut restored = server();
        match restored.restore_one_channel(saved_channel(1, id)) {
            Err(RestoreError::Offer(OfferError::InvalidChannelId(found))) => {
                assert_eq!(found, ChannelId(id))
            }
            other => panic!("{:?}", other),
        }
        assert_eq!(restored.channels.len(), 0);
    }
    assert!(server().restore_one_channel(saved_channel(1, 8)).is_ok());
}

#[test]
fn refused_connection_changes_nothing() {
    let mut info = connection();
    info.version.version = Version(0x0009_0000);
    let saved = SavedState::from(SavedStateData {
        state: SavedConnectionState::Connected(ConnectedState {
            connection: saved_state::Connection::save(&ConnectionState::Connected(info)).unwrap(),
            channels: vec![saved_channel(1, 1)],
            gpadls: vec![],
        }),
        pending_messages: vec![],
    });
    let mut restored = busy_server();
    let before = show(&restored);
    let mut notifier = recorder();
    assert!(matches!(
        restore_into(&mut restored, &mut notifier, saved),
        Err(RestoreError::UnsupportedVersion(0x0009_0000))
    ));
    assert_eq!(show(&restored), before);
    assert!(notifier.requests.is_empty());
}

#[test]
fn notifier_refusal_ends_the_restore() {
    let mut restored = server();
    let mut notifier = recorder();
    notifier.refuse = true;
    match restore_into(&mut restored, &mut notifier, busy_server().save()) {
        Err(RestoreError::ServerError(error)) => assert_eq!(error.to_string(), "refused"),
        other => panic!("{:?}", other),
    }
    assert!(matches!(restored.state, ConnectionState::Connected(_)));
    assert_eq!(restored.channels.len(), 0);
    assert_eq!(notifier.requests.len(), 1);
}

#[test]
fn gpadl_without_a_channel() {
    let mut restored = server();
    let missing = restored.restore_one_gpadl(
        saved_gpadl(30, 3, saved_state::GpadlState::Accepted),
        Ok(vec![5]),
    );
    assert!(matches!(
        missing,
        RestoreOutcome::Failed(RestoreError::MissingGpadlChannel(
            GpadlId(30),
            ChannelId(3)
        ))
    ));
    // A channel that is not part of the restore does not count.
    add(&mut restored, 1, 3, channels::ChannelState::Closed);
    let not_restored = restored.restore_one_gpadl(
        saved_gpadl(30, 3, saved_state::GpadlState::Accepted),
        Ok(vec![5]),
    );
    assert!(matches!(
        not_restored,
        RestoreOutcome::Failed(RestoreError::MissingGpadlChannel(_, _))
    ));
}

#[test]
fn gpadl_ids_are_per_channel() {
    let accepted = saved_state::GpadlState::Accepted;
    let mut restored = server();
    restored.restore_one_channel(saved_channel(1, 1)).unwrap();
    restored.restore_one_channel(saved_channel(2, 2)).unwrap();
    let outcome = restored.restore_one_gpadl(saved_gpadl(30, 1, accepted), Ok(vec![5]));
    assert!(matches!(outcome, RestoreOutcome::Done));
    let outcome = restored.restore_one_gpadl(saved_gpadl(30, 2, accepted), Ok(vec![6]));
    assert!(matches!(outcome, RestoreOutcome::Done));
    let outcome = restored.restore_one_gpadl(saved_gpadl(30, 1, accepted), Ok(vec![7]));
    assert!(matches!(
        outcome,
        RestoreOutcome::Failed(RestoreError::GpadlIdInUse(GpadlId(30), ChannelId(1)))
    ));
    // The entry was replaced all the same.
    assert_eq!(restored.gpadls.len(), 2);
    assert_eq!(restored.gpadls.entry(0).gpadl.buf, vec![7]);
    assert_eq!(restored.gpadls.entry(1).gpadl.buf, vec![6]);
}

#[test]
fn incomplete_gpadls_with_the_same_id() {
    let incomplete = saved_state::GpadlState::InProgress;
    let saved = connected(
        vec![saved_channel(1, 1), saved_channel(2, 2)],
        vec![saved_gpadl(30, 1, incomplete), saved_gpadl(30, 2, incomplete)],
        vec![],
    );
    let ranges = ranges_of(&saved);
    let mut restored = server();
    let mut notifier = recorder();
    let outcome = ServerWithNotifier {
        inner: &mut restored,
        notifier: &mut notifier,
    }
    .try_restore(saved, ranges);
    assert!(matches!(
        outcome,
        RestoreOutcome::DuplicateIncompleteGpadl(GpadlId(30), ChannelId(2))
    ));
}

#[test]
fn try_restore_agrees_with_restore() {
    let saved = busy_server().save();
    let ranges = ranges_of(&saved);
    let mut restored = server();
    let mut notifier = recorder();
    let outcome = ServerWithNotifier {
        inner: &mut restored,
        notifier: &mut notifier,
    }
    .try_restore(saved.clone(), ranges);
    assert!(matches!(outcome, RestoreOutcome::Done));
    assert_eq!(show(&restored.save()), show(&saved));
}

#[test]
fn invalid_range_stops_the_restore() {
    let saved = connected(
        vec![saved_channel(1, 1)],
        vec![
            saved_gpadl(30, 1, saved_state::GpadlState::Accepted),
            saved_gpadl(31, 1, saved_state::GpadlState::Accepted),
        ],
        vec![],
    );
    let mut ranges: VecDeque<RangeCheck> = VecDeque::new();
    ranges.push_back(Ok(vec![5]));
    ranges.push_back(Err(RangeError(anyhow::Error::msg("empty range"))));
    let mut restored = server();
    let mut notifier = recorder();
    let result = ServerWithNotifier {
        inner: &mut restored,
        notifier: &mut notifier,
    }
    .restore(saved, ranges);
    assert!(matches!(result, Err(RestoreError::InvalidGpadl(_))));
    assert_eq!(restored.gpadls.len(), 1);
}

#[test]
fn offered_gpadl_of_a_revoked_channel_is_refused() {
    let mut channel = saved_channel(1, 1);
    channel.state = saved_state::ChannelState::Revoked;
    let result = restore_into(
        &mut server(),
        &mut recorder(),
        connected(
            vec![channel],
            vec![saved_gpadl(30, 1, saved_state::GpadlState::Offered)],
            vec![],
        ),
    );
    assert!(matches!(
        result,
        Err(RestoreError::GpadlForRevokedChannel(
            GpadlId(30),
            ChannelId(1)
        ))
    ));
}

#[test]
fn messages_follow_those_that_are_there() {
    let mut restored = server();
    restored
        .pending_messages
        .push_back(channels::OutgoingMessage::from_message(&vec![9], 16).unwrap());
    restore_into(
        &mut restored,
        &mut recorder(),
        connected(
            vec![],
            vec![],
            vec![
                saved_state::OutgoingMessage(vec![1]),
                saved_state::OutgoingMessage(vec![2]),
            ],
        ),
    )
    .unwrap();
    let messages: Vec<&Vec<u8>> = restored
        .pending_messages
        .iter()
        .map(|message| message.data())
        .collect();
    assert_eq!(messages, vec![&vec![9], &vec![1], &vec![2]]);
}

#[test]
fn large_message_is_refused() {
    let mut restored = server();
    let result = restore_into(
        &mut restored,
        &mut recorder(),
        connected(
            vec![],
            vec![],
            vec![
                saved_state::OutgoingMessage(vec![0; 16]),
                saved_state::OutgoingMessage(vec![0; 17]),
            ],
        ),
    );
    assert!(matches!(result, Err(RestoreError::MessageTooLarge)));
    assert_eq!(restored.pending_messages.len(), 1);
}

#[test]
fn stand_ins_get_the_next_slot() {
    let mut list = server_with_one_channel();
    let channel = list.channels.get(OfferId(0)).unwrap();
    assert_eq!(channel.offer.key(), key(1));
    list.restore_one_channel(saved_channel(2, 2)).unwrap();
    assert_eq!(list.channels.len(), 2);
    assert_eq!(
        list.assigned_channels.get(ChannelId(2)),
        Some(OfferId(1))
    );
    assert!(list.channels.get(OfferId(2)).is_none());
    assert_eq!(list.channels.get_by_key(&key(2)).unwrap().0, OfferId(1));
    assert!(list.channels.get_by_key(&key(7)).is_none());
}

fn server_with_one_channel() -> Server {
    let mut restored = server();
    restored.restore_one_channel(saved_channel(1, 1)).unwrap();
    restored
}

#[test]
fn well_formed_tables() {
    assert!(server().is_well_formed());
    assert!(busy_server().is_well_formed());
    let mut dangling = server();
    dangling.assigned_channels.assign(ChannelId(1), OfferId(0));
    assert!(!dangling.is_well_formed());
    let mut orphaned = server();
    add_gpadl(
        &mut orphaned,
        30,
        OfferId(5),
        channels::GpadlState::Accepted,
    );
    assert!(!orphaned.is_well_formed());
}

#[test]
fn second_restore_is_refused() {
    let saved = busy_server().save();
    let mut restored = server();
    restore_into(&mut restored, &mut recorder(), saved.clone()).unwrap();
    let before = show(&restored);
    match restore_into(&mut restored, &mut recorder(), saved) {
        Err(RestoreError::AlreadyRestored(found)) => assert_eq!(found, key(1)),
        other => panic!("{:?}", other),
    }
    assert_eq!(show(&restored), before);
}

#[test]
fn restore_onto_offers_saves_the_same_up_to_order() {
    let saved = busy_server().save();
    let mut restored = server();
    for n in [3, 9, 2] {
        restored.channels.offer(channels::Channel {
            info: None,
            offer: offer(n, MnfUsage::Normal),
            state: channels::ChannelState::ClientReleased,
            restore_state: RestoreState::New,
        });
    }
    restore_into(&mut restored, &mut recorder(), saved.clone()).unwrap();
    let state_of = |n: u16| restored.channels.get_by_key(&key(n)).unwrap().1.restore_state;
    assert_eq!(state_of(1), RestoreState::Unmatched);
    assert_eq!(state_of(2), RestoreState::Restoring);
    assert_eq!(state_of(3), RestoreState::Restoring);
    assert_eq!(state_of(9), RestoreState::New);
    let first = SavedStateData::from(saved);
    let second = SavedStateData::from(restored.save());
    let sorted = |data: &SavedStateData| {
        let mut shown: Vec<String> = data.channels_and_gpadls().0.iter().map(show).collect();
        shown.sort();
        shown
    };
    assert_eq!(sorted(&first), sorted(&second));
    assert_eq!(
        show(&first.channels_and_gpadls().1),
        show(&second.channels_and_gpadls().1)
    );
    assert_eq!(
        show(&first.pending_messages),
        show(&second.pending_messages)
    );
    let order = |data: &SavedStateData| -> Vec<u32> {
        let (channels, _) = data.channels_and_gpadls();
        channels.iter().map(|channel| channel.channel_id()).collect()
    };
    assert_eq!(order(&first), vec![3, 1, 8]);
    assert_eq!(order(&second), vec![8, 1, 3]);
}

#[test]
fn refusing_notifier_hides_duplicate_gpadls() {
    let incomplete = saved_state::GpadlState::InProgress;
    let saved = connected(
        vec![saved_channel(1, 1), saved_channel(2, 2)],
        vec![saved_gpadl(30, 1, incomplete), saved_gpadl(30, 2, incomplete)],
        vec![],
    );
    let ranges = ranges_of(&saved);
    let mut restored = server();
    let mut notifier = recorder();
    notifier.refuse = true;
    let outcome = ServerWithNotifier {
        inner: &mut restored,
        notifier: &mut notifier,
    }
    .try_restore(saved, ranges);
    assert!(matches!(
        outcome,
        RestoreOutcome::Failed(RestoreError::ServerError(_))
    ));
}

#[test]
fn validated_buffers_are_saved_again() {
    let saved = connected(
        vec![saved_channel(1, 1)],
        vec![
            saved_gpadl(30, 1, saved_state::GpadlState::Accepted),
            saved_gpadl(31, 1, saved_state::GpadlState::InProgress),
        ],
        vec![],
    );
    let mut ranges: VecDeque<RangeCheck> = VecDeque::new();
    ranges.push_back(Ok(vec![6, 7]));
    ranges.push_back(Ok(vec![8]));
    let mut restored = server();
    let mut notifier = recorder();
    ServerWithNotifier {
        inner: &mut restored,
        notifier: &mut notifier,
    }
    .restore(saved, ranges)
    .unwrap();
    let again = restored.save_gpadls();
    assert_eq!(again[0].buf, vec![6, 7]);
    assert_eq!(again[1].buf, vec![5]);
}
