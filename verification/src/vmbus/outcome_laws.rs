//! How the restore of each part of a saved state ends, in terms of what the server has and what is
//! saved.

use super::channels;
use super::channels::{ConnectionState, MnfUsage, ModifyConnectionRequest, OfferError, OfferId};
use super::channels::RestoreState;
use super::protocol::{ChannelId, GpadlId, MonitorId};
use super::restore::Notifier;
use super::saved_data::SavedStateView;
use super::saved_state::{Channel, GpadlView, RangeCheck, RangeError, RestoreError};
use super::server::{RestoreOutcome, Restored, ServerView};
use super::tables::GpadlEntryView;
use vstd::prelude::*;

verus! {

/// What a restore that has ended leaves, and how it ended.
pub proof fn law_ends(server: ServerView, error: RestoreError)
    ensures
        server.done().server == server,
        server.done().outcome is Done,
        server.failed(error).server == server,
        server.failed(error).outcome == RestoreOutcome::Failed(error),
{
}

/// A saved channel for which there is an offer, the first with its key being in slot `k`: it is
/// refused if its state is; if the guest knows of the offer or a restore has touched it; if the
/// offer comes with another monitor ID; if its ID is none, or is in use; in this order, and the
/// server stays as it is. Else the offer takes on what is saved, and the ID leads to it. Nothing
/// else changes.
pub proof fn law_channel_on_offer(
    server: ServerView,
    saved: Channel,
    k: int,
    offered: channels::Channel,
)
    requires
        0 <= k < server.channels.len(),
        server.channels[k] == Some(offered),
        offered.offer.interface_id == saved.key.interface_id,
        offered.offer.instance_id == saved.key.instance_id,
        offered.offer.subchannel_index == saved.key.subchannel_index,
        forall|j: int|
            0 <= j < k ==> (#[trigger] server.channels[j] matches Some(other)
                ==> other.offer.interface_id != saved.key.interface_id || other.offer.instance_id
                != saved.key.instance_id || other.offer.subchannel_index
                != saved.key.subchannel_index),
    ensures
        ({
            let after = server.restore_channel(saved).server;
            let id = saved.channel_id;
            let free = offered.state is ClientReleased && offered.restore_state
                == RestoreState::New;
            let mismatched = offered.offer.use_mnf matches MnfUsage::Relayed { monitor_id }
                && saved.monitor_id != Some(monitor_id);
            let in_range = 1 <= id <= server.assigned.len();
            let refused = match saved.state.spec_restore(server.protocol) {
                Err(error) => Some(error),
                Ok(_) => if !free {
                    Some(RestoreError::AlreadyRestored(saved.key))
                } else if mismatched {
                    Some(
                        RestoreError::MismatchedMonitorId(
                            offered.offer.use_mnf->monitor_id,
                            saved.monitor_id,
                        ),
                    )
                } else if !in_range {
                    Some(RestoreError::Offer(OfferError::InvalidChannelId(ChannelId(id))))
                } else if server.assigned[id - 1] is Some {
                    Some(RestoreError::Offer(OfferError::ChannelIdInUse(ChannelId(id))))
                } else {
                    None
                },
            };
            match refused {
                Some(error) => {
                    &&& server.restore_channel(saved).outcome == RestoreOutcome::Failed(error)
                    &&& after == server
                },
                None => {
                    &&& server.restore_channel(saved).outcome is Done
                    &&& after.channels.len() == server.channels.len()
                    &&& forall|j: int|
                        0 <= j < server.channels.len() && j != k ==> #[trigger] after.channels[j]
                            == server.channels[j]
                    &&& after.channels[k] matches Some(channel)
                    &&& channel.offer == offered.offer
                    &&& channel.restore_state == RestoreState::Restoring
                    &&& saved.state.spec_restore(server.protocol) == Ok::<_, RestoreError>(
                        channel.state,
                    )
                    &&& channel.info matches Some(info)
                    &&& info.channel_id == ChannelId(id)
                    &&& info.connection_id == saved.offered_connection_id
                    &&& info.monitor_id is Some <==> saved.monitor_id is Some
                    &&& saved.monitor_id matches Some(m) ==> info.monitor_id == Some(MonitorId(m))
                    &&& after.assigned == server.assigned.update(
                        id - 1,
                        Some(OfferId(k as usize)),
                    )
                    &&& after.protocol == server.protocol
                    &&& after.state == server.state
                    &&& after.gpadls == server.gpadls
                    &&& after.incomplete == server.incomplete
                    &&& after.pending_messages == server.pending_messages
                },
            }
        }),
{
    let p = crate::vmbus::tables::offers_key(saved.key);
    assert(p(server.channels[k]));
    assert forall|j: int| 0 <= j < k implies !p(#[trigger] server.channels[j]) by {
        if let Some(other) = server.channels[j] {
        }
    }
    crate::vmbus::search::lemma_first_is(server.channels, p, k);
}

/// A saved channel for which there is no offer: it is refused if its state is, if its ID is none, or
/// is in use, in this order, and the server stays as it is. Else a stand-in that has its key, and
/// nothing else of an offer, takes on what is saved in slot `m`, which was the first free one or is
/// new, and the ID leads to it. Nothing else changes.
pub proof fn law_channel_without_offer(server: ServerView, saved: Channel, m: int)
    requires
        forall|j: int|
            0 <= j < server.channels.len() ==> (#[trigger] server.channels[j] matches Some(other)
                ==> other.offer.interface_id != saved.key.interface_id || other.offer.instance_id
                != saved.key.instance_id || other.offer.subchannel_index
                != saved.key.subchannel_index),
        0 <= m <= server.channels.len(),
        m < server.channels.len() ==> server.channels[m] is None,
        forall|j: int| 0 <= j < m ==> #[trigger] server.channels[j] is Some,
    ensures
        ({
            let after = server.restore_channel(saved).server;
            let id = saved.channel_id;
            let in_range = 1 <= id <= server.assigned.len();
            let refused = match saved.state.spec_restore(server.protocol) {
                Err(error) => Some(error),
                Ok(_) => if !in_range {
                    Some(RestoreError::Offer(OfferError::InvalidChannelId(ChannelId(id))))
                } else if server.assigned[id - 1] is Some {
                    Some(RestoreError::Offer(OfferError::ChannelIdInUse(ChannelId(id))))
                } else {
                    None
                },
            };
            match refused {
                Some(error) => {
                    &&& server.restore_channel(saved).outcome == RestoreOutcome::Failed(error)
                    &&& after == server
                },
                None => {
                    &&& server.restore_channel(saved).outcome is Done
                    &&& after.channels.len() == (if m < server.channels.len() {
                        server.channels.len()
                    } else {
                        server.channels.len() + 1
                    })
                    &&& forall|j: int|
                        0 <= j < server.channels.len() && j != m ==> #[trigger] after.channels[j]
                            == server.channels[j]
                    &&& after.channels[m] matches Some(channel)
                    &&& channel.offer.interface_id == saved.key.interface_id
                    &&& channel.offer.instance_id == saved.key.instance_id
                    &&& channel.offer.subchannel_index == saved.key.subchannel_index
                    &&& channel.offer.use_mnf == MnfUsage::NoMnf
                    &&& channel.restore_state == RestoreState::Unmatched
                    &&& saved.state.spec_restore(server.protocol) == Ok::<_, RestoreError>(
                        channel.state,
                    )
                    &&& channel.info matches Some(info)
                    &&& info.channel_id == ChannelId(id)
                    &&& info.connection_id == saved.offered_connection_id
                    &&& info.monitor_id is Some <==> saved.monitor_id is Some
                    &&& saved.monitor_id matches Some(x) ==> info.monitor_id == Some(MonitorId(x))
                    &&& after.assigned == server.assigned.update(
                        id - 1,
                        Some(OfferId(m as usize)),
                    )
                    &&& after.protocol == server.protocol
                    &&& after.state == server.state
                    &&& after.gpadls == server.gpadls
                    &&& after.incomplete == server.incomplete
                    &&& after.pending_messages == server.pending_messages
                },
            }
        }),
{
    let p = crate::vmbus::tables::offers_key(saved.key);
    assert forall|j: int| 0 <= j < server.channels.len() implies !p(
        #[trigger] server.channels[j],
    ) by {
        if let Some(other) = server.channels[j] {
        }
    }
    crate::vmbus::search::lemma_first_none(server.channels, p);
    let free = crate::vmbus::tables::is_free();
    if m < server.channels.len() {
        crate::vmbus::search::lemma_first_is(server.channels, free, m);
    } else {
        crate::vmbus::search::lemma_first_none(server.channels, free);
    }
}

/// A saved GPADL whose channel ID is none, leads to nothing, or leads to a channel that is not part
/// of a restore or that the guest has released, is refused, and the server stays as it is.
pub proof fn law_gpadl_without_channel(
    server: ServerView,
    saved: GpadlView,
    range: Result<Seq<u64>, RangeError>,
)
    requires
        ({
            let id = saved.channel_id;
            ||| id == 0
            ||| id > server.assigned.len()
            ||| server.assigned[id - 1] is None
            ||| {
                let channel = server.channels[server.assigned[id - 1].unwrap().0 as int].unwrap();
                ||| channel.restore_state == RestoreState::New
                ||| channel.state is ClientReleased
                ||| channel.state is ClosingClientRelease
                ||| channel.state is OpeningClientRelease
            }
        }),
    ensures
        server.restore_gpadl(saved, range).server == server,
        server.restore_gpadl(saved, range).outcome == RestoreOutcome::Failed(
            RestoreError::MissingGpadlChannel(GpadlId(saved.id), ChannelId(saved.channel_id)),
        ),
{
}

/// A saved GPADL whose channel ID leads to a channel that is part of a restore and that the guest
/// has not released: if it is refused for that channel, the server stays as it is. Else it is there
/// under its ID and that channel. If one was there already it is in its place, and this is an
/// error. While it is incomplete its ID leads to the channel too; if the ID led to another already,
/// the restore ends there. Nothing else changes.
pub proof fn law_gpadl_of_channel(
    server: ServerView,
    saved: GpadlView,
    range: Result<Seq<u64>, RangeError>,
    offer_id: OfferId,
    channel: channels::Channel,
)
    requires
        1 <= saved.channel_id <= server.assigned.len(),
        server.assigned[saved.channel_id - 1] == Some(offer_id),
        server.channels[offer_id.0 as int] == Some(channel),
        channel.restore_state != RestoreState::New,
        !(channel.state is ClientReleased),
        !(channel.state is ClosingClientRelease),
        !(channel.state is OpeningClientRelease),
    ensures
        ({
            let restored = server.restore_gpadl(saved, range);
            let after = restored.server;
            let there = exists|i: int|
                0 <= i < server.gpadls.len() && (#[trigger] server.gpadls[i]).gpadl_id == GpadlId(
                    saved.id,
                ) && server.gpadls[i].offer_id == offer_id;
            match saved.spec_restore(channel, range) {
                Err(error) => restored.outcome == RestoreOutcome::Failed(error) && after == server,
                Ok(gpadl) => {
                    let entry = GpadlEntryView { gpadl_id: GpadlId(saved.id), offer_id, gpadl };
                    &&& after.gpadls == crate::vmbus::tables::with_entry(server.gpadls, entry)
                    &&& after.gpadls.contains(entry)
                    &&& there ==> {
                        &&& restored.outcome == RestoreOutcome::Failed(
                            RestoreError::GpadlIdInUse(
                                GpadlId(saved.id),
                                ChannelId(saved.channel_id),
                            ),
                        )
                        &&& after.incomplete == server.incomplete
                    }
                    &&& !there ==> after.gpadls == server.gpadls.push(entry)
                    &&& !there && !(saved.state is InProgress) ==> restored.outcome is Done
                        && after.incomplete == server.incomplete
                    &&& !there && saved.state is InProgress ==> {
                        &&& after.incomplete == server.incomplete.insert(saved.id, offer_id)
                        &&& !server.incomplete.contains_key(saved.id) ==> restored.outcome is Done
                        &&& server.incomplete.contains_key(saved.id) ==> restored.outcome
                            == RestoreOutcome::DuplicateIncompleteGpadl(
                            GpadlId(saved.id),
                            ChannelId(saved.channel_id),
                        )
                    }
                    &&& after.protocol == server.protocol
                    &&& after.state == server.state
                    &&& after.channels == server.channels
                    &&& after.assigned == server.assigned
                    &&& after.pending_messages == server.pending_messages
                },
            }
        }),
{
    if let Ok(gpadl) = saved.spec_restore(channel, range) {
        crate::vmbus::table_laws::law_gpadl_entries(
            server.gpadls,
            GpadlEntryView { gpadl_id: GpadlId(saved.id), offer_id, gpadl },
        );
    }
}

/// A message goes behind those that are there, unless it is longer than the protocol allows.
pub proof fn law_message_outcome(server: ServerView, message: Seq<u8>)
    ensures
        message.len() > server.protocol.max_message_size ==> {
            &&& server.restore_message(message).server == server
            &&& server.restore_message(message).outcome == RestoreOutcome::Failed(
                RestoreError::MessageTooLarge,
            )
        },
        message.len() <= server.protocol.max_message_size ==> {
            let after = server.restore_message(message).server;
            &&& server.restore_message(message).outcome is Done
            &&& after == ServerView { pending_messages: after.pending_messages, ..server }
            &&& after.pending_messages == server.pending_messages.push(message)
        },
{
}

/// Channels are restored one after the other, up to the first that is refused.
pub proof fn law_channels_in_turn(server: ServerView, saved: Seq<Channel>, next: Channel)
    ensures
        server.restore_channels(Seq::empty()) == (Restored {
            server,
            outcome: RestoreOutcome::Done,
        }),
        server.restore_channels(saved).outcome is Done ==> server.restore_channels(saved.push(next))
            == server.restore_channels(saved).server.restore_channel(next),
        !(server.restore_channels(saved).outcome is Done) ==> server.restore_channels(
            saved.push(next),
        ) == server.restore_channels(saved),
{
    assert(saved.push(next).drop_last() =~= saved);
}

/// GPADLs are restored one after the other, each with the result of its own validation, up to the
/// first that is refused.
pub proof fn law_gpadls_in_turn(
    server: ServerView,
    saved: Seq<GpadlView>,
    next: GpadlView,
    ranges: Seq<Result<Seq<u64>, RangeError>>,
)
    requires
        saved.len() < ranges.len(),
    ensures
        server.restore_gpadls(Seq::empty(), ranges) == (Restored {
            server,
            outcome: RestoreOutcome::Done,
        }),
        server.restore_gpadls(saved, ranges).outcome is Done ==> server.restore_gpadls(
            saved.push(next),
            ranges,
        ) == server.restore_gpadls(saved, ranges).server.restore_gpadl(
            next,
            ranges[saved.len() as int],
        ),
        !(server.restore_gpadls(saved, ranges).outcome is Done) ==> server.restore_gpadls(
            saved.push(next),
            ranges,
        ) == server.restore_gpadls(saved, ranges),
{
    assert(saved.push(next).drop_last() =~= saved);
}

/// Messages are restored one after the other, up to the first that is refused.
pub proof fn law_messages_in_turn(server: ServerView, saved: Seq<Seq<u8>>, next: Seq<u8>)
    ensures
        server.restore_messages(Seq::empty()) == (Restored {
            server,
            outcome: RestoreOutcome::Done,
        }),
        server.restore_messages(saved).outcome is Done ==> server.restore_messages(saved.push(next))
            == server.restore_messages(saved).server.restore_message(next),
        !(server.restore_messages(saved).outcome is Done) ==> server.restore_messages(
            saved.push(next),
        ) == server.restore_messages(saved),
{
    assert(saved.push(next).drop_last() =~= saved);
}

/// The connection of a saved state takes the place of the server's. If it is refused, that is the
/// error; without one, the server is disconnected. Nothing else changes.
pub proof fn law_connection_outcome(server: ServerView, saved: SavedStateView)
    ensures
        match (saved.state.connection, server.restore_state(saved.state)) {
            (None, Ok(after)) => {
                &&& after.state is Disconnected
                &&& after == ServerView { state: after.state, ..server }
            },
            (Some(connection), Ok(after)) => {
                &&& connection.spec_restore(server.protocol) == Ok::<_, RestoreError>(after.state)
                &&& after == ServerView { state: after.state, ..server }
            },
            (Some(connection), Err(error)) => connection.spec_restore(server.protocol) == Err::<
                ConnectionState,
                _,
            >(error),
            _ => false,
        },
        server.restore_request(saved.state) == (match server.restore_state(saved.state) {
            Ok(after) => after.state.spec_restore_request(),
            Err(_) => None,
        }),
{
}

/// A restore takes the connection, then asks the notifier, then takes the channels, the GPADLs and
/// the messages. What fails first is how it ends, and nothing after that is taken.
pub proof fn law_restore_order(
    server: ServerView,
    reply: Result<(), anyhow::Error>,
    saved: SavedStateView,
    ranges: Seq<Result<Seq<u64>, RangeError>>,
)
    ensures
        match (server.restore_state(saved.state), reply) {
            (Err(error), _) => server.restore(reply, saved, ranges) == (Restored {
                server,
                outcome: RestoreOutcome::Failed(error),
            }),
            (Ok(connected), Err(error)) => server.restore(reply, saved, ranges) == (Restored {
                server: connected,
                outcome: RestoreOutcome::Failed(RestoreError::ServerError(error)),
            }),
            (Ok(connected), Ok(_)) => {
                let channels = connected.restore_channels(saved.state.channels);
                let gpadls = channels.server.restore_gpadls(saved.state.gpadls, ranges);
                let messages = gpadls.server.restore_messages(saved.pending_messages);
                server.restore(reply, saved, ranges) == (if !(channels.outcome is Done) {
                    channels
                } else if !(gpadls.outcome is Done) {
                    gpadls
                } else {
                    messages
                })
            },
        },
{
}

/// The parts of a restore after the connection.
pub proof fn law_contents_order(
    connected: ServerView,
    reply: Result<(), anyhow::Error>,
    saved: SavedStateView,
    ranges: Seq<Result<Seq<u64>, RangeError>>,
)
    ensures
        ({
            let channels = connected.restore_channels(saved.state.channels);
            let gpadls = channels.server.restore_gpadls(saved.state.gpadls, ranges);
            let messages = gpadls.server.restore_messages(saved.pending_messages);
            connected.restore_contents(saved, ranges) == (if !(channels.outcome is Done) {
                channels
            } else if !(gpadls.outcome is Done) {
                gpadls
            } else {
                messages
            })
        }),
        reply is Ok ==> connected.finish_restore(reply, saved, ranges)
            == connected.restore_contents(saved, ranges),
        reply matches Err(error) ==> connected.finish_restore(reply, saved, ranges) == (Restored {
            server: connected,
            outcome: RestoreOutcome::Failed(RestoreError::ServerError(error)),
        }),
{
}

/// Where there is a request, the notifier is asked for it, and its answer is the reply. Where there
/// is none, the notifier stays as it is, and the reply is that all is in order.
pub proof fn law_notifier_is_asked<N: Notifier>(
    before: N,
    request: Option<ModifyConnectionRequest>,
    after: N,
    reply: Result<(), anyhow::Error>,
)
    requires
        crate::vmbus::restore::answered(before, request, after, reply),
    ensures
        request matches Some(asked) ==> N::may_modify_connection(before, asked, after, reply),
        request is None ==> before == after && reply == Ok::<(), anyhow::Error>(()),
{
}

/// The model of a range check has what the check has.
pub proof fn law_range_model(check: RangeCheck)
    ensures
        match (check, crate::vmbus::saved_state::range_view(check)) {
            (Ok(buf), Ok(model)) => model == buf@,
            (Err(error), Err(model)) => model == error,
            _ => false,
        },
{
}

/// The models of range checks have what these have, each in its place.
pub proof fn law_range_models(checks: Seq<RangeCheck>)
    ensures
        crate::vmbus::restore::range_views(checks).len() == checks.len(),
        forall|i: int|
            #![trigger checks[i]]
            0 <= i < checks.len() ==> match (
                checks[i],
                crate::vmbus::restore::range_views(checks)[i],
            ) {
                (Ok(buf), Ok(model)) => model == buf@,
                (Err(error), Err(model)) => model == error,
                _ => false,
            },
{
}

} // verus!
