//! What holds of a restore into any server, whatever it has been offered.

use super::channels;
use super::channels::{MnfUsage, OfferId, RestoreState};
use super::protocol::{ChannelId, GpadlId, MonitorId, OfferKey};
use super::saved_data::SavedStateView;
use super::saved_state::{Channel, GpadlView, RangeError, RestoreError};
use super::server::ServerView;
use vstd::prelude::*;

verus! {

/// `server` has the saved channel in slot `k`: that is the offer with its key, the guest was told
/// of it what is saved, its state is the saved one, and its ID leads to it. If it was `offered`,
/// its device has yet to restore it; if not, a stand-in was made for it.
pub open spec fn has_channel_at(
    server: ServerView,
    saved: Channel,
    offered: bool,
    k: int,
) -> bool {
    &&& crate::vmbus::search::first_where(
        server.channels,
        crate::vmbus::tables::offers_key(saved.key),
    ) == Some(k)
    &&& 0 <= k < server.channels.len()
    &&& server.channels[k] matches Some(channel)
    &&& channel.offer.spec_key() == saved.key
    &&& channel.info == Some(saved.spec_info())
    &&& saved.state.spec_restore(server.protocol) == Ok::<_, RestoreError>(channel.state)
    &&& channel.restore_state == (if offered {
        RestoreState::Restoring
    } else {
        RestoreState::Unmatched
    })
    &&& crate::vmbus::tables::assigned_to(server.assigned, ChannelId(saved.channel_id)) == Some(
        OfferId(k as usize),
    )
}

/// `server` has the saved channel, which was `offered` or not.
pub open spec fn has_channel(server: ServerView, saved: Channel, offered: bool) -> bool {
    exists|k: int| has_channel_at(server, saved, offered, k)
}

/// `server` has an offer with the key.
pub open spec fn offers(server: ServerView, key: OfferKey) -> bool {
    crate::vmbus::search::first_where(
        server.channels,
        crate::vmbus::tables::offers_key(key),
    ) is Some
}

/// What a saved channel makes of the offer in slot `k` of `server`, or of that slot if it is free:
/// a stand-in.
pub open spec fn placed_channel(server: ServerView, saved: Channel, k: int) -> channels::Channel {
    let claimed = k < server.channels.len() && server.channels[k] is Some;
    channels::Channel {
        info: Some(saved.spec_info()),
        offer: if claimed {
            server.channels[k].unwrap().offer
        } else {
            saved.spec_stub_offer()
        },
        state: saved.state.spec_restore(server.protocol).unwrap(),
        restore_state: if claimed {
            RestoreState::Restoring
        } else {
            RestoreState::Unmatched
        },
    }
}

/// No saved channel has the key of an offer.
pub open spec fn not_saved(channel: channels::Channel, saved: Seq<Channel>) -> bool {
    forall|i: int| 0 <= i < saved.len() ==> (#[trigger] saved[i]).key != channel.offer.spec_key()
}

/// The first element that meets `p` stays where it is if a place changes at which `p` is met
/// neither before nor after.
proof fn lemma_first_stays<A>(s: Seq<A>, t: Seq<A>, p: spec_fn(A) -> bool, m: int)
    requires
        s.len() <= t.len() <= s.len() + 1,
        0 <= m < t.len(),
        m < s.len() ==> !p(s[m]) && t.len() == s.len(),
        !p(t[m]),
        forall|i: int| 0 <= i < s.len() && i != m ==> s[i] == #[trigger] t[i],
        t.len() > s.len() ==> m == s.len(),
    ensures
        crate::vmbus::search::first_where(t, p) == crate::vmbus::search::first_where(s, p),
{
    crate::vmbus::search::lemma_first_where(s, p);
    match crate::vmbus::search::first_where(s, p) {
        Some(i) => {
            assert(t[i] == s[i]);
            assert forall|j: int| 0 <= j < i implies !p(#[trigger] t[j]) by {
                assert(!p(s[j]));
            }
            crate::vmbus::search::lemma_first_is(t, p, i);
        },
        None => {
            assert forall|j: int| 0 <= j < t.len() implies !p(#[trigger] t[j]) by {
                if j != m {
                    assert(!p(s[j]));
                }
            }
            crate::vmbus::search::lemma_first_none(t, p);
        },
    }
}

/// What the restore of one channel changes: the slot of its offer, which it returns, and its ID.
pub proof fn lemma_one_channel(server: ServerView, saved: Channel) -> (m: int)
    requires
        server.restore_channel(saved).outcome is Done,
    ensures
        ({
            let after = server.restore_channel(saved).server;
            &&& has_channel_at(after, saved, offers(server, saved.key), m)
            &&& after.channels[m] == Some(placed_channel(server, saved, m))
            &&& server.channels.len() <= after.channels.len() <= server.channels.len() + 1
            &&& after.channels.len() > server.channels.len() ==> m == server.channels.len()
            &&& m < server.channels.len() && server.channels[m] is Some
                ==> server.channels[m].unwrap().offer == after.channels[m].unwrap().offer
                && server.channels[m].unwrap().restore_state == RestoreState::New
                && crate::vmbus::search::first_where(
                server.channels,
                crate::vmbus::tables::offers_key(saved.key),
            ) == Some(m)
            &&& !(m < server.channels.len() && server.channels[m] is Some)
                ==> crate::vmbus::search::first_where(
                server.channels,
                crate::vmbus::tables::offers_key(saved.key),
            ) is None
            &&& forall|i: int|
                0 <= i < server.channels.len() && i != m ==> server.channels[i]
                    == #[trigger] after.channels[i]
            &&& 1 <= saved.channel_id <= server.assigned.len()
            &&& server.assigned[saved.channel_id - 1] is None
            &&& after.assigned == server.assigned.update(
                saved.channel_id - 1,
                Some(OfferId(m as usize)),
            )
            &&& after == ServerView {
                channels: after.channels,
                assigned: after.assigned,
                ..server
            }
        }),
{
    let after = server.restore_channel(saved).server;
    let p = crate::vmbus::tables::offers_key(saved.key);
    crate::vmbus::search::lemma_first_where(server.channels, p);
    match crate::vmbus::search::first_where(server.channels, p) {
        Some(i) => {
            assert(after.channels[i].unwrap().offer.spec_key() == saved.key);
            assert forall|j: int| 0 <= j < i implies !p(#[trigger] after.channels[j]) by {
                assert(!p(server.channels[j]));
            }
            crate::vmbus::search::lemma_first_is(after.channels, p, i);
            i
        },
        None => {
            crate::vmbus::search::lemma_first_where(
                server.channels,
                crate::vmbus::tables::is_free(),
            );
            let m = crate::vmbus::tables::next_offer(server.channels);
            assert(after.channels[m].unwrap().offer.spec_key() == saved.key);
            assert forall|j: int| 0 <= j < m implies !p(#[trigger] after.channels[j]) by {
                assert(!p(server.channels[j]));
            }
            crate::vmbus::search::lemma_first_is(after.channels, p, m);
            m
        },
    }
}

/// After a restore of channels, each of them is there, and its device has yet to restore it
/// exactly if there was an offer with its key. No two had the same key or the same ID. Every offer
/// is still there with its parameters, and one that was not among the saved channels is as it was.
/// Nothing but the offers and the IDs has changed, and no ID has changed hands.
pub proof fn law_restored_channels(server: ServerView, saved: Seq<Channel>)
    requires
        server.restore_channels(saved).outcome is Done,
    ensures
        ({
            let after = server.restore_channels(saved).server;
            &&& forall|i: int|
                0 <= i < saved.len() ==> has_channel(
                    after,
                    #[trigger] saved[i],
                    offers(server, saved[i].key),
                )
            &&& forall|key: OfferKey| #[trigger]
                offers(server, key) ==> offers(after, key)
            &&& forall|key: OfferKey| #[trigger]
                offers(after, key) ==> offers(server, key) || exists|i: int|
                    0 <= i < saved.len() && (#[trigger] saved[i]).key == key
            &&& forall|i: int, j: int|
                0 <= i < j < saved.len() ==> (#[trigger] saved[i]).key != (#[trigger] saved[j]).key
                    && saved[i].channel_id != saved[j].channel_id
            &&& server.channels.len() <= after.channels.len() <= server.channels.len()
                + saved.len()
            &&& forall|k: int|
                0 <= k < server.channels.len() && server.channels[k] is Some ==> {
                    &&& #[trigger] after.channels[k] is Some
                    &&& after.channels[k].unwrap().offer == server.channels[k].unwrap().offer
                    &&& not_saved(server.channels[k].unwrap(), saved) ==> after.channels[k]
                        == server.channels[k]
                }
            &&& after.assigned.len() == server.assigned.len()
            &&& forall|k: int|
                0 <= k < server.assigned.len() && server.assigned[k] is Some
                    ==> #[trigger] after.assigned[k] == server.assigned[k]
            &&& after == ServerView {
                channels: after.channels,
                assigned: after.assigned,
                ..server
            }
        }),
    decreases saved.len(),
{
    if saved.len() > 0 {
        let front = saved.drop_last();
        let n = front.len() as int;
        let last = saved[n];
        law_restored_channels(server, front);
        let before = server.restore_channels(front).server;
        let after = server.restore_channels(saved).server;
        assert(after == before.restore_channel(last).server);
        let m = lemma_one_channel(before, last);
        assert forall|i: int| 0 <= i < n implies front[i] == #[trigger] saved[i] by {}
        assert forall|i: int| 0 <= i < n implies {
            &&& has_channel(after, #[trigger] saved[i], offers(server, saved[i].key))
            &&& saved[i].key != last.key
            &&& saved[i].channel_id != last.channel_id
        } by {
            let offered = offers(server, saved[i].key);
            assert(has_channel(before, front[i], offered));
            let k = choose|k: int| has_channel_at(before, saved[i], offered, k);
            assert(has_channel_at(before, saved[i], offered, k));
            assert(saved[i].key != last.key);
            assert(k != m);
            assert(after.channels[k] == before.channels[k]);
            let p = crate::vmbus::tables::offers_key(saved[i].key);
            assert(!p(after.channels[m]));
            if m < before.channels.len() {
                assert(!p(before.channels[m]));
            }
            lemma_first_stays(before.channels, after.channels, p, m);
            assert(has_channel_at(after, saved[i], offered, k));
        }
        assert(offers(before, last.key) <==> offers(server, last.key));
        assert(has_channel_at(after, last, offers(server, last.key), m));
        assert forall|key: OfferKey| #[trigger] offers(after, key) == (offers(before, key) || key
            == last.key) by {
            if key != last.key {
                let p = crate::vmbus::tables::offers_key(key);
                assert(!p(after.channels[m]));
                if m < before.channels.len() {
                    assert(!p(before.channels[m]));
                }
                lemma_first_stays(before.channels, after.channels, p, m);
            }
        }
        assert forall|key: OfferKey| #[trigger] offers(after, key) implies offers(server, key)
            || exists|i: int| 0 <= i < saved.len() && (#[trigger] saved[i]).key == key by {
            if key == last.key {
                assert(saved[n].key == key);
            } else if !offers(server, key) {
                assert(offers(before, key));
                let i = choose|i: int| 0 <= i < front.len() && (#[trigger] front[i]).key == key;
                assert(saved[i].key == key);
            }
        }
        assert forall|i: int, j: int| 0 <= i < j < saved.len() implies (#[trigger] saved[i]).key
            != (#[trigger] saved[j]).key && saved[i].channel_id != saved[j].channel_id by {
            if j < n {
                assert(front[i] == saved[i] && front[j] == saved[j]);
            }
        }
        assert forall|k: int| 0 <= k < server.channels.len() && server.channels[k] is Some implies {
            &&& #[trigger] after.channels[k] is Some
            &&& after.channels[k].unwrap().offer == server.channels[k].unwrap().offer
            &&& not_saved(server.channels[k].unwrap(), saved) ==> after.channels[k]
                == server.channels[k]
        } by {
            assert(before.channels[k] is Some);
            let channel = server.channels[k].unwrap();
            if not_saved(channel, saved) {
                assert forall|i: int| 0 <= i < front.len() implies (#[trigger] front[i]).key
                    != channel.offer.spec_key() by {
                    assert(saved[i] == front[i]);
                }
                assert(saved[n].key != channel.offer.spec_key());
                assert(k != m);
            }
        }
        assert forall|k: int|
            0 <= k < server.assigned.len()
                && server.assigned[k] is Some implies #[trigger] after.assigned[k]
            == server.assigned[k] by {
            assert(before.assigned[k] == server.assigned[k]);
        }
    }
}

/// A saved channel takes the place of an offer only if the guest does not know of the offer and
/// no restore has touched it, and, where the offer comes with a monitor ID, only with that ID.
pub proof fn law_claimed_offer(server: ServerView, saved: Channel, k: int)
    requires
        server.restore_channel(saved).outcome is Done,
        crate::vmbus::search::first_where(
            server.channels,
            crate::vmbus::tables::offers_key(saved.key),
        ) == Some(k),
    ensures
        server.channels[k].unwrap().state is ClientReleased,
        server.channels[k].unwrap().restore_state == RestoreState::New,
        server.channels[k].unwrap().offer.use_mnf matches MnfUsage::Relayed { monitor_id }
            ==> saved.spec_info().monitor_id == Some(MonitorId(monitor_id)),
{
}

/// A saved state in which two channels have the same key or the same ID is refused by every
/// server.
pub proof fn law_duplicate_channels_refused(server: ServerView, saved: Seq<Channel>, i: int, j: int)
    requires
        0 <= i < j < saved.len(),
        saved[i].key == saved[j].key || saved[i].channel_id == saved[j].channel_id,
    ensures
        !(server.restore_channels(saved).outcome is Done),
{
    if server.restore_channels(saved).outcome is Done {
        law_restored_channels(server, saved);
        assert(saved[i].key != saved[j].key && saved[i].channel_id != saved[j].channel_id);
    }
}

/// After a restore of GPADLs, they stand behind those that were there, in their order, each at
/// the channel that has the saved ID. The incomplete ones can be found by their ID. Nothing else
/// has changed.
pub proof fn law_restored_gpadls(
    server: ServerView,
    saved: Seq<GpadlView>,
    ranges: Seq<Result<Seq<u64>, RangeError>>,
)
    requires
        server.restore_gpadls(saved, ranges).outcome is Done,
        ranges.len() >= saved.len(),
    ensures
        ({
            let after = server.restore_gpadls(saved, ranges).server;
            let n = server.gpadls.len();
            &&& after.gpadls.len() == n + saved.len()
            &&& forall|i: int| 0 <= i < n ==> #[trigger] after.gpadls[i] == server.gpadls[i]
            &&& forall|i: int|
                #![trigger saved[i]]
                0 <= i < saved.len() ==> {
                    let entry = after.gpadls[n + i];
                    &&& entry.gpadl_id == GpadlId(saved[i].id)
                    &&& server.gpadl_channel(ChannelId(saved[i].channel_id)) == Some(
                        entry.offer_id,
                    )
                    &&& saved[i].spec_restore(
                        server.channels[entry.offer_id.0 as int].unwrap(),
                        ranges[i],
                    ) == Ok::<_, RestoreError>(entry.gpadl)
                    &&& saved[i].state is InProgress ==> after.incomplete.contains_key(saved[i].id)
                        && after.incomplete[saved[i].id] == entry.offer_id
                }
            &&& forall|id: u32| #[trigger]
                server.incomplete.contains_key(id) ==> after.incomplete.contains_key(id)
                    && after.incomplete[id] == server.incomplete[id]
            &&& after == ServerView {
                gpadls: after.gpadls,
                incomplete: after.incomplete,
                ..server
            }
        }),
    decreases saved.len(),
{
    if saved.len() > 0 {
        let front = saved.drop_last();
        let n = front.len() as int;
        let last = saved[n];
        law_restored_gpadls(server, front, ranges);
        let before = server.restore_gpadls(front, ranges).server;
        let after = server.restore_gpadls(saved, ranges).server;
        assert(after == before.restore_gpadl(last, ranges[n]).server);
        let offer_id = before.gpadl_channel(ChannelId(last.channel_id)).unwrap();
        crate::vmbus::search::lemma_first_where(
            before.gpadls,
            crate::vmbus::tables::is_entry(GpadlId(last.id), offer_id),
        );
        assert(after.gpadls.drop_last() =~= before.gpadls);
        assert forall|i: int| 0 <= i < server.gpadls.len() implies #[trigger] after.gpadls[i]
            == server.gpadls[i] by {
            assert(after.gpadls[i] == before.gpadls[i]);
        }
        assert forall|i: int|
            #![trigger saved[i]]
            0 <= i < n implies after.gpadls[server.gpadls.len() + i]
            == before.gpadls[server.gpadls.len() + i] && saved[i] == front[i] by {}
    }
}

/// A restore that succeeds is one in which the connection was not refused, the notifier agreed,
/// and the channels, the GPADLs and the messages were all restored.
pub proof fn law_restore_is_all_or_an_error(
    server: ServerView,
    reply: Result<(), anyhow::Error>,
    saved: SavedStateView,
    ranges: Seq<Result<Seq<u64>, RangeError>>,
)
    ensures
        server.restore(reply, saved, ranges).outcome is Done <==> {
            &&& reply is Ok
            &&& server.restore_state(saved.state) matches Ok(connected)
            &&& ({
                let channels = connected.restore_channels(saved.state.channels);
                let gpadls = channels.server.restore_gpadls(saved.state.gpadls, ranges);
                let messages = gpadls.server.restore_messages(saved.pending_messages);
                &&& channels.outcome is Done
                &&& gpadls.outcome is Done
                &&& messages.outcome is Done
            })
        },
{
}

/// A state that has been restored, and that has a channel, is not restored a second time: the
/// first channel is refused as restored already, and the server stays as it is.
pub proof fn law_second_restore_refused(
    server: ServerView,
    saved: SavedStateView,
    ranges: Seq<Result<Seq<u64>, RangeError>>,
    again: Seq<Result<Seq<u64>, RangeError>>,
    restored: ServerView,
)
    requires
        server.restore(Ok(()), saved, ranges) == restored.done(),
        ranges.len() == saved.state.gpadls.len(),
        saved.state.channels.len() > 0,
    ensures
        restored.restore(Ok(()), saved, again) == restored.failed(
            RestoreError::AlreadyRestored(saved.state.channels[0].key),
        ),
{
    let all = saved.state.channels;
    let first = all[0];
    let connected = server.restore_state(saved.state).unwrap();
    let with_channels = connected.restore_channels(all);
    let with_gpadls = with_channels.server.restore_gpadls(saved.state.gpadls, ranges);
    law_restored_channels(connected, all);
    law_restored_gpadls(with_channels.server, saved.state.gpadls, ranges);
    crate::vmbus::restore_laws::law_restored_messages(
        with_gpadls.server,
        saved.pending_messages,
    );
    let offered = offers(connected, first.key);
    assert(has_channel(with_channels.server, first, offered));
    let k = choose|k: int| has_channel_at(with_channels.server, first, offered, k);
    assert(has_channel_at(with_channels.server, first, offered, k));
    assert(restored.restore_state(saved.state) == Ok::<_, RestoreError>(restored));
    let one = all.take(1);
    assert(one.drop_last() =~= Seq::empty());
    assert(one.last() == first);
    assert(restored.restore_channels(one.drop_last()) == restored.done());
    assert(restored.restore_channels(one) == restored.failed(
        RestoreError::AlreadyRestored(first.key),
    ));
    restored.lemma_channels_stop(all, 1);
}

/// A saved state whose connection is refused changes nothing, and nothing is asked of the
/// notifier.
pub proof fn law_refused_connection_changes_nothing(
    server: ServerView,
    reply: Result<(), anyhow::Error>,
    saved: SavedStateView,
    ranges: Seq<Result<Seq<u64>, RangeError>>,
    error: RestoreError,
)
    requires
        server.restore_state(saved.state) == Err::<ServerView, _>(error),
    ensures
        server.restore(reply, saved, ranges) == server.failed(error),
        server.restore_request(saved.state) is None,
{
}

/// A refusal of the notifier ends the restore: the server has the saved connection, and nothing
/// else of the saved state.
pub proof fn law_notifier_refusal(
    server: ServerView,
    error: anyhow::Error,
    saved: SavedStateView,
    ranges: Seq<Result<Seq<u64>, RangeError>>,
    connected: ServerView,
)
    requires
        server.restore_state(saved.state) == Ok::<_, RestoreError>(connected),
    ensures
        server.restore(Err(error), saved, ranges) == connected.failed(
            RestoreError::ServerError(error),
        ),
        connected == (ServerView { state: connected.state, ..server }),
{
}

} // verus!
