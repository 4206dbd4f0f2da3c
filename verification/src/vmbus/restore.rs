//! Restoring a server.

use super::channels::{Channel, ChannelState, ConnectionState, MnfUsage};
use super::channels::{ModifyConnectionRequest, RestoreState};
use super::protocol::{ChannelId, GpadlId};
use super::saved_data::{SavedConnectionState, SavedState, SavedStateData};
use super::saved_state;
use super::saved_state::{OutgoingMessage, RangeCheck, RangeError, RestoreError};
use super::server::{RestoreOutcome, Server, ServerView};
use std::collections::VecDeque;
use vstd::prelude::*;

verus! {

broadcast use vstd::std_specs::hash::group_hash_axioms;

/// The models of a list of range checks.
pub open spec fn range_views(checks: Seq<RangeCheck>) -> Seq<Result<Seq<u64>, RangeError>> {
    Seq::new(checks.len(), |i: int| crate::vmbus::saved_state::range_view(checks[i]))
}

impl ServerView {
    /// A restore of channels that has stopped stays where it stopped.
    pub proof fn lemma_channels_stop(self, saved: Seq<saved_state::Channel>, n: int)
        requires
            0 <= n <= saved.len(),
            !(self.restore_channels(saved.take(n)).outcome is Done),
        ensures
            self.restore_channels(saved) == self.restore_channels(saved.take(n)),
        decreases saved.len(),
    {
        if n == saved.len() {
            assert(saved.take(n) =~= saved);
        } else {
            assert(saved.drop_last().take(n) =~= saved.take(n));
            self.lemma_channels_stop(saved.drop_last(), n);
        }
    }

    /// A restore of GPADLs that has stopped stays where it stopped.
    proof fn lemma_gpadls_stop(
        self,
        saved: Seq<saved_state::GpadlView>,
        ranges: Seq<Result<Seq<u64>, RangeError>>,
        n: int,
    )
        requires
            0 <= n <= saved.len(),
            !(self.restore_gpadls(saved.take(n), ranges).outcome is Done),
        ensures
            self.restore_gpadls(saved, ranges) == self.restore_gpadls(saved.take(n), ranges),
        decreases saved.len(),
    {
        if n == saved.len() {
            assert(saved.take(n) =~= saved);
        } else {
            assert(saved.drop_last().take(n) =~= saved.take(n));
            self.lemma_gpadls_stop(saved.drop_last(), ranges, n);
        }
    }

    /// A restore of messages that has stopped stays where it stopped.
    proof fn lemma_messages_stop(self, saved: Seq<Seq<u8>>, n: int)
        requires
            0 <= n <= saved.len(),
            !(self.restore_messages(saved.take(n)).outcome is Done),
        ensures
            self.restore_messages(saved) == self.restore_messages(saved.take(n)),
        decreases saved.len(),
    {
        if n == saved.len() {
            assert(saved.take(n) =~= saved);
        } else {
            assert(saved.drop_last().take(n) =~= saved.take(n));
            self.lemma_messages_stop(saved.drop_last(), n);
        }
    }
}

impl Server {
    /// Restores a channel, on top of its offer if it has been made.
    pub fn restore_one_channel(&mut self, saved_channel: saved_state::Channel) -> (result: Result<
        (),
        RestoreError,
    >)
        requires
            old(self)@.wf(),
        ensures
            final(self)@ == old(self)@.restore_channel(saved_channel).server,
            match result {
                Ok(_) => old(self)@.restore_channel(saved_channel).outcome is Done,
                Err(error) => old(self)@.restore_channel(saved_channel).outcome
                    == RestoreOutcome::Failed(error),
            },
            final(self)@.wf(),
    {
        let (info, stub_offer, state) = match saved_channel.restore(&self.protocol) {
            Ok(restored) => restored,
            Err(error) => {
                return Err(error);
            },
        };
        match self.channels.get_by_key(&saved_channel.key) {
            Some((offer_id, channel)) => {
                // There is an existing channel. Restore on top of it.
                let released = match channel.state {
                    ChannelState::ClientReleased => true,
                    _ => false,
                };
                if !released || channel.restore_state != RestoreState::New {
                    return Err(RestoreError::AlreadyRestored(saved_channel.key));
                }
                // The channel's monitor ID can be already set if it was set by the device, which
                // is the case with relay channels. In that case, it must match the saved ID.
                if let MnfUsage::Relayed { monitor_id } = channel.offer.use_mnf {
                    let matched = match info.monitor_id {
                        Some(id) => id.0 == monitor_id,
                        None => false,
                    };
                    if !matched {
                        return Err(
                            RestoreError::MismatchedMonitorId(monitor_id, saved_channel.monitor_id),
                        );
                    }
                }
                match self.assigned_channels.check(info.channel_id) {
                    Ok(_) => {},
                    Err(error) => {
                        return Err(RestoreError::from(error));
                    },
                }
                self.assigned_channels.assign(info.channel_id, offer_id);
                self.channels.replace(
                    offer_id,
                    Channel {
                        info: Some(info),
                        offer: channel.offer,
                        state,
                        restore_state: RestoreState::Restoring,
                    },
                );
            },
            None => {
                // There is no existing channel.
                match self.assigned_channels.check(ChannelId(saved_channel.channel_id)) {
                    Ok(_) => {},
                    Err(error) => {
                        return Err(RestoreError::from(error));
                    },
                }
                let channel = Channel {
                    info: Some(info),
                    offer: stub_offer,
                    state,
                    restore_state: RestoreState::Unmatched,
                };
                proof {
                    crate::vmbus::search::lemma_first_where(
                        self@.channels,
                        crate::vmbus::tables::is_free(),
                    );
                }
                let offer_id = self.channels.offer(channel);
                proof {
                    self.channels.lemma_len();
                }
                self.assigned_channels.assign(ChannelId(saved_channel.channel_id), offer_id);
            },
        }
        Ok(())
    }

    /// Restores a GPADL of a channel that has been restored. `range` is what the validation of
    /// its ranges gave.
    pub fn restore_one_gpadl(&mut self, saved_gpadl: saved_state::Gpadl, range: RangeCheck) -> (outcome:
        RestoreOutcome)
        requires
            old(self)@.wf(),
        ensures
            final(self)@ == old(self)@.restore_gpadl(
                saved_gpadl@,
                crate::vmbus::saved_state::range_view(range),
            ).server,
            outcome == old(self)@.restore_gpadl(
                saved_gpadl@,
                crate::vmbus::saved_state::range_view(range),
            ).outcome,
            final(self)@.wf(),
    {
        let gpadl_id = GpadlId(saved_gpadl.id);
        let channel_id = ChannelId(saved_gpadl.channel_id);
        let incomplete = saved_gpadl.state == saved_state::GpadlState::InProgress;
        let offer_id = match self.assigned_channels.get(channel_id) {
            Some(offer_id) => offer_id,
            None => {
                return RestoreOutcome::Failed(
                    RestoreError::MissingGpadlChannel(gpadl_id, channel_id),
                );
            },
        };
        assert(self@.assigned[channel_id.0 - 1] == Some(offer_id));
        let channel = self.channels.get(offer_id).unwrap();
        if channel.restore_state == RestoreState::New || channel.state.is_released() {
            return RestoreOutcome::Failed(RestoreError::MissingGpadlChannel(gpadl_id, channel_id));
        }
        let gpadl = match saved_gpadl.restore(&channel, range) {
            Ok(gpadl) => gpadl,
            Err(error) => {
                return RestoreOutcome::Failed(error);
            },
        };
        proof {
            crate::vmbus::search::lemma_first_where(
                self@.gpadls,
                crate::vmbus::tables::is_entry(gpadl_id, offer_id),
            );
        }
        if self.gpadls.insert(gpadl_id, offer_id, gpadl) {
            return RestoreOutcome::Failed(RestoreError::GpadlIdInUse(gpadl_id, channel_id));
        }
        if incomplete && self.incomplete_gpadls.insert(gpadl_id.0, offer_id).is_some() {
            return RestoreOutcome::DuplicateIncompleteGpadl(gpadl_id, channel_id);
        }
        RestoreOutcome::Done
    }

    /// Restores the channels, the GPADLs and the messages of a saved state. `ranges` holds what
    /// the validation of each GPADL's ranges gave, in the order of the GPADLs.
    pub fn restore_contents(&mut self, saved: SavedStateData, ranges: VecDeque<RangeCheck>) -> (outcome:
        RestoreOutcome)
        requires
            old(self)@.wf(),
            ranges@.len() == saved@.state.gpadls.len(),
        ensures
            final(self)@ == old(self)@.restore_contents(saved@, range_views(ranges@)).server,
            outcome == old(self)@.restore_contents(saved@, range_views(ranges@)).outcome,
            final(self)@.wf(),
    {
        let (saved_channels, saved_gpadls) = match saved.state {
            SavedConnectionState::Connected(connected) => (connected.channels, connected.gpadls),
            SavedConnectionState::Disconnected(disconnected) => (
                disconnected.reserved_channels,
                disconnected.reserved_gpadls,
            ),
        };
        match self.restore_channels(saved_channels) {
            Ok(_) => {},
            Err(error) => {
                return RestoreOutcome::Failed(error);
            },
        }
        match self.restore_gpadls(saved_gpadls, ranges) {
            RestoreOutcome::Done => {},
            outcome => {
                return outcome;
            },
        }
        match self.restore_messages(saved.pending_messages) {
            Ok(_) => RestoreOutcome::Done,
            Err(error) => RestoreOutcome::Failed(error),
        }
    }

    /// Restores channels, up to the first that fails.
    fn restore_channels(&mut self, saved_channels: Vec<saved_state::Channel>) -> (result: Result<
        (),
        RestoreError,
    >)
        requires
            old(self)@.wf(),
        ensures
            final(self)@ == old(self)@.restore_channels(saved_channels@).server,
            match result {
                Ok(_) => old(self)@.restore_channels(saved_channels@).outcome is Done,
                Err(error) => old(self)@.restore_channels(saved_channels@).outcome
                    == RestoreOutcome::Failed(error),
            },
            final(self)@.wf(),
    {
        let ghost all = saved_channels@;
        let ghost start = self@;
        for saved_channel in it: saved_channels
            invariant
                it.seq() == all,
                all == saved_channels@,
                start == old(self)@,
                self@.wf(),
                start.restore_channels(all.take(it.index() as int)) == self@.done(),
        {
            let ghost n = it.index() as int;
            assert(all.take(n + 1).drop_last() =~= all.take(n));
            assert(all.take(n + 1).last() == saved_channel);
            match self.restore_one_channel(saved_channel) {
                Ok(_) => {},
                Err(error) => {
                    proof {
                        start.lemma_channels_stop(all, n + 1);
                    }
                    return Err(error);
                },
            }
        }
        assert(all.take(all.len() as int) =~= all);
        Ok(())
    }

    /// Restores GPADLs, up to the first that fails.
    fn restore_gpadls(
        &mut self,
        saved_gpadls: Vec<saved_state::Gpadl>,
        ranges: VecDeque<RangeCheck>,
    ) -> (outcome: RestoreOutcome)
        requires
            old(self)@.wf(),
            ranges@.len() == saved_gpadls@.len(),
        ensures
            final(self)@ == old(self)@.restore_gpadls(
                crate::vmbus::saved_data::gpadl_views(saved_gpadls@),
                range_views(ranges@),
            ).server,
            outcome == old(self)@.restore_gpadls(
                crate::vmbus::saved_data::gpadl_views(saved_gpadls@),
                range_views(ranges@),
            ).outcome,
            final(self)@.wf(),
    {
        let ghost all = crate::vmbus::saved_data::gpadl_views(saved_gpadls@);
        let ghost checks = range_views(ranges@);
        let ghost start = self@;
        let mut rest = ranges;
        for saved_gpadl in it: saved_gpadls
            invariant
                it.seq() == saved_gpadls@,
                all == crate::vmbus::saved_data::gpadl_views(saved_gpadls@),
                checks == range_views(ranges@),
                ranges@.len() == saved_gpadls@.len(),
                start == old(self)@,
                self@.wf(),
                rest@ == ranges@.skip(it.index() as int),
                start.restore_gpadls(all.take(it.index() as int), checks) == self@.done(),
        {
            let ghost n = it.index() as int;
            assert(all.take(n + 1).drop_last() =~= all.take(n));
            assert(all.take(n + 1).last() == saved_gpadl@);
            let range = rest.pop_front().unwrap();
            assert(range == ranges@[n]);
            assert(rest@ =~= ranges@.skip(n + 1));
            match self.restore_one_gpadl(saved_gpadl, range) {
                RestoreOutcome::Done => {},
                outcome => {
                    proof {
                        start.lemma_gpadls_stop(all, checks, n + 1);
                    }
                    return outcome;
                },
            }
        }
        assert(all.take(all.len() as int) =~= all);
        RestoreOutcome::Done
    }

    /// Restores messages, up to the first that fails.
    fn restore_messages(&mut self, saved_messages: Vec<OutgoingMessage>) -> (result: Result<
        (),
        RestoreError,
    >)
        requires
            old(self)@.wf(),
        ensures
            final(self)@ == old(self)@.restore_messages(
                crate::vmbus::saved_data::message_views(saved_messages@),
            ).server,
            match result {
                Ok(_) => old(self)@.restore_messages(
                    crate::vmbus::saved_data::message_views(saved_messages@),
                ).outcome is Done,
                Err(error) => old(self)@.restore_messages(
                    crate::vmbus::saved_data::message_views(saved_messages@),
                ).outcome == RestoreOutcome::Failed(error),
            },
            final(self)@.wf(),
    {
        let ghost all = crate::vmbus::saved_data::message_views(saved_messages@);
        let ghost start = self@;
        self.pending_messages.reserve(saved_messages.len());
        for message in it: saved_messages
            invariant
                it.seq() == saved_messages@,
                all == crate::vmbus::saved_data::message_views(saved_messages@),
                start == old(self)@,
                self@.wf(),
                start.restore_messages(all.take(it.index() as int)) == self@.done(),
        {
            let ghost n = it.index() as int;
            let ghost before = self@;
            let ghost queue = self.pending_messages@;
            assert(all.take(n + 1).drop_last() =~= all.take(n));
            assert(all.take(n + 1).last() == message@);
            match message.restore(self.protocol.max_message_size) {
                Ok(restored) => {
                    self.pending_messages.push_back(restored);
                    assert(self@.pending_messages =~= before.pending_messages.push(message@));
                },
                Err(error) => {
                    proof {
                        start.lemma_messages_stop(all, n + 1);
                    }
                    return Err(error);
                },
            }
        }
        assert(all.take(all.len() as int) =~= all);
        Ok(())
    }
}

impl Server {
    /// Restores the connection of a saved state, and returns what the notifier has to be told of
    /// it, if anything. If these notifications were processed before the save, it is harmless:
    /// the values are the same.
    pub fn restore_state(&mut self, saved: &SavedConnectionState) -> (result: Result<
        Option<ModifyConnectionRequest>,
        RestoreError,
    >)
        requires
            old(self)@.wf(),
        ensures
            match old(self)@.restore_state(saved@) {
                Ok(server) => final(self)@ == server && result == Ok::<_, RestoreError>(
                    server.state.spec_restore_request(),
                ),
                Err(error) => final(self)@ == old(self)@ && result == Err::<
                    Option<ModifyConnectionRequest>,
                    _,
                >(error),
            },
            final(self)@.wf(),
    {
        match saved {
            SavedConnectionState::Connected(connected) => {
                match connected.connection.restore(&self.protocol) {
                    Ok(state) => {
                        self.state = state;
                    },
                    Err(error) => {
                        return Err(error);
                    },
                }
            },
            SavedConnectionState::Disconnected(_) => {
                self.state = ConnectionState::Disconnected;
            },
        }
        Ok(self.state.restore_request())
    }

    /// Restores the rest of a saved state, once its connection has been restored and the notifier
    /// has answered.
    pub fn finish_restore(
        &mut self,
        reply: Result<(), anyhow::Error>,
        saved: SavedStateData,
        ranges: VecDeque<RangeCheck>,
    ) -> (outcome: RestoreOutcome)
        requires
            old(self)@.wf(),
            ranges@.len() == saved@.state.gpadls.len(),
        ensures
            final(self)@ == old(self)@.finish_restore(reply, saved@, range_views(ranges@)).server,
            outcome == old(self)@.finish_restore(reply, saved@, range_views(ranges@)).outcome,
            final(self)@.wf(),
    {
        match reply {
            Ok(_) => self.restore_contents(saved, ranges),
            Err(error) => RestoreOutcome::Failed(RestoreError::from(error)),
        }
    }
}

/// Whoever applies to the rest of the virtual machine what a server decides.
pub trait Notifier: Sized {
    /// A call of [`Notifier::modify_connection`] on `before` with `request` may leave `after` and
    /// answer `reply`. An implementation that promises something says so here; without that,
    /// nothing is promised.
    open spec fn may_modify_connection(
        before: Self,
        request: ModifyConnectionRequest,
        after: Self,
        reply: Result<(), anyhow::Error>,
    ) -> bool {
        true
    }

    /// Applies a change to the connection.
    fn modify_connection(&mut self, request: ModifyConnectionRequest) -> (reply: Result<
        (),
        anyhow::Error,
    >)
        ensures
            Self::may_modify_connection(*old(self), request, *final(self), reply),
    ;
}

/// A server together with its notifier.
pub struct ServerWithNotifier<'a, N: Notifier> {
    pub inner: &'a mut Server,
    pub notifier: &'a mut N,
}

/// What the notifier answers to the request that a restore makes of it, where it makes one. Where
/// it makes none, the notifier stays as it is, and nothing stands against the restore.
pub open spec fn answered<N: Notifier>(
    before: N,
    request: Option<ModifyConnectionRequest>,
    after: N,
    reply: Result<(), anyhow::Error>,
) -> bool {
    match request {
        Some(request) => N::may_modify_connection(before, request, after, reply),
        None => before == after && reply == Ok::<(), anyhow::Error>(()),
    }
}

impl<'a, N: Notifier> ServerWithNotifier<'a, N> {
    /// Restores state.
    ///
    /// This may be called before or after channels have been offered. A channel that is offered
    /// already takes on its saved state; for one that is not, a stand-in is made. Once all
    /// channels are in the appropriate state, the stand-ins that no offer has claimed are for the
    /// caller to revoke.
    ///
    /// `ranges` holds what the validation of the ranges of each saved GPADL gave, in the order of
    /// [`SavedStateData::channels_and_gpadls`]. The restore must not come to a second incomplete
    /// GPADL with the ID of another, whatever the notifier may answer;
    /// [`ServerWithNotifier::try_restore`] takes that too.
    pub fn restore(&mut self, saved: SavedState, ranges: VecDeque<RangeCheck>) -> (result: Result<
        (),
        RestoreError,
    >)
        requires
            (*old(self).inner)@.wf(),
            ranges@.len() == saved@.state.gpadls.len(),
            forall|after: N, reply: Result<(), anyhow::Error>| #[trigger]
                answered(
                    *old(self).notifier,
                    (*old(self).inner)@.restore_request(saved@.state),
                    after,
                    reply,
                ) ==> !((*old(self).inner)@.restore(reply, saved@, range_views(ranges@)).outcome
                    is DuplicateIncompleteGpadl),
        ensures
            (*final(self).inner)@.wf(),
            // The server and the notifier are still those of the caller.
            *final(final(self).inner) == *final(old(self).inner),
            *final(final(self).notifier) == *final(old(self).notifier),
            exists|reply: Result<(), anyhow::Error>|
                {
                    &&& #[trigger] answered(
                        *old(self).notifier,
                        (*old(self).inner)@.restore_request(saved@.state),
                        *final(self).notifier,
                        reply,
                    )
                    &&& (*final(self).inner)@ == (*old(self).inner)@.restore(
                        reply,
                        saved@,
                        range_views(ranges@),
                    ).server
                    &&& match (*old(self).inner)@.restore(
                        reply,
                        saved@,
                        range_views(ranges@),
                    ).outcome {
                        RestoreOutcome::Done => result is Ok,
                        RestoreOutcome::Failed(error) => result == Err::<(), _>(error),
                        RestoreOutcome::DuplicateIncompleteGpadl(_, _) => false,
                    }
                },
    {
        match self.try_restore(saved, ranges) {
            RestoreOutcome::Done => Ok(()),
            RestoreOutcome::Failed(error) => Err(error),
            RestoreOutcome::DuplicateIncompleteGpadl(gpadl_id, channel_id) => Err(
                RestoreError::GpadlIdInUse(gpadl_id, channel_id),
            ),
        }
    }

    /// Restores state as [`ServerWithNotifier::restore`] does, and tells if the saved state has
    /// two incomplete GPADLs that have the same ID in different channels.
    pub fn try_restore(&mut self, saved: SavedState, ranges: VecDeque<RangeCheck>) -> (outcome:
        RestoreOutcome)
        requires
            (*old(self).inner)@.wf(),
            ranges@.len() == saved@.state.gpadls.len(),
        ensures
            (*final(self).inner)@.wf(),
            // The server and the notifier are still those of the caller.
            *final(final(self).inner) == *final(old(self).inner),
            *final(final(self).notifier) == *final(old(self).notifier),
            exists|reply: Result<(), anyhow::Error>|
                {
                    &&& #[trigger] answered(
                        *old(self).notifier,
                        (*old(self).inner)@.restore_request(saved@.state),
                        *final(self).notifier,
                        reply,
                    )
                    &&& (*final(self).inner)@ == (*old(self).inner)@.restore(
                        reply,
                        saved@,
                        range_views(ranges@),
                    ).server
                    &&& outcome == (*old(self).inner)@.restore(
                        reply,
                        saved@,
                        range_views(ranges@),
                    ).outcome
                },
    {
        let data = SavedStateData::from(saved);
        let request = match self.inner.restore_state(&data.state) {
            Ok(request) => request,
            Err(error) => {
                assert(answered(*old(self).notifier, None, *self.notifier, Ok(())));
                return RestoreOutcome::Failed(error);
            },
        };
        let reply = match request {
            Some(request) => self.notifier.modify_connection(request),
            None => Ok(()),
        };
        let ghost answer = reply;
        let outcome = self.inner.finish_restore(reply, data, ranges);
        assert(answered(*old(self).notifier, request, *self.notifier, answer));
        outcome
    }
}

} // verus!
