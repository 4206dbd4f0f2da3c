//! The tables of a server: its offers, the channel IDs in use, and the GPADLs.

use super::channels::{Channel, Gpadl, GpadlView, OfferError, OfferId};
use super::protocol::{ChannelId, GpadlId, OfferKey};
use vstd::prelude::*;

verus! {

/// The offers of a server, each in the slot that its [`OfferId`] names.
#[derive(Debug)]
pub struct ChannelList {
    channels: Vec<Option<Channel>>,
}

impl View for ChannelList {
    type V = Seq<Option<Channel>>;

    closed spec fn view(&self) -> Seq<Option<Channel>> {
        self.channels@
    }
}

/// `offer_id` names an offer.
pub open spec fn is_offer(slots: Seq<Option<Channel>>, offer_id: OfferId) -> bool {
    offer_id.0 < slots.len() && slots[offer_id.0 as int] is Some
}

/// Tells which slots hold an offer with the key `key`.
pub open spec fn offers_key(key: OfferKey) -> spec_fn(Option<Channel>) -> bool {
    |slot: Option<Channel>|
        match slot {
            Some(channel) => channel.offer.spec_key() == key,
            None => false,
        }
}

/// Tells which slots are free.
pub open spec fn is_free() -> spec_fn(Option<Channel>) -> bool {
    |slot: Option<Channel>| slot is None
}

/// The ID that the next offer gets: that of the first free slot, or of a new one.
pub open spec fn next_offer(slots: Seq<Option<Channel>>) -> int {
    match crate::vmbus::search::first_where(slots, is_free()) {
        Some(i) => i,
        None => slots.len() as int,
    }
}

/// The slots with a new offer.
pub open spec fn with_offer(slots: Seq<Option<Channel>>, channel: Channel) -> Seq<Option<Channel>> {
    if next_offer(slots) < slots.len() {
        slots.update(next_offer(slots), Some(channel))
    } else {
        slots.push(Some(channel))
    }
}

impl ChannelList {
    /// Makes a list without offers.
    pub fn new() -> (list: ChannelList)
        ensures
            list@ == Seq::<Option<Channel>>::empty(),
    {
        ChannelList { channels: Vec::new() }
    }

    /// There are no more slots than a machine can count.
    pub proof fn lemma_len(&self)
        ensures
            self@.len() <= usize::MAX,
    {
        broadcast use vstd::std_specs::vec::axiom_spec_len;

        assert(vstd::std_specs::vec::spec_vec_len(&self.channels) == self@.len());
    }

    /// Returns the number of slots, free ones among them.
    pub fn len(&self) -> (len: usize)
        ensures
            len == self@.len(),
    {
        self.channels.len()
    }

    /// Returns the offer in a slot, if there is one.
    pub fn get(&self, offer_id: OfferId) -> (found: Option<Channel>)
        ensures
            found == (if offer_id.0 < self@.len() {
                self@[offer_id.0 as int]
            } else {
                None
            }),
    {
        if offer_id.0 < self.channels.len() {
            self.channels[offer_id.0]
        } else {
            None
        }
    }

    /// Finds the offer with a key.
    pub fn get_by_key(&self, key: &OfferKey) -> (found: Option<(OfferId, Channel)>)
        ensures
            match found {
                Some((offer_id, channel)) => crate::vmbus::search::first_where(
                    self@,
                    offers_key(*key),
                ) == Some(offer_id.0 as int) && is_offer(self@, offer_id)
                    && self@[offer_id.0 as int] == Some(channel),
                None => crate::vmbus::search::first_where(self@, offers_key(*key)) is None,
            },
            match found {
                Some((offer_id, channel)) => {
                    &&& channel.offer.interface_id == key.interface_id
                    &&& channel.offer.instance_id == key.instance_id
                    &&& channel.offer.subchannel_index == key.subchannel_index
                    &&& forall|j: int|
                        0 <= j < offer_id.0 ==> (#[trigger] self@[j] matches Some(other)
                            ==> other.offer.interface_id != key.interface_id
                            || other.offer.instance_id != key.instance_id
                            || other.offer.subchannel_index != key.subchannel_index)
                },
                None => forall|j: int|
                    0 <= j < self@.len() ==> (#[trigger] self@[j] matches Some(other)
                        ==> other.offer.interface_id != key.interface_id
                        || other.offer.instance_id != key.instance_id
                        || other.offer.subchannel_index != key.subchannel_index),
            },
    {
        let mut i: usize = 0;
        while i < self.channels.len()
            invariant
                0 <= i <= self@.len(),
                self@ == self.channels@,
                forall|j: int| 0 <= j < i ==> !offers_key(*key)(#[trigger] self@[j]),
            decreases self.channels.len() - i,
        {
            if let Some(channel) = self.channels[i] {
                if channel.offer.key() == *key {
                    proof {
                        crate::vmbus::search::lemma_first_is(self@, offers_key(*key), i as int);
                        assert forall|j: int| 0 <= j < i implies (
                        #[trigger] self@[j] matches Some(other) ==> other.offer.spec_key()
                            != *key) by {
                            assert(!offers_key(*key)(self@[j]));
                        }
                    }
                    return Some((OfferId(i), channel));
                }
            }
            i = i + 1;
        }
        proof {
            crate::vmbus::search::lemma_first_none(self@, offers_key(*key));
            assert forall|j: int| 0 <= j < self@.len() implies (
            #[trigger] self@[j] matches Some(other) ==> other.offer.spec_key() != *key) by {
                assert(!offers_key(*key)(self@[j]));
            }
        }
        None
    }

    /// Puts a channel in the place of an offer.
    pub fn replace(&mut self, offer_id: OfferId, channel: Channel)
        requires
            is_offer(old(self)@, offer_id),
        ensures
            final(self)@ == old(self)@.update(offer_id.0 as int, Some(channel)),
    {
        self.channels[offer_id.0] = Some(channel);
    }

    /// Adds an offer, and returns its ID.
    pub fn offer(&mut self, channel: Channel) -> (offer_id: OfferId)
        ensures
            offer_id.0 == next_offer(old(self)@),
            final(self)@ == with_offer(old(self)@, channel),
            offer_id.0 <= old(self)@.len(),
            offer_id.0 < old(self)@.len() ==> old(self)@[offer_id.0 as int] is None,
            forall|j: int| 0 <= j < offer_id.0 ==> #[trigger] old(self)@[j] is Some,
            offer_id.0 < final(self)@.len(),
            final(self)@.len() == old(self)@.len() || final(self)@.len() == old(self)@.len() + 1,
            final(self)@[offer_id.0 as int] == Some(channel),
            forall|j: int|
                0 <= j < old(self)@.len() && j != offer_id.0 ==> #[trigger] final(self)@[j]
                    == old(self)@[j],
    {
        let ghost slots = self@;
        let mut i: usize = 0;
        while i < self.channels.len()
            invariant
                0 <= i <= slots.len(),
                slots == old(self)@,
                slots == self.channels@,
                forall|j: int| 0 <= j < i ==> !is_free()(#[trigger] slots[j]),
                forall|j: int| 0 <= j < i ==> #[trigger] slots[j] is Some,
            decreases self.channels.len() - i,
        {
            if self.channels[i].is_none() {
                proof {
                    crate::vmbus::search::lemma_first_is(slots, is_free(), i as int);
                }
                self.channels[i] = Some(channel);
                return OfferId(i);
            }
            i = i + 1;
        }
        proof {
            crate::vmbus::search::lemma_first_none(slots, is_free());
        }
        self.channels.push(Some(channel));
        OfferId(i)
    }
}

/// The channel IDs that a server hands out, and the offers that have them. They are the numbers
/// from 1 up to the capacity.
#[derive(Debug)]
pub struct AssignedChannels {
    assignments: Vec<Option<OfferId>>,
}

impl View for AssignedChannels {
    type V = Seq<Option<OfferId>>;

    /// The offer of each ID, that of ID 1 first.
    closed spec fn view(&self) -> Seq<Option<OfferId>> {
        self.assignments@
    }
}

/// The offer that has a channel ID.
pub open spec fn assigned_to(assigned: Seq<Option<OfferId>>, channel_id: ChannelId) -> Option<
    OfferId,
> {
    if 1 <= channel_id.0 <= assigned.len() {
        assigned[channel_id.0 - 1]
    } else {
        None
    }
}

/// Why a channel ID cannot be assigned, if it cannot.
pub open spec fn assign_error(assigned: Seq<Option<OfferId>>, channel_id: ChannelId) -> Option<
    OfferError,
> {
    if !(1 <= channel_id.0 <= assigned.len()) {
        Some(OfferError::InvalidChannelId(channel_id))
    } else if assigned[channel_id.0 - 1] is Some {
        Some(OfferError::ChannelIdInUse(channel_id))
    } else {
        None
    }
}

/// The assignments with one more.
pub open spec fn with_assigned(
    assigned: Seq<Option<OfferId>>,
    channel_id: ChannelId,
    offer_id: OfferId,
) -> Seq<Option<OfferId>> {
    assigned.update(channel_id.0 - 1, Some(offer_id))
}

impl AssignedChannels {
    /// Makes a table of `capacity` channel IDs, none of them in use.
    pub fn new(capacity: usize) -> (table: AssignedChannels)
        ensures
            table@ == Seq::new(capacity as nat, |i: int| None::<OfferId>),
    {
        let mut assignments: Vec<Option<OfferId>> = Vec::new();
        let mut i: usize = 0;
        while i < capacity
            invariant
                i <= capacity,
                assignments@ == Seq::new(i as nat, |i: int| None::<OfferId>),
            decreases capacity - i,
        {
            assignments.push(None);
            i = i + 1;
            assert(assignments@ =~= Seq::new(i as nat, |i: int| None::<OfferId>));
        }
        AssignedChannels { assignments }
    }

    /// Returns the number of channel IDs.
    pub fn len(&self) -> (len: usize)
        ensures
            len == self@.len(),
    {
        self.assignments.len()
    }

    /// Returns the offer of the channel ID that is `i` above the lowest.
    pub fn at(&self, i: usize) -> (offer_id: Option<OfferId>)
        requires
            i < self@.len(),
        ensures
            offer_id == self@[i as int],
    {
        self.assignments[i]
    }

    /// Returns the offer that has a channel ID.
    pub fn get(&self, channel_id: ChannelId) -> (offer_id: Option<OfferId>)
        ensures
            offer_id == assigned_to(self@, channel_id),
            1 <= channel_id.0 <= self@.len() ==> offer_id == self@[channel_id.0 - 1],
            channel_id.0 == 0 || channel_id.0 > self@.len() ==> offer_id is None,
    {
        if channel_id.0 >= 1 && channel_id.0 as usize <= self.assignments.len() {
            self.assignments[channel_id.0 as usize - 1]
        } else {
            None
        }
    }

    /// Checks that a channel ID can be assigned.
    pub fn check(&self, channel_id: ChannelId) -> (result: Result<(), OfferError>)
        ensures
            match assign_error(self@, channel_id) {
                None => result is Ok,
                Some(error) => result == Err::<(), OfferError>(error),
            },
            match result {
                Ok(_) => 1 <= channel_id.0 <= self@.len() && self@[channel_id.0 - 1] is None,
                Err(OfferError::InvalidChannelId(id)) => id == channel_id && (channel_id.0 == 0
                    || channel_id.0 > self@.len()),
                Err(OfferError::ChannelIdInUse(id)) => id == channel_id && 1 <= channel_id.0
                    <= self@.len() && self@[channel_id.0 - 1] is Some,
            },
    {
        if channel_id.0 < 1 || channel_id.0 as usize > self.assignments.len() {
            return Err(OfferError::InvalidChannelId(channel_id));
        }
        if self.assignments[channel_id.0 as usize - 1].is_some() {
            return Err(OfferError::ChannelIdInUse(channel_id));
        }
        Ok(())
    }

    /// Assigns a channel ID to an offer.
    pub fn assign(&mut self, channel_id: ChannelId, offer_id: OfferId)
        requires
            assign_error(old(self)@, channel_id) is None,
        ensures
            final(self)@ == with_assigned(old(self)@, channel_id, offer_id),
            final(self)@ == old(self)@.update(channel_id.0 - 1, Some(offer_id)),
    {
        self.assignments[channel_id.0 as usize - 1] = Some(offer_id);
    }
}

/// A GPADL of an offer. The same ID may be in use with different offers.
#[derive(Debug)]
pub struct GpadlEntry {
    pub gpadl_id: GpadlId,
    pub offer_id: OfferId,
    pub gpadl: Gpadl,
}

/// The model of a [`GpadlEntry`].
#[verifier::ext_equal]
pub struct GpadlEntryView {
    pub gpadl_id: GpadlId,
    pub offer_id: OfferId,
    pub gpadl: GpadlView,
}

impl View for GpadlEntry {
    type V = GpadlEntryView;

    open spec fn view(&self) -> GpadlEntryView {
        GpadlEntryView { gpadl_id: self.gpadl_id, offer_id: self.offer_id, gpadl: self.gpadl@ }
    }
}

/// The GPADLs of a server.
#[derive(Debug)]
pub struct GpadlMap {
    entries: Vec<GpadlEntry>,
}

impl View for GpadlMap {
    type V = Seq<GpadlEntryView>;

    closed spec fn view(&self) -> Seq<GpadlEntryView> {
        Seq::new(self.entries@.len(), |i: int| self.entries@[i]@)
    }
}

/// Tells which entries are for a GPADL ID and an offer.
pub open spec fn is_entry(gpadl_id: GpadlId, offer_id: OfferId) -> spec_fn(GpadlEntryView) -> bool {
    |entry: GpadlEntryView| entry.gpadl_id == gpadl_id && entry.offer_id == offer_id
}

/// There is a GPADL with the ID and the offer.
pub open spec fn has_entry(
    entries: Seq<GpadlEntryView>,
    gpadl_id: GpadlId,
    offer_id: OfferId,
) -> bool {
    crate::vmbus::search::first_where(entries, is_entry(gpadl_id, offer_id)) is Some
}

/// The GPADLs with one more, which takes the place of one with the same ID and offer.
pub open spec fn with_entry(entries: Seq<GpadlEntryView>, entry: GpadlEntryView) -> Seq<
    GpadlEntryView,
> {
    match crate::vmbus::search::first_where(entries, is_entry(entry.gpadl_id, entry.offer_id)) {
        Some(i) => entries.update(i, entry),
        None => entries.push(entry),
    }
}

/// No two entries are for the same ID and offer.
pub open spec fn entries_distinct(entries: Seq<GpadlEntryView>) -> bool {
    forall|i: int, j: int|
        0 <= i < j < entries.len() ==> (#[trigger] entries[i]).gpadl_id
            != (#[trigger] entries[j]).gpadl_id || entries[i].offer_id != entries[j].offer_id
}

impl GpadlMap {
    /// Makes a table without GPADLs.
    pub fn new() -> (map: GpadlMap)
        ensures
            map@ == Seq::<GpadlEntryView>::empty(),
    {
        let map = GpadlMap { entries: Vec::new() };
        assert(map@ =~= Seq::<GpadlEntryView>::empty());
        map
    }

    /// Returns the number of GPADLs.
    pub fn len(&self) -> (len: usize)
        ensures
            len == self@.len(),
    {
        self.entries.len()
    }

    /// Returns the GPADL at an index.
    pub fn entry(&self, i: usize) -> (entry: &GpadlEntry)
        requires
            i < self@.len(),
        ensures
            entry@ == self@[i as int],
    {
        &self.entries[i]
    }

    /// Adds a GPADL, and tells whether it took the place of another.
    pub fn insert(&mut self, gpadl_id: GpadlId, offer_id: OfferId, gpadl: Gpadl) -> (replaced: bool)
        ensures
            replaced == has_entry(old(self)@, gpadl_id, offer_id),
            final(self)@ == with_entry(
                old(self)@,
                GpadlEntryView { gpadl_id, offer_id, gpadl: gpadl@ },
            ),
            replaced <==> exists|i: int|
                0 <= i < old(self)@.len() && (#[trigger] old(self)@[i]).gpadl_id == gpadl_id
                    && old(self)@[i].offer_id == offer_id,
    {
        let ghost entries = self@;
        let ghost added = GpadlEntryView { gpadl_id, offer_id, gpadl: gpadl@ };
        let mut i: usize = 0;
        while i < self.entries.len()
            invariant
                0 <= i <= entries.len(),
                entries == old(self)@,
                entries == self@,
                added == (GpadlEntryView { gpadl_id, offer_id, gpadl: gpadl@ }),
                forall|j: int| 0 <= j < i ==> !is_entry(gpadl_id, offer_id)(#[trigger] entries[j]),
            decreases self.entries.len() - i,
        {
            if self.entries[i].gpadl_id == gpadl_id && self.entries[i].offer_id == offer_id {
                proof {
                    assert(entries[i as int] == self.entries@[i as int]@);
                    assert(old(self)@[i as int].gpadl_id == gpadl_id);
                    crate::vmbus::search::lemma_first_is(
                        entries,
                        is_entry(gpadl_id, offer_id),
                        i as int,
                    );
                }
                self.entries[i] = GpadlEntry { gpadl_id, offer_id, gpadl };
                assert(self@ =~= entries.update(i as int, added));
                return true;
            }
            i = i + 1;
        }
        proof {
            crate::vmbus::search::lemma_first_none(entries, is_entry(gpadl_id, offer_id));
            assert forall|j: int| 0 <= j < entries.len() implies (#[trigger] entries[j]).gpadl_id
                != gpadl_id || entries[j].offer_id != offer_id by {
                assert(!is_entry(gpadl_id, offer_id)(entries[j]));
            }
        }
        self.entries.push(GpadlEntry { gpadl_id, offer_id, gpadl });
        assert(self@ =~= entries.push(added));
        false
    }
}

} // verus!
