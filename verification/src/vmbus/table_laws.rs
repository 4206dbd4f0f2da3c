//! What the tables of a server answer, in terms of what they hold.

use super::channels::{Channel, OfferError, OfferId};
use super::protocol::{ChannelId, OfferKey, ProtocolView};
use super::saved_state;
use super::server::ServerView;
use super::tables::{GpadlEntry, GpadlEntryView};
use vstd::prelude::*;

verus! {

/// The first element that meets a condition meets it, and none before it does; and there is one
/// unless none meets it.
pub proof fn law_first_where<A>(s: Seq<A>, p: spec_fn(A) -> bool)
    ensures
        match crate::vmbus::search::first_where(s, p) {
            Some(i) => {
                &&& 0 <= i < s.len()
                &&& p(s[i])
                &&& forall|j: int| 0 <= j < i ==> !p(#[trigger] s[j])
            },
            None => forall|j: int| 0 <= j < s.len() ==> !p(#[trigger] s[j]),
        },
{
    crate::vmbus::search::lemma_first_where(s, p);
}

/// A slot has a key exactly if it holds an offer with that interface, instance and subchannel.
pub proof fn law_offers_key(key: OfferKey, slot: Option<Channel>)
    ensures
        crate::vmbus::tables::offers_key(key)(slot) <==> {
            &&& slot matches Some(channel)
            &&& channel.offer.interface_id == key.interface_id
            &&& channel.offer.instance_id == key.instance_id
            &&& channel.offer.subchannel_index == key.subchannel_index
        },
{
}

/// An ID names an offer exactly if its slot is there and is not free.
pub proof fn law_is_offer(slots: Seq<Option<Channel>>, offer_id: OfferId)
    ensures
        crate::vmbus::tables::is_offer(slots, offer_id) <==> offer_id.0 < slots.len()
            && slots[offer_id.0 as int] is Some,
{
}

/// A new offer goes to the first free slot, or behind the last if none is free. Nothing else
/// changes.
pub proof fn law_new_offer(slots: Seq<Option<Channel>>, channel: Channel)
    ensures
        ({
            let m = crate::vmbus::tables::next_offer(slots);
            let after = crate::vmbus::tables::with_offer(slots, channel);
            &&& 0 <= m <= slots.len()
            &&& m < slots.len() ==> slots[m] is None
            &&& forall|j: int| 0 <= j < m ==> #[trigger] slots[j] is Some
            &&& after.len() == (if m < slots.len() {
                slots.len()
            } else {
                slots.len() + 1
            })
            &&& after[m] == Some(channel)
            &&& forall|j: int| 0 <= j < slots.len() && j != m ==> #[trigger] after[j] == slots[j]
        }),
{
    let free = crate::vmbus::tables::is_free();
    crate::vmbus::search::lemma_first_where(slots, free);
    assert forall|j: int| 0 <= j < slots.len() implies free(#[trigger] slots[j]) == (slots[j]
        is None) by {}
}

/// Channel IDs are the numbers from one up to the size of the table. One that is in the table leads
/// to what it is assigned to, and can be assigned exactly if that is nothing. To assign it changes
/// nothing else.
pub proof fn law_channel_ids(assigned: Seq<Option<OfferId>>, id: ChannelId, offer_id: OfferId)
    ensures
        id.0 == 0 || id.0 > assigned.len() ==> {
            &&& crate::vmbus::tables::assigned_to(assigned, id) is None
            &&& crate::vmbus::tables::assign_error(assigned, id) == Some(
                OfferError::InvalidChannelId(id),
            )
        },
        1 <= id.0 <= assigned.len() ==> {
            &&& crate::vmbus::tables::assigned_to(assigned, id) == assigned[id.0 - 1]
            &&& assigned[id.0 - 1] is Some ==> crate::vmbus::tables::assign_error(assigned, id)
                == Some(OfferError::ChannelIdInUse(id))
            &&& assigned[id.0 - 1] is None ==> crate::vmbus::tables::assign_error(
                assigned,
                id,
            ) is None
            &&& crate::vmbus::tables::assigned_to(
                crate::vmbus::tables::with_assigned(assigned, id, offer_id),
                id,
            ) == Some(offer_id)
            &&& crate::vmbus::tables::with_assigned(assigned, id, offer_id).len() == assigned.len()
            &&& forall|k: int|
                0 <= k < assigned.len() && k != id.0 - 1
                    ==> #[trigger] crate::vmbus::tables::with_assigned(assigned, id, offer_id)[k]
                    == assigned[k]
        },
{
}

/// A GPADL is there exactly if an entry has both its ID and its offer. One that is added takes the
/// place of the first such entry, or goes behind the last if there is none. Nothing else changes.
pub proof fn law_gpadl_entries(entries: Seq<GpadlEntryView>, entry: GpadlEntryView)
    ensures
        ({
            let after = crate::vmbus::tables::with_entry(entries, entry);
            let there = exists|i: int|
                0 <= i < entries.len() && (#[trigger] entries[i]).gpadl_id == entry.gpadl_id
                    && entries[i].offer_id == entry.offer_id;
            &&& crate::vmbus::tables::has_entry(entries, entry.gpadl_id, entry.offer_id) <==> there
            &&& !there ==> after == entries.push(entry)
            &&& there ==> after.len() == entries.len()
            &&& forall|i: int|
                0 <= i < entries.len() ==> {
                    let first = {
                        &&& entries[i].gpadl_id == entry.gpadl_id
                        &&& entries[i].offer_id == entry.offer_id
                        &&& forall|j: int|
                            0 <= j < i ==> (#[trigger] entries[j]).gpadl_id != entry.gpadl_id
                                || entries[j].offer_id != entry.offer_id
                    };
                    &&& first ==> #[trigger] after[i] == entry
                    &&& !first ==> after[i] == entries[i]
                }
            &&& after.contains(entry)
        }),
{
    let p = crate::vmbus::tables::is_entry(entry.gpadl_id, entry.offer_id);
    crate::vmbus::search::lemma_first_where(entries, p);
    let after = crate::vmbus::tables::with_entry(entries, entry);
    match crate::vmbus::search::first_where(entries, p) {
        Some(i) => {
            assert(entries[i].gpadl_id == entry.gpadl_id);
            assert(after[i] == entry);
            assert forall|j: int| 0 <= j < i implies (#[trigger] entries[j]).gpadl_id
                != entry.gpadl_id || entries[j].offer_id != entry.offer_id by {
                assert(!p(entries[j]));
            }
        },
        None => {
            assert forall|i: int| 0 <= i < entries.len() implies (#[trigger] entries[i]).gpadl_id
                != entry.gpadl_id || entries[i].offer_id != entry.offer_id by {
                assert(!p(entries[i]));
            }
            assert(after[entries.len() as int] == entry);
        },
    }
}

/// The model of a GPADL in a table has what the GPADL has.
pub proof fn law_entry_model(entry: GpadlEntry)
    ensures
        entry@.gpadl_id == entry.gpadl_id,
        entry@.offer_id == entry.offer_id,
        entry@.gpadl == entry.gpadl@,
{
}

/// A saved channel is found by its whole key: it is the first of those that have the interface, the
/// instance and the subchannel alike, and none is found exactly if there is none with all three.
pub proof fn law_saved_key(saved: Seq<saved_state::Channel>, key: OfferKey)
    ensures
        match crate::vmbus::search::first_where(saved, crate::vmbus::saved_data::has_key(key)) {
            Some(i) => {
                &&& 0 <= i < saved.len()
                &&& saved[i].key.interface_id == key.interface_id
                &&& saved[i].key.instance_id == key.instance_id
                &&& saved[i].key.subchannel_index == key.subchannel_index
                &&& forall|j: int|
                    0 <= j < i ==> (#[trigger] saved[j]).key.interface_id != key.interface_id
                        || saved[j].key.instance_id != key.instance_id
                        || saved[j].key.subchannel_index != key.subchannel_index
            },
            None => forall|j: int|
                0 <= j < saved.len() ==> (#[trigger] saved[j]).key.interface_id != key.interface_id
                    || saved[j].key.instance_id != key.instance_id
                    || saved[j].key.subchannel_index != key.subchannel_index,
        },
{
    let p = crate::vmbus::saved_data::has_key(key);
    crate::vmbus::search::lemma_first_where(saved, p);
    assert forall|j: int| 0 <= j < saved.len() && !p(#[trigger] saved[j]) implies saved[j].key
        != key by {}
}

/// A server is well formed exactly if its slots can be counted, every channel ID that is assigned
/// and every GPADL leads to a slot with an offer, and no two GPADLs have the same ID and offer.
pub proof fn law_well_formed(server: ServerView)
    ensures
        server.wf() <==> {
            &&& server.channels.len() <= usize::MAX
            &&& forall|i: int|
                0 <= i < server.assigned.len() ==> (#[trigger] server.assigned[i] matches Some(
                    offer_id,
                ) ==> offer_id.0 < server.channels.len() && server.channels[offer_id.0 as int]
                    is Some)
            &&& forall|i: int|
                0 <= i < server.gpadls.len() ==> (#[trigger] server.gpadls[i]).offer_id.0
                    < server.channels.len() && server.channels[server.gpadls[i].offer_id.0 as int]
                    is Some
            &&& forall|i: int, j: int|
                0 <= i < j < server.gpadls.len() ==> (#[trigger] server.gpadls[i]).gpadl_id != (
                #[trigger] server.gpadls[j]).gpadl_id || server.gpadls[i].offer_id
                    != server.gpadls[j].offer_id
        },
{
    if server.wf() {
        assert forall|i: int| 0 <= i < server.gpadls.len() implies (
        #[trigger] server.gpadls[i]).offer_id.0 < server.channels.len()
            && server.channels[server.gpadls[i].offer_id.0 as int] is Some by {
            assert(crate::vmbus::tables::is_offer(server.channels, server.gpadls[i].offer_id));
        }
    }
}

/// A new server has a protocol and channel IDs, none of them in use, and nothing else.
pub proof fn law_fresh(protocol: ProtocolView, max_channels: nat)
    ensures
        ({
            let server = ServerView::fresh(protocol, max_channels);
            &&& server.protocol == protocol
            &&& server.state is Disconnected
            &&& server.channels.len() == 0
            &&& server.assigned.len() == max_channels
            &&& forall|k: int| 0 <= k < max_channels ==> #[trigger] server.assigned[k] is None
            &&& server.gpadls.len() == 0
            &&& server.incomplete == Map::<u32, OfferId>::empty()
            &&& server.pending_messages.len() == 0
        }),
{
}

} // verus!
