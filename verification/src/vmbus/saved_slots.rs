//! Which slots and entries of a server the saved channels and GPADLs come from.

use super::channels;
use super::server::ServerView;
use super::tables::GpadlEntryView;
use vstd::prelude::*;

verus! {

/// Each saved channel is that of a slot.
pub proof fn lemma_saved_channel_slot(
    slots: Seq<Option<channels::Channel>>,
    reserved_only: bool,
    j: int,
) -> (i: int)
    requires
        0 <= j < crate::vmbus::server::saved_channels(slots, reserved_only).len(),
    ensures
        0 <= i < slots.len(),
        crate::vmbus::server::saved_slot(slots[i], reserved_only) == Some(
            crate::vmbus::server::saved_channels(slots, reserved_only)[j],
        ),
    decreases slots.len(),
{
    let rest = crate::vmbus::server::saved_channels(slots.drop_last(), reserved_only);
    if j < rest.len() {
        lemma_saved_channel_slot(slots.drop_last(), reserved_only, j)
    } else {
        slots.len() - 1
    }
}

/// Two saved channels are those of two slots.
pub proof fn lemma_saved_channel_slots(
    slots: Seq<Option<channels::Channel>>,
    reserved_only: bool,
    j: int,
    k: int,
) -> (found: (int, int))
    requires
        0 <= j < k < crate::vmbus::server::saved_channels(slots, reserved_only).len(),
    ensures
        0 <= found.0 < found.1 < slots.len(),
        crate::vmbus::server::saved_slot(slots[found.0], reserved_only) == Some(
            crate::vmbus::server::saved_channels(slots, reserved_only)[j],
        ),
        crate::vmbus::server::saved_slot(slots[found.1], reserved_only) == Some(
            crate::vmbus::server::saved_channels(slots, reserved_only)[k],
        ),
    decreases slots.len(),
{
    let rest = crate::vmbus::server::saved_channels(slots.drop_last(), reserved_only);
    if k < rest.len() {
        lemma_saved_channel_slots(slots.drop_last(), reserved_only, j, k)
    } else {
        (lemma_saved_channel_slot(slots.drop_last(), reserved_only, j), slots.len() - 1)
    }
}

/// The channel of each slot that is saved is among those that are.
pub proof fn lemma_slot_is_saved(
    slots: Seq<Option<channels::Channel>>,
    reserved_only: bool,
    i: int,
) -> (j: int)
    requires
        0 <= i < slots.len(),
        crate::vmbus::server::saved_slot(slots[i], reserved_only) is Some,
    ensures
        0 <= j < crate::vmbus::server::saved_channels(slots, reserved_only).len(),
        crate::vmbus::server::saved_slot(slots[i], reserved_only) == Some(
            crate::vmbus::server::saved_channels(slots, reserved_only)[j],
        ),
    decreases slots.len(),
{
    let rest = crate::vmbus::server::saved_channels(slots.drop_last(), reserved_only);
    if i == slots.len() - 1 {
        rest.len() as int
    } else {
        lemma_slot_is_saved(slots.drop_last(), reserved_only, i)
    }
}

/// No more channels are saved than there are slots.
pub proof fn lemma_saved_channels_len(slots: Seq<Option<channels::Channel>>, reserved_only: bool)
    ensures
        crate::vmbus::server::saved_channels(slots, reserved_only).len() <= slots.len(),
    decreases slots.len(),
{
    if slots.len() > 0 {
        lemma_saved_channels_len(slots.drop_last(), reserved_only);
    }
}

/// Each saved GPADL is that of an entry.
pub proof fn lemma_saved_gpadl_entry(
    entries: Seq<GpadlEntryView>,
    slots: Seq<Option<channels::Channel>>,
    j: int,
) -> (i: int)
    requires
        0 <= j < crate::vmbus::server::saved_gpadls(entries, slots).len(),
    ensures
        0 <= i < entries.len(),
        crate::vmbus::server::saved_entry(entries[i], slots) == Some(
            crate::vmbus::server::saved_gpadls(entries, slots)[j],
        ),
    decreases entries.len(),
{
    let rest = crate::vmbus::server::saved_gpadls(entries.drop_last(), slots);
    if j < rest.len() {
        lemma_saved_gpadl_entry(entries.drop_last(), slots, j)
    } else {
        entries.len() - 1
    }
}

/// Two saved GPADLs are those of two entries.
pub proof fn lemma_saved_gpadl_entries(
    entries: Seq<GpadlEntryView>,
    slots: Seq<Option<channels::Channel>>,
    j: int,
    k: int,
) -> (found: (int, int))
    requires
        0 <= j < k < crate::vmbus::server::saved_gpadls(entries, slots).len(),
    ensures
        0 <= found.0 < found.1 < entries.len(),
        crate::vmbus::server::saved_entry(entries[found.0], slots) == Some(
            crate::vmbus::server::saved_gpadls(entries, slots)[j],
        ),
        crate::vmbus::server::saved_entry(entries[found.1], slots) == Some(
            crate::vmbus::server::saved_gpadls(entries, slots)[k],
        ),
    decreases entries.len(),
{
    let rest = crate::vmbus::server::saved_gpadls(entries.drop_last(), slots);
    if k < rest.len() {
        lemma_saved_gpadl_entries(entries.drop_last(), slots, j, k)
    } else {
        (lemma_saved_gpadl_entry(entries.drop_last(), slots, j), entries.len() - 1)
    }
}

/// The saved form of each GPADL that is saved is among those that are.
pub proof fn lemma_entry_is_saved(
    entries: Seq<GpadlEntryView>,
    slots: Seq<Option<channels::Channel>>,
    i: int,
) -> (j: int)
    requires
        0 <= i < entries.len(),
        crate::vmbus::server::saved_entry(entries[i], slots) is Some,
    ensures
        0 <= j < crate::vmbus::server::saved_gpadls(entries, slots).len(),
        crate::vmbus::server::saved_entry(entries[i], slots) == Some(
            crate::vmbus::server::saved_gpadls(entries, slots)[j],
        ),
    decreases entries.len(),
{
    let rest = crate::vmbus::server::saved_gpadls(entries.drop_last(), slots);
    if i == entries.len() - 1 {
        rest.len() as int
    } else {
        lemma_entry_is_saved(entries.drop_last(), slots, i)
    }
}

/// Without a connection only reserved channels are saved, and with one the client ID is saved: what
/// is saved is as it is saved today.
pub proof fn law_save_is_normal(server: ServerView)
    ensures
        crate::vmbus::restore_laws::only_reserved(server.save().state),
        crate::vmbus::restore_laws::normalized(server.save()) == server.save(),
{
    let saved = server.save().state;
    if saved.connection is None {
        assert forall|j: int|
            0 <= j < saved.channels.len() implies crate::vmbus::restore_laws::saved_is_reserved(
            (#[trigger] saved.channels[j]).state,
        ) by {
            let i = lemma_saved_channel_slot(server.channels, true, j);
        }
    }
}

} // verus!
