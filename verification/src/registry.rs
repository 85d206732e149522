//! The registry of live sessions: which handle reaches which device.
//!
//! Every registration is numbered. A session that knows the number of its own
//! registration can withdraw it without touching a later one of the same
//! device.

use vstd::prelude::*;
use std::collections::HashMap;
use crate::handle::OutboundHandle;
use crate::protocol::WsOutputData;

verus! {

broadcast use vstd::std_specs::hash::group_hash_axioms;

/// One entry of the registry: a handle and the number of its registration.
struct Registration {
    generation: u64,
    handle: OutboundHandle,
}

/// The handle that `entries` holds for `device_id`, if it holds one.
pub open spec fn entry_of(entries: Map<i64, OutboundHandle>, device_id: i64) -> Option<
    OutboundHandle,
> {
    if entries.contains_key(device_id) {
        Some(entries[device_id])
    } else {
        None
    }
}

/// Whether the registration of `device_id` is the one numbered `generation`.
pub open spec fn is_current(generations: Map<i64, u64>, device_id: i64, generation: u64) -> bool {
    generations.contains_key(device_id) && generations[device_id] == generation
}

/// The number that follows `issued`; the count stops at `u64::MAX`.
pub open spec fn next_generation(issued: u64) -> u64 {
    if issued < u64::MAX {
        (issued + 1) as u64
    } else {
        u64::MAX
    }
}

/// Whether every registration carries a number that has been given out
/// already. Nothing is said once the count has reached `u64::MAX`.
pub open spec fn well_numbered(generations: Map<i64, u64>, issued: u64) -> bool {
    issued < u64::MAX ==> forall|id: i64|
        generations.contains_key(id) ==> #[trigger] generations[id] < issued
}

/// The entries after the devices `ids` have registered, one after the other,
/// the handles `handles`: the device `ids[i]` registers `handles[i]`.
pub open spec fn register_all(
    entries: Map<i64, OutboundHandle>,
    ids: Seq<i64>,
    handles: Seq<OutboundHandle>,
) -> Map<i64, OutboundHandle>
    decreases ids.len(),
{
    if ids.len() == 0 {
        entries
    } else {
        register_all(entries, ids.drop_last(), handles.drop_last()).insert(
            ids.last(),
            handles.last(),
        )
    }
}

/// Maps a device identity to the handle of its current session. A device has
/// at most one entry; a later registration replaces an earlier one.
pub struct SessionRegistry {
    sessions: HashMap<i64, Registration>,
    issued: u64,
}

impl View for SessionRegistry {
    type V = Map<i64, OutboundHandle>;

    closed spec fn view(&self) -> Map<i64, OutboundHandle> {
        Map::new(
            |id: i64| self.sessions@.contains_key(id),
            |id: i64| self.sessions@[id].handle,
        )
    }
}

impl SessionRegistry {
    /// The number of each device's registration.
    pub closed spec fn generations(&self) -> Map<i64, u64> {
        Map::new(
            |id: i64| self.sessions@.contains_key(id),
            |id: i64| self.sessions@[id].generation,
        )
    }

    /// The number that the next registration gets.
    pub closed spec fn issued(&self) -> u64 {
        self.issued
    }

    /// A registry without entries.
    pub fn new() -> (registry: SessionRegistry)
        ensures
            registry@ == Map::<i64, OutboundHandle>::empty(),
            registry.generations() == Map::<i64, u64>::empty(),
            registry.issued() == 0,
            well_numbered(registry.generations(), registry.issued()),
    {
        let registry = SessionRegistry { sessions: HashMap::new(), issued: 0 };
        registry
    }

    /// The number of registered devices.
    pub fn len(&self) -> (count: usize)
        ensures
            self@.dom().finite(),
            count == self@.len(),
    {
        assert(self@.dom() =~= self.sessions@.dom());
        self.sessions.len()
    }

    /// Registers `handle` for `device_id`, replacing any entry that the device
    /// had, and numbers the registration. Returns the replaced handle.
    pub fn register(&mut self, device_id: i64, handle: OutboundHandle) -> (previous: Option<
        OutboundHandle,
    >)
        ensures
            final(self)@ == old(self)@.insert(device_id, handle),
            previous == entry_of(old(self)@, device_id),
            final(self).generations() == old(self).generations().insert(
                device_id,
                old(self).issued(),
            ),
            final(self).issued() == next_generation(old(self).issued()),
            well_numbered(old(self).generations(), old(self).issued()) ==> well_numbered(
                final(self).generations(),
                final(self).issued(),
            ),
    {
        let generation = self.issued;
        if self.issued < u64::MAX {
            self.issued = self.issued + 1;
        }
        let replaced = self.sessions.insert(device_id, Registration { generation, handle });
        match replaced {
            Some(registration) => Some(registration.handle),
            None => None,
        }
    }

    /// The handle registered for `device_id`, if the device has a session.
    pub fn lookup(&self, device_id: i64) -> (found: Option<&OutboundHandle>)
        ensures
            match found {
                Some(handle) => entry_of(self@, device_id) == Some(*handle),
                None => entry_of(self@, device_id) is None,
            },
    {
        match self.sessions.get(&device_id) {
            Some(registration) => Some(&registration.handle),
            None => None,
        }
    }

    /// The number of the registration of `device_id`, if the device has a
    /// session.
    pub fn generation(&self, device_id: i64) -> (found: Option<u64>)
        ensures
            found == (if self.generations().contains_key(device_id) {
                Some(self.generations()[device_id])
            } else {
                None
            }),
            self.generations().dom() == self@.dom(),
    {
        match self.sessions.get(&device_id) {
            Some(registration) => Some(registration.generation),
            None => None,
        }
    }

    /// Removes the entry of `device_id`, whichever session registered it.
    pub fn remove(&mut self, device_id: i64)
        ensures
            final(self)@ == old(self)@.remove(device_id),
            final(self).generations() == old(self).generations().remove(device_id),
            final(self).issued() == old(self).issued(),
            well_numbered(old(self).generations(), old(self).issued()) ==> well_numbered(
                final(self).generations(),
                final(self).issued(),
            ),
    {
        let _ = self.sessions.remove(&device_id);
    }

    /// Removes the entry of `device_id` if it is the registration numbered
    /// `generation`, and says whether it did. A later registration of the
    /// device stays.
    pub fn remove_registration(&mut self, device_id: i64, generation: u64) -> (removed: bool)
        ensures
            removed == is_current(old(self).generations(), device_id, generation),
            final(self).issued() == old(self).issued(),
            removed ==> final(self)@ == old(self)@.remove(device_id) && final(self).generations()
                == old(self).generations().remove(device_id),
            !removed ==> final(self)@ == old(self)@ && final(self).generations() == old(
                self,
            ).generations(),
            well_numbered(old(self).generations(), old(self).issued()) ==> well_numbered(
                final(self).generations(),
                final(self).issued(),
            ),
    {
        let current = match self.sessions.get(&device_id) {
            Some(registration) => registration.generation == generation,
            None => false,
        };
        if current {
            self.remove(device_id);
        }
        current
    }

    /// Hands `msg` to the session of `device_id`. Returns whether a session
    /// was registered and its handle took the message.
    pub fn send(&self, device_id: i64, msg: WsOutputData) -> (delivered: bool)
        ensures
            delivered ==> self@.contains_key(device_id),
    {
        let attempt = match self.lookup(device_id) {
            Some(handle) => Some(handle.deliver(msg)),
            None => None,
        };
        reached_session(attempt)
    }
}

/// Whether a command reached a live session, given what became of the
/// attempt: `None` where the device had no entry, else how the delivery
/// through its handle ended.
pub open spec fn reached(attempt: Option<Result<(), WsOutputData>>) -> bool {
    attempt matches Some(Ok(_))
}

/// Says whether a command reached a live session, from what became of the
/// attempt to send it: it did where a handle was found and took the message.
pub fn reached_session(attempt: Option<Result<(), WsOutputData>>) -> (delivered: bool)
    ensures
        delivered == reached(attempt),
{
    match attempt {
        Some(Ok(_)) => true,
        _ => false,
    }
}

/// Last writer wins: when a device registers twice, a lookup finds the second
/// handle, and the registry is as if the first registration had never been.
/// Other devices keep their entries.
pub proof fn lemma_last_registration_wins(
    entries: Map<i64, OutboundHandle>,
    device_id: i64,
    first: OutboundHandle,
    second: OutboundHandle,
)
    ensures
        entry_of(entries.insert(device_id, first).insert(device_id, second), device_id) == Some(
            second,
        ),
        entries.insert(device_id, first).insert(device_id, second) == entries.insert(
            device_id,
            second,
        ),
        forall|other: i64|
            other != device_id ==> entry_of(
                entries.insert(device_id, first).insert(device_id, second),
                other,
            ) == #[trigger] entry_of(entries, other),
{
    assert(entries.insert(device_id, first).insert(device_id, second) =~= entries.insert(
        device_id,
        second,
    ));
}

/// A device has at most one entry: registering it anew adds no second one.
pub proof fn lemma_one_entry_per_device(
    entries: Map<i64, OutboundHandle>,
    device_id: i64,
    handle: OutboundHandle,
)
    requires
        entries.dom().finite(),
    ensures
        entries.insert(device_id, handle).dom().finite(),
        entries.insert(device_id, handle).len() == if entries.contains_key(device_id) {
            entries.len()
        } else {
            entries.len() + 1
        },
{
}

/// After a removal a lookup of the device finds nothing, and every other
/// device keeps its entry.
pub proof fn lemma_removed_device_is_unknown(entries: Map<i64, OutboundHandle>, device_id: i64)
    ensures
        entry_of(entries.remove(device_id), device_id) is None,
        forall|other: i64|
            other != device_id ==> entry_of(entries.remove(device_id), other) == #[trigger] entry_of(
                entries,
                other,
            ),
{
}

/// A session that has been superseded no longer holds the current
/// registration: once its device has registered again, the number of the
/// earlier registration is not the current one, so withdrawing the earlier
/// registration leaves the later one in place.
pub proof fn lemma_superseded_registration_is_not_current(
    generations: Map<i64, u64>,
    issued: u64,
    device_id: i64,
    earlier: u64,
)
    requires
        well_numbered(generations, issued),
        issued < u64::MAX,
        is_current(generations, device_id, earlier),
    ensures
        !is_current(generations.insert(device_id, issued), device_id, earlier),
        is_current(generations.insert(device_id, issued), device_id, issued),
        well_numbered(generations.insert(device_id, issued), next_generation(issued)),
{
}

/// When distinct devices register, in whatever order, with an empty registry
/// to start from, the registry ends with one entry for each of them, and each
/// device is mapped to the handle that it registered itself.
pub proof fn lemma_distinct_registrations(ids: Seq<i64>, handles: Seq<OutboundHandle>)
    requires
        ids.len() == handles.len(),
        ids.no_duplicates(),
    ensures
        register_all(Map::empty(), ids, handles).dom().finite(),
        register_all(Map::empty(), ids, handles).len() == ids.len(),
        register_all(Map::empty(), ids, handles).dom() == ids.to_set(),
        forall|i: int|
            0 <= i < ids.len() ==> entry_of(
                register_all(Map::empty(), ids, handles),
                #[trigger] ids[i],
            ) == Some(handles[i]),
    decreases ids.len(),
{
    if ids.len() > 0 {
        let earlier = ids.drop_last();
        lemma_distinct_registrations(earlier, handles.drop_last());
        assert forall|j: int| 0 <= j < earlier.len() implies earlier[j] == ids[j] && earlier[j]
            != ids.last() by {}
        assert(!earlier.to_set().contains(ids.last()));
        assert(ids.to_set() =~= earlier.to_set().insert(ids.last())) by {
            assert(ids =~= earlier.push(ids.last()));
        }
    }
}

} // verus!
