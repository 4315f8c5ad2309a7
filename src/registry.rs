use vstd::prelude::*;
use slotmap::{DefaultKey, Key, KeyData, SlotMap};

verus! {

/// Storage for task keys, kept in a `slotmap::SlotMap` that Verus does not see
/// into; what it holds is given by `slot_keys`.
#[verifier::external_body]
pub struct TaskSlots {
    map: SlotMap<DefaultKey, ()>,
}

/// The keys held by a slot map, each in the 64-bit form of `KeyData::as_ffi`.
pub uninterp spec fn slot_keys(m: TaskSlots) -> Set<u64>;

/// A 64-bit key form that `KeyData::from_ffi` maps back to the same value:
/// the version half is odd, as it is for every occupied slot.
pub open spec fn key_canonical(k: u64) -> bool {
    (k as int / 0x1_0000_0000) % 2 == 1
}

/// Relies on `SlotMap::new`: the map starts without keys.
#[verifier::external_body]
fn slots_new() -> (r: TaskSlots)
    ensures
        slot_keys(r) == Set::<u64>::empty(),
{
    TaskSlots { map: SlotMap::new() }
}

/// Relies on `SlotMap::insert` and `KeyData::as_ffi`: the key returned is
/// not yet in the map and is added to it. Slot 0 is never used, so a map with
/// `u32::MAX - 1` keys and no free slot panics on insert; fewer keys are
/// required.
#[verifier::external_body]
fn slots_insert(m: &mut TaskSlots) -> (r: u64)
    requires
        slot_keys(*old(m)).finite(),
        slot_keys(*old(m)).len() < 0xffff_fffe,
    ensures
        !slot_keys(*old(m)).contains(r),
        slot_keys(*final(m)) == slot_keys(*old(m)).insert(r),
        key_canonical(r),
{
    m.map.insert(()).data().as_ffi()
}

/// Relies on `SlotMap::remove` and `KeyData::from_ffi`: a key in the map is
/// removed; a canonical key not in the map leaves it unchanged.
#[verifier::external_body]
fn slots_remove(m: &mut TaskSlots, k: u64) -> (r: Option<()>)
    requires
        key_canonical(k),
    ensures
        r is Some == slot_keys(*old(m)).contains(k),
        slot_keys(*final(m)) == slot_keys(*old(m)).remove(k),
{
    m.map.remove(DefaultKey::from(KeyData::from_ffi(k)))
}

/// Relies on `SlotMap::len`: the number of keys in the map.
#[verifier::external_body]
fn slots_len(m: &TaskSlots) -> (r: usize)
    ensures
        r as nat == slot_keys(*m).len(),
{
    m.map.len()
}

/// Relies on `SlotMap::is_empty`: whether the map holds no key.
#[verifier::external_body]
fn slots_is_empty(m: &TaskSlots) -> (r: bool)
    ensures
        r == (slot_keys(*m) == Set::<u64>::empty()),
{
    m.map.is_empty()
}

/// The largest number of outstanding tasks one registry can track.
pub const MAX_TASKS: usize = 0xffff_fffe;

/// One unit of outstanding asynchronous work tracked by a boundary.
#[derive(Clone, Copy, Debug, PartialEq, Eq, Hash)]
pub struct TaskHandle {
    key: u64,
}

impl TaskHandle {
    /// The key under which the handle is registered.
    pub closed spec fn spec_key(&self) -> u64 {
        self.key
    }

    /// Every handle carries a key in canonical form.
    pub closed spec fn wf(&self) -> bool {
        key_canonical(self.key)
    }
}

/// The set of outstanding tasks of one suspense boundary.
pub struct TaskRegistry {
    slots: TaskSlots,
}

impl TaskRegistry {
    /// The keys of the outstanding tasks.
    pub closed spec fn view(&self) -> Set<u64> {
        slot_keys(self.slots)
    }

    pub closed spec fn wf(&self) -> bool {
        &&& slot_keys(self.slots).finite()
        &&& slot_keys(self.slots).len() <= MAX_TASKS
    }

    /// An empty registry.
    pub fn new() -> (r: Self)
        ensures
            r.wf(),
            r@ == Set::<u64>::empty(),
    {
        TaskRegistry { slots: slots_new() }
    }

    /// Records a new outstanding task and returns its handle.
    pub fn register(&mut self) -> (h: TaskHandle)
        requires
            old(self).wf(),
            old(self)@.len() < MAX_TASKS,
        ensures
            final(self).wf(),
            h.wf(),
            !old(self)@.contains(h.spec_key()),
            final(self)@ == old(self)@.insert(h.spec_key()),
    {
        let key = slots_insert(&mut self.slots);
        TaskHandle { key }
    }

    /// Removes a task; a handle that is no longer registered is ignored.
    /// Returns whether the handle was registered.
    pub fn unregister(&mut self, h: TaskHandle) -> (removed: bool)
        requires
            old(self).wf(),
            h.wf(),
        ensures
            final(self).wf(),
            removed == old(self)@.contains(h.spec_key()),
            final(self)@ == old(self)@.remove(h.spec_key()),
    {
        let r = slots_remove(&mut self.slots, h.key);
        r.is_some()
    }

    /// The number of outstanding tasks.
    pub fn len(&self) -> (n: usize)
        requires
            self.wf(),
        ensures
            n as nat == self@.len(),
    {
        slots_len(&self.slots)
    }

    /// Whether no task is outstanding.
    pub fn is_empty(&self) -> (r: bool)
        ensures
            r == (self@ == Set::<u64>::empty()),
    {
        slots_is_empty(&self.slots)
    }
}

} // verus!
