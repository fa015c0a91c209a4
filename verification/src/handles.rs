//! Generation-checked handles: an arena that owns objects and hands out
//! index handles whose validity survives no removal.
//!
//! A handle pairs a slot index with the generation the slot had when the
//! object was stored. Removing an object empties its slot and bumps the
//! slot's generation, so every handle to the removed object goes stale
//! and lookups through it miss instead of aliasing a newer object.

use vstd::prelude::*;

verus! {

/// This structure represents a handle to an engine object: the slot it
/// sits in and the generation it was stored under.
#[derive(Clone, Copy, PartialEq, Eq, Structural, Debug)]
pub struct Handle {
    pub index: usize,
    pub generation: u64,
}

impl Handle {
    pub fn create(index: usize, generation: u64) -> (r: Handle)
        ensures
            r == (Handle { index, generation }),
    {
        Handle { index, generation }
    }

    pub fn get_index(&self) -> (r: usize)
        ensures
            r == self.index,
    {
        self.index
    }
}

/// One arena slot: the object, while it lives, and the slot's current
/// generation.
#[derive(Clone, Debug)]
pub struct HandledObject<T> {
    pub value: Option<T>,
    pub generation: u64,
}

/// This is the container struct for handled object data: objects of one
/// type are added, and generation-checked handles come back to access
/// them.
#[derive(Debug)]
pub struct HandledData<T> {
    pub data: Vec<HandledObject<T>>,
}

impl<T> HandledData<T> {
    /// Whether the handle still names the object it was created for.
    pub open spec fn valid(self, handle: Handle) -> bool {
        &&& handle.index < self.data@.len()
        &&& self.data@[handle.index as int].generation == handle.generation
        &&& self.data@[handle.index as int].value is Some
    }

    pub fn new() -> (r: HandledData<T>)
        ensures
            r.data@.len() == 0,
    {
        HandledData { data: Vec::new() }
    }

    pub fn with_capacity(capacity: usize) -> (r: HandledData<T>)
        ensures
            r.data@.len() == 0,
    {
        HandledData { data: Vec::with_capacity(capacity) }
    }

    /// Wraps each element of the vector in a fresh slot, in order.
    pub fn from_vec(vec: Vec<T>) -> (r: HandledData<T>)
        ensures
            r.data@.len() == vec@.len(),
            forall|i: int|
                0 <= i < vec@.len() ==> (#[trigger] r.data@[i]).generation == 0
                    && r.data@[i].value == Option::Some(vec@[i]),
    {
        let mut vec = vec;
        let n = vec.len();
        let mut data: Vec<HandledObject<T>> = Vec::new();
        let ghost all = vec@;
        let mut i: usize = 0;
        while i < n
            invariant
                i <= n,
                n == all.len(),
                vec@ =~= all.skip(i as int),
                data@.len() == i as nat,
                forall|k: int|
                    0 <= k < i ==> (#[trigger] data@[k]).generation == 0 && data@[k].value
                        == Option::Some(all[k]),
            decreases n - i,
        {
            let value = vec.remove(0);
            proof {
                assert(value == all[i as int]);
                assert(vec@ =~= all.skip(i as int + 1));
            }
            data.push(HandledObject { value: Option::Some(value), generation: 0 });
            i = i + 1;
        }
        HandledData { data }
    }

    /// The number of slots, live or empty.
    pub fn len(&self) -> (r: usize)
        ensures
            r == self.data@.len(),
    {
        self.data.len()
    }

    /// Adds an object in a fresh slot; the returned handle accesses it
    /// until it is removed.
    pub fn push(&mut self, value: T) -> (handle: Handle)
        ensures
            handle.index == old(self).data@.len(),
            handle.generation == 0,
            final(self).data@ == old(self).data@.push(
                HandledObject { value: Option::Some(value), generation: 0 },
            ),
            final(self).valid(handle),
    {
        let index = self.data.len();
        self.data.push(HandledObject { value: Option::Some(value), generation: 0 });
        Handle { index, generation: 0 }
    }

    /// Looks the handle up: the object, while the handle is current, and
    /// nothing once the object was removed.
    pub fn get(&self, handle: Handle) -> (r: Option<&T>)
        ensures
            match r {
                Option::Some(v) => {
                    &&& self.valid(handle)
                    &&& Option::Some(*v) == self.data@[handle.index as int].value
                },
                Option::None => !self.valid(handle),
            },
    {
        if handle.index < self.data.len() {
            let slot = &self.data[handle.index];
            if slot.generation == handle.generation {
                return slot.value.as_ref();
            }
        }
        Option::None
    }

    /// Replaces the object a current handle names; a stale handle
    /// changes nothing and reports it.
    pub fn set(&mut self, handle: Handle, value: T) -> (r: bool)
        ensures
            r == old(self).valid(handle),
            r ==> final(self).data@ == old(self).data@.update(
                handle.index as int,
                HandledObject { value: Option::Some(value), generation: handle.generation },
            ),
            !r ==> *final(self) == *old(self),
    {
        if handle.index < self.data.len() {
            let generation = self.data[handle.index].generation;
            if generation == handle.generation {
                let is_live = self.data[handle.index].value.is_some();
                if is_live {
                    self.data.set(
                        handle.index,
                        HandledObject { value: Option::Some(value), generation },
                    );
                    return true;
                }
            }
        }
        false
    }

    /// Removes the object a current handle names. The slot's generation
    /// is bumped, so every handle to the removed object goes stale; a
    /// stale handle removes nothing.
    pub fn remove(&mut self, handle: Handle) -> (r: Option<T>)
        requires
            handle.generation < u64::MAX,
        ensures
            match r {
                Option::Some(v) => {
                    &&& old(self).valid(handle)
                    &&& Option::Some(v) == old(self).data@[handle.index as int].value
                    &&& final(self).data@ == old(self).data@.update(
                        handle.index as int,
                        HandledObject {
                            value: Option::None,
                            generation: (handle.generation + 1) as u64,
                        },
                    )
                    &&& !final(self).valid(handle)
                },
                Option::None => {
                    &&& !old(self).valid(handle)
                    &&& *final(self) == *old(self)
                },
            },
    {
        if handle.index < self.data.len() {
            let generation = self.data[handle.index].generation;
            let is_live = self.data[handle.index].value.is_some();
            if generation == handle.generation && is_live {
                let ghost pre = self.data@;
                let slot = self.data.remove(handle.index);
                self.data.insert(
                    handle.index,
                    HandledObject { value: Option::None, generation: generation + 1 },
                );
                proof {
                    assert(self.data@ =~= pre.update(
                        handle.index as int,
                        HandledObject::<T> {
                            value: Option::None,
                            generation: (handle.generation + 1) as u64,
                        },
                    ));
                }
                return slot.value;
            }
        }
        Option::None
    }

    /// The current handle of every live slot, in slot order.
    pub fn get_handles(&self) -> (r: Vec<Handle>)
        ensures
            forall|k: int|
                0 <= k < r@.len() ==> self.valid(#[trigger] r@[k]),
            forall|i: int|
                0 <= i < self.data@.len() && (#[trigger] self.data@[i]).value is Some
                    ==> exists|k: int|
                    0 <= k < r@.len() && (#[trigger] r@[k]).index == i,
    {
        let mut result: Vec<Handle> = Vec::new();
        let mut i: usize = 0;
        while i < self.data.len()
            invariant
                i <= self.data@.len(),
                forall|k: int| 0 <= k < result@.len() ==> self.valid(#[trigger] result@[k]),
                forall|j: int|
                    0 <= j < i && (#[trigger] self.data@[j]).value is Some ==> exists|k: int|
                        0 <= k < result@.len() && (#[trigger] result@[k]).index == j,
            decreases self.data@.len() - i,
        {
            let ghost pre_result = result@;
            let slot = &self.data[i];
            if slot.value.is_some() {
                let generation = slot.generation;
                result.push(Handle { index: i, generation });
            }
            proof {
                assert forall|j: int|
                    0 <= j < i + 1 && (#[trigger] self.data@[j]).value is Some implies exists|k: int|
                    0 <= k < result@.len() && (#[trigger] result@[k]).index == j by {
                    if j < i {
                        let k = choose|k: int|
                            0 <= k < pre_result.len() && (#[trigger] pre_result[k]).index == j;
                        assert(result@[k].index == j);
                    } else {
                        assert(result@[result@.len() - 1].index == i as int);
                    }
                }
            }
            i = i + 1;
        }
        result
    }
}

} // verus!
