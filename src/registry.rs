//! The registry of running room workers, keyed by room id.

use std::collections::HashMap;
use vstd::prelude::*;

verus! {

broadcast use vstd::std_specs::hash::group_hash_axioms;

/// Room id to the handle of the worker that serves it. At most one worker
/// runs per room.
pub struct RoomRegistry<H> {
    workers: HashMap<i64, H>,
}

impl<H> View for RoomRegistry<H> {
    type V = Map<i64, H>;

    closed spec fn view(&self) -> Map<i64, H> {
        self.workers@
    }
}

impl<H> RoomRegistry<H> {
    pub fn new() -> (r: Self)
        ensures
            r@ == Map::<i64, H>::empty(),
    {
        RoomRegistry { workers: HashMap::new() }
    }

    /// Whether a worker serves `room_id`.
    pub fn contains(&self, room_id: i64) -> (r: bool)
        ensures
            r == self@.contains_key(room_id),
    {
        self.workers.contains_key(&room_id)
    }

    /// Records the worker of a room that has none. Starting a room twice is
    /// a no-op: the existing worker stays, and `false` says so.
    pub fn start(&mut self, room_id: i64, handle: H) -> (r: bool)
        ensures
            r == !old(self)@.contains_key(room_id),
            r ==> final(self)@ == old(self)@.insert(room_id, handle),
            !r ==> final(self)@ == old(self)@,
    {
        if self.workers.contains_key(&room_id) {
            return false;
        }
        self.workers.insert(room_id, handle);
        true
    }

    /// Takes the worker of a room out of the registry, for the caller to
    /// signal and join. An absent room gives `None` and changes nothing.
    pub fn stop(&mut self, room_id: i64) -> (r: Option<H>)
        ensures
            final(self)@ == old(self)@.remove(room_id),
            old(self)@.contains_key(room_id) ==> r == Some(old(self)@[room_id]),
            !old(self)@.contains_key(room_id) ==> r is None,
    {
        self.workers.remove(&room_id)
    }

    /// Takes every worker out of the registry, for process teardown.
    pub fn shutdown_all(&mut self) -> (r: HashMap<i64, H>)
        ensures
            r@ == old(self)@,
            final(self)@ == Map::<i64, H>::empty(),
    {
        let mut all: HashMap<i64, H> = HashMap::new();
        std::mem::swap(&mut all, &mut self.workers);
        all
    }

    /// How many rooms have a worker.
    pub fn len(&self) -> (r: usize)
        ensures
            r == self@.len(),
    {
        self.workers.len()
    }
}

} // verus!
