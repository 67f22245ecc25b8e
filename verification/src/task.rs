//! Tasks that wait in the queue.
use vstd::prelude::*;

verus! {

/// A piece of work, bound to the zone where it is done.
#[derive(Debug, PartialEq)]
pub struct Task {
    pub id: u32,
    pub zone: u32,
    pub duration_ms: u64,
    pub description: String,
}

impl Clone for Task {
    fn clone(&self) -> (copy: Self)
        ensures
            copy == *self,
    {
        Task {
            id: self.id,
            zone: self.zone,
            duration_ms: self.duration_ms,
            description: self.description.clone(),
        }
    }
}

impl Task {
    /// A task with the given properties.
    pub fn new(id: u32, zone: u32, duration_ms: u64, description: &str) -> (task: Self)
        ensures
            task.id == id,
            task.zone == zone,
            task.duration_ms == duration_ms,
            task.description@ == description@,
    {
        Task { id, zone, duration_ms, description: description.to_owned() }
    }
}

} // verus!
