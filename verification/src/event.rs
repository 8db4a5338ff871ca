//! Spatial events: recorded positions of activity at a logical time.
//!
//! Events are produced by the ingestion collaborator (which parses the
//! external log and converts positions to the caller's integer world
//! unit) and consumed read-only by the synthesis pass. The full event
//! sequence must be non-decreasing in `tick`; that ordering is the
//! supplier's responsibility and is stated as a precondition where the
//! synthesis consumes it.

use vstd::prelude::*;
use crate::geometry::in_world;

verus! {

/// One recorded position of activity at logical time `tick`.
#[derive(Clone, Copy, Debug, PartialEq, Eq, Structural)]
pub struct Event {
    pub tick: u64,
    pub x: i64,
    pub y: i64,
}

impl Event {
    /// Builds an event from a tick and a world position.
    pub fn new(tick: u64, x: i64, y: i64) -> (e: Event)
        ensures
            e.tick == tick,
            e.x == x,
            e.y == y,
    {
        Event { tick, x, y }
    }
}

/// The event's position lies within the world bounds the exact
/// geometry accepts.
pub open spec fn event_in_world(e: Event) -> bool {
    in_world(e.x as int) && in_world(e.y as int)
}

/// The sequence is non-decreasing in `tick`.
pub open spec fn events_sorted(es: Seq<Event>) -> bool {
    forall|i: int, j: int| 0 <= i <= j < es.len() ==> es[i].tick <= es[j].tick
}

/// Every event of the sequence lies within the world bounds.
pub open spec fn events_in_world(es: Seq<Event>) -> bool {
    forall|i: int| 0 <= i < es.len() ==> event_in_world(#[trigger] es[i])
}

} // verus!
