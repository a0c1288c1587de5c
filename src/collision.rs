use vstd::prelude::*;

use crate::trail::EntityId;

verus! {

/// Whether the substrate reports the start or the end of a contact.
#[derive(Clone, Copy, Debug, PartialEq, Eq, Structural)]
pub enum Phase {
    Started,
    Stopped,
}

/// A contact between two bodies, as the physics substrate reports it.
#[derive(Clone, Copy, Debug, PartialEq, Eq, Structural)]
pub struct CollisionEvent {
    pub first: EntityId,
    pub second: EntityId,
    pub phase: Phase,
}

/// The vehicle an event destroys: the vehicle of a vehicle-against-wall
/// contact. A contact of two vehicles, or of two walls, destroys nothing.
/// Both phases count alike.
pub open spec fn victim(vehicles: Seq<EntityId>, e: CollisionEvent) -> Option<EntityId> {
    if vehicles.contains(e.first) && !vehicles.contains(e.second) {
        Some(e.first)
    } else if !vehicles.contains(e.first) && vehicles.contains(e.second) {
        Some(e.second)
    } else {
        None
    }
}

/// The vehicle destroyed by the first fatal event of `events`, if any.
pub open spec fn first_victim(vehicles: Seq<EntityId>, events: Seq<CollisionEvent>) -> Option<EntityId>
    decreases events.len(),
{
    if events.len() == 0 {
        None
    } else {
        match victim(vehicles, events[0]) {
            Some(v) => Some(v),
            None => first_victim(vehicles, events.drop_first()),
        }
    }
}

/// Whether `e` is one of `vehicles`.
pub fn is_vehicle(vehicles: &Vec<EntityId>, e: EntityId) -> (r: bool)
    ensures
        r == vehicles@.contains(e),
{
    let mut i: usize = 0;
    while i < vehicles.len()
        invariant
            i <= vehicles@.len(),
            forall|j: int| 0 <= j < i ==> vehicles@[j] != e,
        decreases vehicles@.len() - i,
    {
        if vehicles[i] == e {
            return true;
        }
        i = i + 1;
    }
    false
}

/// The vehicle that one event destroys, if any.
pub fn event_victim(vehicles: &Vec<EntityId>, e: &CollisionEvent) -> (r: Option<EntityId>)
    ensures
        r == victim(vehicles@, *e),
{
    let first = is_vehicle(vehicles, e.first);
    let second = is_vehicle(vehicles, e.second);
    if first && !second {
        Some(e.first)
    } else if !first && second {
        Some(e.second)
    } else {
        None
    }
}

/// Drains the events of one tick in order and stops at the first fatal one:
/// at most one vehicle is destroyed per tick.
pub fn find_victim(vehicles: &Vec<EntityId>, events: &Vec<CollisionEvent>) -> (r: Option<EntityId>)
    ensures
        r == first_victim(vehicles@, events@),
{
    let n = events.len();
    let mut i: usize = 0;
    assert(events@.subrange(0, n as int) =~= events@);
    while i < n
        invariant
            n == events@.len(),
            i <= n,
            first_victim(vehicles@, events@) == first_victim(vehicles@, events@.subrange(i as int, n as int)),
        decreases n - i,
    {
        let rest = Ghost(events@.subrange(i as int, n as int));
        assert(rest@[0] == events@[i as int]);
        assert(rest@.drop_first() =~= events@.subrange(i + 1, n as int));
        let v = event_victim(vehicles, &events[i]);
        if v.is_some() {
            return v;
        }
        i = i + 1;
    }
    assert(events@.subrange(n as int, n as int).len() == 0);
    None
}

} // verus!
