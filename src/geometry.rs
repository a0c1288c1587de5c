use vstd::prelude::*;

verus! {

/// Largest per-tick displacement and largest half extent of a vehicle.
pub const MAX_EXTENT: i64 = 1048576;

/// Largest absolute coordinate at which a vehicle may still be moved.
pub const WORLD_LIMIT: i64 = 4611686018427387904;

/// The four axis-aligned headings. The y axis grows downwards.
#[derive(Clone, Copy, Debug, PartialEq, Eq, Structural)]
pub enum Direction {
    Left,
    Right,
    Down,
    Up,
}

/// A point of the plane in integer units.
#[derive(Clone, Copy, Debug, PartialEq, Eq, Structural)]
pub struct Point {
    pub x: i64,
    pub y: i64,
}

/// The heading that points the other way.
pub open spec fn opposite(d: Direction) -> Direction {
    match d {
        Direction::Left => Direction::Right,
        Direction::Right => Direction::Left,
        Direction::Down => Direction::Up,
        Direction::Up => Direction::Down,
    }
}

/// Horizontal part of a move of length `len` along `d`.
pub open spec fn step_dx(d: Direction, len: int) -> int {
    match d {
        Direction::Left => -len,
        Direction::Right => len,
        _ => 0,
    }
}

/// Vertical part of a move of length `len` along `d`.
pub open spec fn step_dy(d: Direction, len: int) -> int {
    match d {
        Direction::Up => -len,
        Direction::Down => len,
        _ => 0,
    }
}

/// Squared Euclidean distance between two points.
pub open spec fn dist_sq(a: Point, b: Point) -> int {
    (a.x - b.x) * (a.x - b.x) + (a.y - b.y) * (a.y - b.y)
}

impl Direction {
    /// The heading that points the other way.
    pub fn opposite(self) -> (r: Direction)
        ensures
            r == opposite(self),
    {
        match self {
            Direction::Left => Direction::Right,
            Direction::Right => Direction::Left,
            Direction::Down => Direction::Up,
            Direction::Up => Direction::Down,
        }
    }
}

/// Tunables of a round: per-tick displacement, half extents of the vehicle's
/// footprint, and how many trail segments are kept.
#[derive(Clone, Copy, Debug, PartialEq, Eq, Structural)]
pub struct Config {
    delta: i64,
    half_width: i64,
    half_height: i64,
    capacity: usize,
}

impl Config {
    pub open spec fn valid(delta: i64, half_width: i64, half_height: i64, capacity: usize) -> bool {
        &&& 0 < delta <= MAX_EXTENT
        &&& 0 <= half_width <= MAX_EXTENT
        &&& 0 <= half_height <= MAX_EXTENT
        &&& capacity >= 1
    }

    pub closed spec fn spec_delta(&self) -> i64 {
        self.delta
    }

    pub closed spec fn spec_half_width(&self) -> i64 {
        self.half_width
    }

    pub closed spec fn spec_half_height(&self) -> i64 {
        self.half_height
    }

    pub closed spec fn spec_capacity(&self) -> usize {
        self.capacity
    }

    pub open spec fn wf(&self) -> bool {
        Self::valid(self.spec_delta(), self.spec_half_width(), self.spec_half_height(), self.spec_capacity())
    }

    /// A configuration, or `None` where the displacement is not positive, an
    /// extent is negative or above `MAX_EXTENT`, or the capacity is zero.
    pub fn new(delta: i64, half_width: i64, half_height: i64, capacity: usize) -> (r: Option<Config>)
        ensures
            r is Some <==> Self::valid(delta, half_width, half_height, capacity),
            r matches Some(c) ==> {
                &&& c.spec_delta() == delta
                &&& c.spec_half_width() == half_width
                &&& c.spec_half_height() == half_height
                &&& c.spec_capacity() == capacity
            },
    {
        if 0 < delta && delta <= MAX_EXTENT && 0 <= half_width && half_width <= MAX_EXTENT
            && 0 <= half_height && half_height <= MAX_EXTENT && capacity >= 1 {
            Some(Config { delta, half_width, half_height, capacity })
        } else {
            None
        }
    }

    pub fn delta(&self) -> (r: i64)
        ensures
            r == self.spec_delta(),
    {
        self.delta
    }

    pub fn half_width(&self) -> (r: i64)
        ensures
            r == self.spec_half_width(),
    {
        self.half_width
    }

    pub fn half_height(&self) -> (r: i64)
        ensures
            r == self.spec_half_height(),
    {
        self.half_height
    }

    pub fn capacity(&self) -> (r: usize)
        ensures
            r == self.spec_capacity(),
    {
        self.capacity
    }
}

/// Horizontal offset, from the vehicle's center, of the segment laid behind
/// a vehicle heading `d`.
pub open spec fn behind_dx(d: Direction, c: Config) -> int {
    match d {
        Direction::Left => c.spec_delta() + c.spec_half_width(),
        Direction::Right => -(c.spec_delta() + c.spec_half_width()),
        _ => c.spec_half_height() as int,
    }
}

/// Vertical offset, from the vehicle's center, of the segment laid behind a
/// vehicle heading `d`.
pub open spec fn behind_dy(d: Direction, c: Config) -> int {
    match d {
        Direction::Up => c.spec_delta() + c.spec_half_width(),
        Direction::Down => -(c.spec_delta() + c.spec_half_width()),
        _ => c.spec_half_height() as int,
    }
}

/// A position far enough from the edge of `i64` for one more move.
pub open spec fn in_world(p: Point) -> bool {
    -WORLD_LIMIT <= p.x <= WORLD_LIMIT && -WORLD_LIMIT <= p.y <= WORLD_LIMIT
}

/// A position at most one move away from `in_world`.
pub open spec fn in_reach(p: Point) -> bool {
    &&& -(WORLD_LIMIT + 16 * MAX_EXTENT) <= p.x <= WORLD_LIMIT + 16 * MAX_EXTENT
    &&& -(WORLD_LIMIT + 16 * MAX_EXTENT) <= p.y <= WORLD_LIMIT + 16 * MAX_EXTENT
}

/// Center of the trail segment that fills the gap behind a vehicle at `p`
/// heading `d`: it lies against the vehicle's trailing edge, one tick's
/// displacement back.
pub fn segment_position(p: Point, d: Direction, c: &Config) -> (r: Point)
    requires
        c.wf(),
        in_reach(p),
    ensures
        r.x == p.x + behind_dx(d, *c),
        r.y == p.y + behind_dy(d, *c),
{
    let back = c.delta + c.half_width;
    match d {
        Direction::Left => Point { x: p.x + back, y: p.y + c.half_height },
        Direction::Right => Point { x: p.x - back, y: p.y + c.half_height },
        Direction::Down => Point { x: p.x + c.half_height, y: p.y - back },
        Direction::Up => Point { x: p.x + c.half_height, y: p.y + back },
    }
}

} // verus!
