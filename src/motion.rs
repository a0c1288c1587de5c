use vstd::prelude::*;

use crate::geometry::{
    in_reach, in_world, opposite, step_dx, step_dy, Config, Direction, Point,
};

verus! {

/// Which of the four direction keys are held during a tick.
#[derive(Clone, Copy, Debug, PartialEq, Eq, Structural)]
pub struct Input {
    pub left: bool,
    pub right: bool,
    pub down: bool,
    pub up: bool,
}

/// Sense of a quarter turn, as seen on screen.
#[derive(Clone, Copy, Debug, PartialEq, Eq, Structural)]
pub enum Spin {
    Clockwise,
    CounterClockwise,
}

/// A half turn of the sprite about one of its own axes that goes with some
/// quarter turns, so that the sprite keeps facing the right way; it is
/// applied before or after the quarter turn.
#[derive(Clone, Copy, Debug, PartialEq, Eq, Structural)]
pub enum Flip {
    Keep,
    HalfTurnXBefore,
    HalfTurnXAfter,
    HalfTurnYAfter,
}

/// The rotation applied on the tick a vehicle changes heading: a quarter
/// turn about a pivot, given as an offset from the vehicle's center.
#[derive(Clone, Copy, Debug, PartialEq, Eq, Structural)]
pub struct Turn {
    pub pivot: Point,
    pub spin: Spin,
    pub flip: Flip,
}

/// A vehicle: its heading and the position of its center.
#[derive(Clone, Copy, Debug, PartialEq, Eq, Structural)]
pub struct Vehicle {
    pub direction: Direction,
    pub position: Point,
}

/// The heading after a tick with input `i`: the first held key, in the order
/// Left, Right, Down, Up, that does not reverse `d`; else `d` itself.
pub open spec fn steered(d: Direction, i: Input) -> Direction {
    if i.left && d != Direction::Right {
        Direction::Left
    } else if i.right && d != Direction::Left {
        Direction::Right
    } else if i.down && d != Direction::Up {
        Direction::Down
    } else if i.up && d != Direction::Down {
        Direction::Up
    } else {
        d
    }
}

/// The turn applied when the heading goes from `prev` to `new`; `None` when
/// it stays or would reverse.
pub open spec fn turn_table(prev: Direction, new: Direction, c: Config) -> Option<Turn> {
    let w = c.spec_half_width();
    let h = c.spec_half_height();
    match (new, prev) {
        (Direction::Left, Direction::Up) => Some(
            Turn { pivot: Point { x: 0, y: (w - h) as i64 }, spin: Spin::CounterClockwise, flip: Flip::HalfTurnXAfter },
        ),
        (Direction::Left, Direction::Down) => Some(
            Turn { pivot: Point { x: h, y: (-w) as i64 }, spin: Spin::Clockwise, flip: Flip::Keep },
        ),
        (Direction::Right, Direction::Up) => Some(
            Turn { pivot: Point { x: h, y: w }, spin: Spin::Clockwise, flip: Flip::Keep },
        ),
        (Direction::Right, Direction::Down) => Some(
            Turn { pivot: Point { x: 0, y: (-(w + h)) as i64 }, spin: Spin::CounterClockwise, flip: Flip::HalfTurnXAfter },
        ),
        (Direction::Down, Direction::Left) => Some(
            Turn { pivot: Point { x: w, y: h }, spin: Spin::CounterClockwise, flip: Flip::Keep },
        ),
        (Direction::Down, Direction::Right) => Some(
            Turn { pivot: Point { x: (-(w + h)) as i64, y: 0 }, spin: Spin::Clockwise, flip: Flip::HalfTurnYAfter },
        ),
        (Direction::Up, Direction::Left) => Some(
            Turn { pivot: Point { x: (w - h) as i64, y: 0 }, spin: Spin::Clockwise, flip: Flip::HalfTurnXBefore },
        ),
        (Direction::Up, Direction::Right) => Some(
            Turn { pivot: Point { x: (-w) as i64, y: h }, spin: Spin::CounterClockwise, flip: Flip::Keep },
        ),
        _ => None,
    }
}

/// Where a center at `p` goes under the quarter turn `t`. With `o` the
/// pivot's offset, the center's offset from the pivot is `-o`; a clockwise
/// quarter turn on screen (y down) takes `(a, b)` to `(-b, a)`, a
/// counter-clockwise one to `(b, -a)`.
pub open spec fn spun(p: Point, t: Turn) -> Point {
    match t.spin {
        Spin::Clockwise => Point {
            x: (p.x + t.pivot.x + t.pivot.y) as i64,
            y: (p.y + t.pivot.y - t.pivot.x) as i64,
        },
        Spin::CounterClockwise => Point {
            x: (p.x + t.pivot.x - t.pivot.y) as i64,
            y: (p.y + t.pivot.y + t.pivot.x) as i64,
        },
    }
}

/// Where a vehicle at `p` that heads `new` after heading `prev` ends a tick:
/// turned where the heading changed, then moved one displacement along `new`.
pub open spec fn moved(p: Point, prev: Direction, new: Direction, c: Config) -> Point {
    let q = match turn_table(prev, new, c) {
        Some(t) => spun(p, t),
        None => p,
    };
    Point {
        x: (q.x + step_dx(new, c.spec_delta() as int)) as i64,
        y: (q.y + step_dy(new, c.spec_delta() as int)) as i64,
    }
}

/// The heading after a tick with the keys `i` held.
pub fn steer(d: Direction, i: Input) -> (r: Direction)
    ensures
        r == steered(d, i),
        r != opposite(d),
{
    if i.left && d != Direction::Right {
        Direction::Left
    } else if i.right && d != Direction::Left {
        Direction::Right
    } else if i.down && d != Direction::Up {
        Direction::Down
    } else if i.up && d != Direction::Down {
        Direction::Up
    } else {
        d
    }
}

/// The turn for a change of heading from `prev` to `new`.
pub fn turn_for(prev: Direction, new: Direction, c: &Config) -> (r: Option<Turn>)
    requires
        c.wf(),
    ensures
        r == turn_table(prev, new, *c),
{
    let w = c.half_width();
    let h = c.half_height();
    match (new, prev) {
        (Direction::Left, Direction::Up) => Some(
            Turn { pivot: Point { x: 0, y: w - h }, spin: Spin::CounterClockwise, flip: Flip::HalfTurnXAfter },
        ),
        (Direction::Left, Direction::Down) => Some(
            Turn { pivot: Point { x: h, y: -w }, spin: Spin::Clockwise, flip: Flip::Keep },
        ),
        (Direction::Right, Direction::Up) => Some(
            Turn { pivot: Point { x: h, y: w }, spin: Spin::Clockwise, flip: Flip::Keep },
        ),
        (Direction::Right, Direction::Down) => Some(
            Turn { pivot: Point { x: 0, y: -(w + h) }, spin: Spin::CounterClockwise, flip: Flip::HalfTurnXAfter },
        ),
        (Direction::Down, Direction::Left) => Some(
            Turn { pivot: Point { x: w, y: h }, spin: Spin::CounterClockwise, flip: Flip::Keep },
        ),
        (Direction::Down, Direction::Right) => Some(
            Turn { pivot: Point { x: -(w + h), y: 0 }, spin: Spin::Clockwise, flip: Flip::HalfTurnYAfter },
        ),
        (Direction::Up, Direction::Left) => Some(
            Turn { pivot: Point { x: w - h, y: 0 }, spin: Spin::Clockwise, flip: Flip::HalfTurnXBefore },
        ),
        (Direction::Up, Direction::Right) => Some(
            Turn { pivot: Point { x: -w, y: h }, spin: Spin::CounterClockwise, flip: Flip::Keep },
        ),
        _ => None,
    }
}

/// Where a center at `p` goes under the turn `t`.
pub fn spin_about(p: Point, t: Turn) -> (r: Point)
    requires
        in_world(p),
        -4 * crate::geometry::MAX_EXTENT <= t.pivot.x <= 4 * crate::geometry::MAX_EXTENT,
        -4 * crate::geometry::MAX_EXTENT <= t.pivot.y <= 4 * crate::geometry::MAX_EXTENT,
    ensures
        r == spun(p, t),
{
    match t.spin {
        Spin::Clockwise => Point { x: p.x + t.pivot.x + t.pivot.y, y: p.y + t.pivot.y - t.pivot.x },
        Spin::CounterClockwise => Point {
            x: p.x + t.pivot.x - t.pivot.y,
            y: p.y + t.pivot.y + t.pivot.x,
        },
    }
}

impl Vehicle {
    /// One tick of motion: takes the heading the keys ask for, unless it
    /// would reverse; turns about the pivot of the table where the heading
    /// changed; then moves one displacement along the heading. Returns the
    /// turn that was applied.
    pub fn drive(&mut self, i: Input, c: &Config) -> (r: Option<Turn>)
        requires
            c.wf(),
            in_world(old(self).position),
        ensures
            final(self).direction == steered(old(self).direction, i),
            final(self).position == moved(old(self).position, old(self).direction, final(self).direction, *c),
            r == turn_table(old(self).direction, final(self).direction, *c),
            in_reach(final(self).position),
    {
        let prev = self.direction;
        let new = steer(prev, i);
        let turn = turn_for(prev, new, c);
        let q = match turn {
            Some(t) => spin_about(self.position, t),
            None => self.position,
        };
        let delta = c.delta();
        let p = match new {
            Direction::Left => Point { x: q.x - delta, y: q.y },
            Direction::Right => Point { x: q.x + delta, y: q.y },
            Direction::Down => Point { x: q.x, y: q.y + delta },
            Direction::Up => Point { x: q.x, y: q.y - delta },
        };
        self.direction = new;
        self.position = p;
        turn
    }
}

/// The heading a vehicle takes never reverses the one it had.
pub proof fn lemma_no_reversal(d: Direction, i: Input)
    ensures
        steered(d, i) != opposite(d),
{
}

/// Of the sixteen pairs of headings, exactly the eight that keep the heading
/// or reverse it turn nothing; each of the other eight has the one turn of
/// the table, with a pivot within the vehicle's reach.
pub proof fn lemma_turn_table(prev: Direction, new: Direction, c: Config)
    requires
        c.wf(),
    ensures
        turn_table(prev, new, c) is None <==> (new == prev || new == opposite(prev)),
        turn_table(prev, new, c) matches Some(t) ==> {
            &&& -2 * crate::geometry::MAX_EXTENT <= t.pivot.x <= 2 * crate::geometry::MAX_EXTENT
            &&& -2 * crate::geometry::MAX_EXTENT <= t.pivot.y <= 2 * crate::geometry::MAX_EXTENT
        },
{
}

} // verus!
