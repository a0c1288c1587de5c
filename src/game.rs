use vstd::prelude::*;

use crate::collision::{find_victim, first_victim, CollisionEvent};
use crate::geometry::{behind_dx, behind_dy, dist_sq, in_world, step_dx, step_dy, Config, Direction, Point};
use crate::motion::{moved, steered, turn_table, Input, Turn, Vehicle};
use crate::trail::{grown, EntityId, Segment, Trail};

verus! {

/// The round's state: it starts in `InGame`; `Dead` is terminal.
#[derive(Clone, Copy, Debug, PartialEq, Eq, Structural)]
pub enum GameState {
    InGame,
    Dead,
}

/// The player's vehicle together with its body and its trail.
pub struct Rider {
    id: EntityId,
    vehicle: Vehicle,
    trail: Trail,
}

/// What is known of the player's vehicle, as values.
pub struct RiderView {
    pub id: EntityId,
    pub vehicle: Vehicle,
    pub segs: Seq<Segment>,
    pub cap: nat,
}

/// What is known of a round, as values.
pub struct GameView {
    pub state: GameState,
    pub rider: Option<RiderView>,
    pub config: Config,
}

/// What one tick did: the turn applied, the segment laid behind the vehicle
/// and the segment removed from the back of the trail. The caller gives the
/// laid segment a body, turns the sprite, and destroys the removed one.
#[derive(Clone, Copy, Debug, PartialEq, Eq)]
pub struct TickOutcome {
    pub turn: Option<Turn>,
    pub laid: Option<Segment>,
    pub evicted: Option<Segment>,
}

/// A round: the state machine, the player's vehicle while it lives, and
/// the tunables.
pub struct Game {
    state: GameState,
    rider: Option<Rider>,
    config: Config,
}

/// Center of the segment laid behind a vehicle at `p` heading `d`.
pub open spec fn segment_at(p: Point, d: Direction, c: Config) -> Point {
    Point { x: (p.x + behind_dx(d, c)) as i64, y: (p.y + behind_dy(d, c)) as i64 }
}

impl GameView {
    pub open spec fn wf(self) -> bool {
        &&& self.config.wf()
        &&& self.state == GameState::Dead ==> self.rider is None
        &&& self.rider matches Some(r) ==> {
            &&& r.cap == self.config.spec_capacity()
            &&& r.segs.len() <= r.cap
            &&& r.segs.len() > 0 ==> r.segs[0].pos == segment_at(r.vehicle.position, r.vehicle.direction, self.config)
        }
    }

    /// The vehicle, if any, is far enough from the edge of the plane to move.
    pub open spec fn movable(self) -> bool {
        self.rider matches Some(r) ==> in_world(r.vehicle.position)
    }

    /// The round after one tick of motion with the keys `i` held, the new
    /// segment taking the body `h`. Nothing moves once the round is over or
    /// when there is no vehicle.
    pub open spec fn ticked(self, i: Input, h: EntityId) -> GameView {
        match self.rider {
            Some(r) if self.state == GameState::InGame => {
                let d = steered(r.vehicle.direction, i);
                let p = moved(r.vehicle.position, r.vehicle.direction, d, self.config);
                let s = Segment { handle: h, pos: segment_at(p, d, self.config) };
                GameView {
                    rider: Some(RiderView {
                        vehicle: Vehicle { direction: d, position: p },
                        segs: grown(r.segs, r.cap, s),
                        ..r
                    }),
                    ..self
                }
            },
            _ => self,
        }
    }

    /// The vehicle that collision resolution destroys this tick.
    pub open spec fn destroyed(self, vehicles: Seq<EntityId>, events: Seq<CollisionEvent>) -> Option<EntityId> {
        if self.state == GameState::InGame && self.rider is Some {
            first_victim(vehicles, events)
        } else {
            None
        }
    }

    /// The round after collision resolution: where the player's vehicle is
    /// the one destroyed, it is gone and the round is over.
    pub open spec fn collided(self, vehicles: Seq<EntityId>, events: Seq<CollisionEvent>) -> GameView {
        match (self.rider, self.destroyed(vehicles, events)) {
            (Some(r), Some(v)) if v == r.id => GameView { state: GameState::Dead, rider: None, ..self },
            _ => self,
        }
    }
}

impl View for Game {
    type V = GameView;

    closed spec fn view(&self) -> GameView {
        GameView {
            state: self.state,
            rider: match self.rider {
                Some(r) => Some(RiderView { id: r.id, vehicle: r.vehicle, segs: r.trail.segs(), cap: r.trail.cap() }),
                None => None,
            },
            config: self.config,
        }
    }
}

impl Game {
    pub closed spec fn wf(&self) -> bool {
        &&& self@.wf()
        &&& self.rider matches Some(r) ==> r.trail.wf()
    }

    /// A round in `InGame`, with the player's vehicle `id` at `start`
    /// heading `d` and an empty trail.
    pub fn new(config: Config, id: EntityId, start: Point, d: Direction) -> (r: Game)
        requires
            config.wf(),
        ensures
            r.wf(),
            r@.state == GameState::InGame,
            r@.config == config,
            r@.rider == Some(RiderView {
                id,
                vehicle: Vehicle { direction: d, position: start },
                segs: Seq::<Segment>::empty(),
                cap: config.spec_capacity() as nat,
            }),
    {
        let trail = Trail::new(config.capacity());
        Game {
            state: GameState::InGame,
            rider: Some(Rider { id, vehicle: Vehicle { direction: d, position: start }, trail }),
            config,
        }
    }

    pub fn state(&self) -> (r: GameState)
        ensures
            r == self@.state,
    {
        self.state
    }

    pub fn config(&self) -> (r: Config)
        ensures
            r == self@.config,
    {
        self.config
    }

    /// The body of the player's vehicle, while it lives.
    pub fn player(&self) -> (r: Option<EntityId>)
        ensures
            r == (match self@.rider {
                Some(v) => Some(v.id),
                None => None::<EntityId>,
            }),
    {
        match &self.rider {
            Some(r) => Some(r.id),
            None => None,
        }
    }

    /// The player's vehicle, while it lives.
    pub fn vehicle(&self) -> (r: Option<Vehicle>)
        ensures
            r == (match self@.rider {
                Some(v) => Some(v.vehicle),
                None => None::<Vehicle>,
            }),
    {
        match &self.rider {
            Some(r) => Some(r.vehicle),
            None => None,
        }
    }

    /// The segments of the player's trail, newest first; empty once the
    /// vehicle is gone.
    pub fn trail(&self) -> (r: Vec<Segment>)
        ensures
            r@ == (match self@.rider {
                Some(v) => v.segs,
                None => Seq::<Segment>::empty(),
            }),
    {
        match &self.rider {
            Some(r) => r.trail.segments(),
            None => Vec::new(),
        }
    }

    /// Whether the vehicle, if any, is far enough from the edge of the
    /// plane for another tick.
    pub fn movable(&self) -> (r: bool)
        ensures
            r == self@.movable(),
    {
        match &self.rider {
            Some(r) => {
                let p = r.vehicle.position;
                -crate::geometry::WORLD_LIMIT <= p.x && p.x <= crate::geometry::WORLD_LIMIT
                    && -crate::geometry::WORLD_LIMIT <= p.y && p.y <= crate::geometry::WORLD_LIMIT
            },
            None => true,
        }
    }

    /// One tick of motion: steer by the keys held, turn and move the vehicle,
    /// and lay a segment with the body `h` behind it. A silent no-op once the
    /// round is over or when there is no vehicle.
    pub fn tick(&mut self, i: Input, h: EntityId) -> (r: TickOutcome)
        requires
            old(self).wf(),
            old(self)@.movable(),
        ensures
            final(self).wf(),
            final(self)@ == old(self)@.ticked(i, h),
            old(self)@.state == GameState::Dead ==> final(self)@ == old(self)@ && r == (TickOutcome { turn: None, laid: None, evicted: None }),
            match old(self)@.rider {
                Some(v) if old(self)@.state == GameState::InGame => {
                    let d = steered(v.vehicle.direction, i);
                    let p = moved(v.vehicle.position, v.vehicle.direction, d, old(self)@.config);
                    &&& r.turn == turn_table(v.vehicle.direction, d, old(self)@.config)
                    &&& r.laid == Some(Segment { handle: h, pos: segment_at(p, d, old(self)@.config) })
                    &&& r.evicted == if v.segs.len() == v.cap { Some(v.segs.last()) } else { None::<Segment> }
                },
                _ => r == (TickOutcome { turn: None, laid: None, evicted: None }),
            },
    {
        let idle = TickOutcome { turn: None, laid: None, evicted: None };
        match self.state {
            GameState::Dead => {
                return idle;
            },
            GameState::InGame => {},
        }
        let config = self.config;
        match &mut self.rider {
            Some(rider) => {
                let turn = rider.vehicle.drive(i, &config);
                let evicted = rider.trail.grow(rider.vehicle.position, rider.vehicle.direction, &config, h);
                let pos = crate::geometry::segment_position(rider.vehicle.position, rider.vehicle.direction, &config);
                TickOutcome { turn, laid: Some(Segment { handle: h, pos }), evicted }
            },
            None => idle,
        }
    }

    /// Collision resolution for one tick, given the bodies that are vehicles
    /// and the events in arrival order. Returns the vehicle to destroy; where
    /// it is the player's, the round is over. Nothing happens once the round
    /// is over or when there is no player.
    pub fn collide(&mut self, vehicles: &Vec<EntityId>, events: &Vec<CollisionEvent>) -> (r: Option<EntityId>)
        requires
            old(self).wf(),
        ensures
            final(self).wf(),
            final(self)@ == old(self)@.collided(vehicles@, events@),
            r == old(self)@.destroyed(vehicles@, events@),
            old(self)@.state == GameState::Dead ==> final(self)@ == old(self)@ && r is None,
    {
        match self.state {
            GameState::Dead => {
                return None;
            },
            GameState::InGame => {},
        }
        let player = match &self.rider {
            Some(r) => r.id,
            None => {
                return None;
            },
        };
        let victim = find_victim(vehicles, events);
        match victim {
            Some(v) => {
                if v == player {
                    self.rider = None;
                    self.state = GameState::Dead;
                }
            },
            None => {},
        }
        victim
    }
}

/// One thing that can happen to a round in a tick.
pub enum Step {
    Tick(Input, EntityId),
    Collide(Seq<EntityId>, Seq<CollisionEvent>),
}

/// The round after each of `steps`, in order.
pub open spec fn run(g: GameView, steps: Seq<Step>) -> GameView
    decreases steps.len(),
{
    if steps.len() == 0 {
        g
    } else {
        let h = run(g, steps.drop_last());
        match steps.last() {
            Step::Tick(i, e) => h.ticked(i, e),
            Step::Collide(vs, evs) => h.collided(vs, evs),
        }
    }
}

/// Once the round is over, no sequence of ticks and collision reports
/// changes anything: no motion, no trail growth, no transition.
pub proof fn lemma_dead_is_terminal(g: GameView, steps: Seq<Step>)
    requires
        g.state == GameState::Dead,
    ensures
        run(g, steps) == g,
    decreases steps.len(),
{
    if steps.len() > 0 {
        lemma_dead_is_terminal(g, steps.drop_last());
    }
}

/// A round that is over stays over, and without a vehicle nothing happens
/// at all: ticks and collision reports are silent no-ops.
pub proof fn lemma_no_resurrection(g: GameView, steps: Seq<Step>)
    ensures
        g.state == GameState::Dead ==> run(g, steps).state == GameState::Dead,
        g.rider is None ==> run(g, steps) == g,
    decreases steps.len(),
{
    if steps.len() > 0 {
        lemma_no_resurrection(g, steps.drop_last());
    }
}

/// On a tick without a turn, the new segment lies exactly one displacement
/// further along the heading than the segment laid the tick before: no
/// drift, no gap, no overlap.
pub proof fn lemma_contiguity(g: GameView, i: Input, h: EntityId)
    requires
        g.wf(),
        g.movable(),
        g.state == GameState::InGame,
        g.rider matches Some(r) && r.segs.len() > 0 && steered(r.vehicle.direction, i) == r.vehicle.direction,
    ensures
        ({
            let r = g.rider.unwrap();
            let d = r.vehicle.direction;
            let n = g.ticked(i, h).rider.unwrap();
            &&& n.vehicle.direction == d
            &&& n.segs[0].pos.x == r.segs[0].pos.x + step_dx(d, g.config.spec_delta() as int)
            &&& n.segs[0].pos.y == r.segs[0].pos.y + step_dy(d, g.config.spec_delta() as int)
            &&& dist_sq(n.segs[0].pos, r.segs[0].pos) == g.config.spec_delta() * g.config.spec_delta()
        }),
{
    let r = g.rider.unwrap();
    let n = g.ticked(i, h).rider.unwrap();
    let delta = g.config.spec_delta() as int;
    let a = n.segs[0].pos;
    let b = r.segs[0].pos;
    assert((a.x - b.x) * (a.x - b.x) + (a.y - b.y) * (a.y - b.y) == delta * delta) by (nonlinear_arith)
        requires
            (a.x - b.x == delta || a.x - b.x == -delta) && a.y - b.y == 0
                || (a.y - b.y == delta || a.y - b.y == -delta) && a.x - b.x == 0,
    ;
}

/// Over every sequence of ticks and collision reports the round stays well
/// formed: in particular the player's trail never holds more segments than
/// its capacity, and its newest segment lies right behind the vehicle.
pub proof fn lemma_run_keeps_bound(g: GameView, steps: Seq<Step>)
    requires
        g.wf(),
    ensures
        run(g, steps).wf(),
        run(g, steps).rider matches Some(r) ==> r.segs.len() <= r.cap,
    decreases steps.len(),
{
    if steps.len() > 0 {
        lemma_run_keeps_bound(g, steps.drop_last());
    }
}

} // verus!
