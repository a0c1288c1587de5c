use cyber_cycle::collision::{CollisionEvent, Phase};
use cyber_cycle::game::{Game, GameState, TickOutcome};
use cyber_cycle::geometry::{segment_position, Config, Direction, Point};
use cyber_cycle::motion::{steer, turn_for, Flip, Input, Spin, Turn, Vehicle};
use cyber_cycle::trail::{EntityId, Segment, Trail};

const NONE: Input = Input { left: false, right: false, down: false, up: false };

fn id(bits: u64) -> EntityId {
    EntityId { bits }
}

fn cfg(delta: i64, w: i64, h: i64, cap: usize) -> Config {
    Config::new(delta, w, h, cap).unwrap()
}

const ALL: [Direction; 4] = [Direction::Left, Direction::Right, Direction::Down, Direction::Up];

#[test]
fn straight_run_keeps_three_segments() {
    let c = cfg(10, 0, 0, 3);
    let mut g = Game::new(c, id(1), Point { x: 0, y: 0 }, Direction::Right);
    let mut evicted = Vec::new();
    for t in 0..5u64 {
        let out = g.tick(NONE, id(100 + t));
        assert_eq!(out.turn, None);
        if let Some(s) = out.evicted {
            evicted.push(s.handle.bits);
        }
    }
    let v = g.vehicle().unwrap();
    assert_eq!(v.position, Point { x: 50, y: 0 });
    let trail = g.trail();
    assert_eq!(trail.len(), 3);
    let rel: Vec<i64> = trail.iter().map(|s| s.pos.x - v.position.x).collect();
    assert_eq!(rel, vec![-10, -20, -30]);
    let handles: Vec<u64> = trail.iter().map(|s| s.handle.bits).collect();
    assert_eq!(handles, vec![104, 103, 102]);
    assert_eq!(evicted, vec![100, 101]);
}

#[test]
fn turn_right_to_down_rotates_once() {
    let c = cfg(10, 25, 20, 100);
    let mut g = Game::new(c, id(1), Point { x: 0, y: 0 }, Direction::Right);
    let down = Input { down: true, ..NONE };
    let out = g.tick(down, id(2));
    assert_eq!(
        out.turn,
        Some(Turn { pivot: Point { x: -45, y: 0 }, spin: Spin::Clockwise, flip: Flip::HalfTurnYAfter })
    );
    let v = g.vehicle().unwrap();
    assert_eq!(v.direction, Direction::Down);
    assert_eq!(v.position, Point { x: -45, y: 55 });
    assert_eq!(out.laid, Some(Segment { handle: id(2), pos: Point { x: -25, y: 20 } }));
    let out = g.tick(NONE, id(3));
    assert_eq!(out.turn, None);
    let w = g.vehicle().unwrap();
    assert_eq!(w.position, Point { x: -45, y: 65 });
}

#[test]
fn reversal_is_ignored() {
    let c = cfg(10, 25, 20, 100);
    let mut g = Game::new(c, id(1), Point { x: 5, y: 5 }, Direction::Right);
    let left = Input { left: true, ..NONE };
    let out = g.tick(left, id(2));
    assert_eq!(out.turn, None);
    let v = g.vehicle().unwrap();
    assert_eq!(v.direction, Direction::Right);
    assert_eq!(v.position, Point { x: 15, y: 5 });
}

#[test]
fn steering_priority_and_no_reversal() {
    let all = Input { left: true, right: true, down: true, up: true };
    assert_eq!(steer(Direction::Up, all), Direction::Left);
    assert_eq!(steer(Direction::Right, all), Direction::Right);
    assert_eq!(steer(Direction::Left, Input { right: true, up: true, ..NONE }), Direction::Up);
    assert_eq!(steer(Direction::Up, Input { down: true, ..NONE }), Direction::Up);
    for d in ALL {
        for bits in 0..16u8 {
            let i = Input { left: bits & 1 != 0, right: bits & 2 != 0, down: bits & 4 != 0, up: bits & 8 != 0 };
            assert_ne!(steer(d, i), d.opposite());
        }
    }
}

#[test]
fn turn_table_has_eight_turns() {
    let c = cfg(10, 25, 20, 10);
    let mut turns = 0;
    for prev in ALL {
        for new in ALL {
            let t = turn_for(prev, new, &c);
            assert_eq!(t.is_none(), new == prev || new == prev.opposite());
            if t.is_some() {
                turns += 1;
            }
        }
    }
    assert_eq!(turns, 8);
    assert_eq!(
        turn_for(Direction::Left, Direction::Up, &c),
        Some(Turn { pivot: Point { x: 5, y: 0 }, spin: Spin::Clockwise, flip: Flip::HalfTurnXBefore })
    );
    assert_eq!(
        turn_for(Direction::Up, Direction::Left, &c),
        Some(Turn { pivot: Point { x: 0, y: 5 }, spin: Spin::CounterClockwise, flip: Flip::HalfTurnXAfter })
    );
    assert_eq!(
        turn_for(Direction::Down, Direction::Right, &c),
        Some(Turn { pivot: Point { x: 0, y: -45 }, spin: Spin::CounterClockwise, flip: Flip::HalfTurnXAfter })
    );
}

#[test]
fn drive_turning_up_from_right() {
    let c = cfg(10, 25, 20, 10);
    let mut v = Vehicle { direction: Direction::Right, position: Point { x: 100, y: 100 } };
    let t = v.drive(Input { up: true, ..NONE }, &c);
    assert_eq!(t, Some(Turn { pivot: Point { x: -25, y: 20 }, spin: Spin::CounterClockwise, flip: Flip::Keep }));
    // counter-clockwise about (75, 120): x + ox - oy, y + oy + ox, then up by 10
    assert_eq!(v.position, Point { x: 55, y: 85 });
    assert_eq!(v.direction, Direction::Up);
}

#[test]
fn segments_are_contiguous_without_turns() {
    let c = cfg(40, 150, 123, 1000);
    for d in ALL {
        let mut g = Game::new(c, id(1), Point { x: 30, y: -30 }, d);
        let a = g.tick(NONE, id(2)).laid.unwrap().pos;
        let b = g.tick(NONE, id(3)).laid.unwrap().pos;
        let (dx, dy) = (b.x - a.x, b.y - a.y);
        assert_eq!(dx * dx + dy * dy, 40 * 40);
        let v = g.vehicle().unwrap();
        assert_eq!(segment_position(v.position, d, &c), b);
    }
}

#[test]
fn segment_sits_behind_vehicle() {
    let c = cfg(40, 150, 123, 10);
    let p = Point { x: 1000, y: 2000 };
    assert_eq!(segment_position(p, Direction::Right, &c), Point { x: 810, y: 2123 });
    assert_eq!(segment_position(p, Direction::Left, &c), Point { x: 1190, y: 2123 });
    assert_eq!(segment_position(p, Direction::Down, &c), Point { x: 1123, y: 1810 });
    assert_eq!(segment_position(p, Direction::Up, &c), Point { x: 1123, y: 2190 });
}

#[test]
fn config_rejects_bad_values() {
    assert!(Config::new(0, 1, 1, 1).is_none());
    assert!(Config::new(-3, 1, 1, 1).is_none());
    assert!(Config::new(1, -1, 1, 1).is_none());
    assert!(Config::new(1, 1, -1, 1).is_none());
    assert!(Config::new(1, 1, 1, 0).is_none());
    assert!(Config::new(1048577, 1, 1, 1).is_none());
    let c = Config::new(1048576, 0, 1048576, 1).unwrap();
    assert_eq!((c.delta(), c.half_width(), c.half_height(), c.capacity()), (1048576, 0, 1048576, 1));
}

#[test]
fn trail_grows_then_recycles() {
    let c = cfg(10, 0, 0, 2);
    let mut t = Trail::new(2);
    assert_eq!(t.capacity(), 2);
    let p = Point { x: 0, y: 0 };
    assert_eq!(t.grow(p, Direction::Right, &c, id(1)), None);
    assert_eq!(t.len(), 1);
    assert_eq!(t.grow(p, Direction::Right, &c, id(2)), None);
    assert_eq!(t.len(), 2);
    let out = t.grow(p, Direction::Up, &c, id(3)).unwrap();
    assert_eq!(out.handle, id(1));
    assert_eq!(t.len(), 2);
    assert_eq!(t.get(0), Some(Segment { handle: id(3), pos: Point { x: 0, y: 10 } }));
    assert_eq!(t.get(1).unwrap().handle, id(2));
    assert_eq!(t.get(2), None);
}

#[test]
fn capacity_one_trail() {
    let c = cfg(5, 0, 0, 1);
    let mut g = Game::new(c, id(1), Point { x: 0, y: 0 }, Direction::Left);
    assert_eq!(g.tick(NONE, id(2)).evicted, None);
    let out = g.tick(NONE, id(3));
    assert_eq!(out.evicted.unwrap().handle, id(2));
    assert_eq!(g.trail().len(), 1);
}

#[test]
fn non_player_hits_wall_round_goes_on() {
    let c = cfg(10, 25, 20, 10);
    let mut g = Game::new(c, id(1), Point { x: 0, y: 0 }, Direction::Right);
    let vehicles = vec![id(1), id(7)];
    let events = vec![CollisionEvent { first: id(7), second: id(50), phase: Phase::Started }];
    assert_eq!(g.collide(&vehicles, &events), Some(id(7)));
    assert_eq!(g.state(), GameState::InGame);
    assert_eq!(g.player(), Some(id(1)));
}

#[test]
fn player_hits_wall_round_ends_once() {
    let c = cfg(10, 25, 20, 10);
    let mut g = Game::new(c, id(1), Point { x: 0, y: 0 }, Direction::Right);
    g.tick(NONE, id(40));
    let vehicles = vec![id(1)];
    let events = vec![
        CollisionEvent { first: id(1), second: id(1), phase: Phase::Started },
        CollisionEvent { first: id(40), second: id(1), phase: Phase::Started },
        CollisionEvent { first: id(1), second: id(41), phase: Phase::Started },
    ];
    assert_eq!(g.collide(&vehicles, &events), Some(id(1)));
    assert_eq!(g.state(), GameState::Dead);
    assert_eq!(g.player(), None);
    assert_eq!(g.vehicle(), None);
    assert_eq!(g.collide(&vehicles, &events), None);
    assert_eq!(g.state(), GameState::Dead);
}

#[test]
fn dead_round_ignores_ticks() {
    let c = cfg(10, 25, 20, 10);
    let mut g = Game::new(c, id(1), Point { x: 0, y: 0 }, Direction::Right);
    let events = vec![CollisionEvent { first: id(9), second: id(1), phase: Phase::Stopped }];
    assert_eq!(g.collide(&vec![id(1)], &events), Some(id(1)));
    for k in 0..3u64 {
        let out = g.tick(Input { down: true, ..NONE }, id(10 + k));
        assert_eq!(out, TickOutcome { turn: None, laid: None, evicted: None });
    }
    assert!(g.trail().is_empty());
    assert_eq!(g.state(), GameState::Dead);
}

#[test]
fn harmless_contacts_destroy_nothing() {
    let c = cfg(10, 25, 20, 10);
    let mut g = Game::new(c, id(1), Point { x: 0, y: 0 }, Direction::Right);
    let vehicles = vec![id(1), id(2)];
    let events = vec![
        CollisionEvent { first: id(1), second: id(2), phase: Phase::Started },
        CollisionEvent { first: id(30), second: id(31), phase: Phase::Stopped },
    ];
    assert_eq!(g.collide(&vehicles, &events), None);
    assert_eq!(g.collide(&vehicles, &vec![]), None);
    assert_eq!(g.state(), GameState::InGame);
    assert_eq!(g.config(), c);
    assert!(g.movable());
}
