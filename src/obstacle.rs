//! Obstacles: how a run's roster is created, how each obstacle waits and then
//! scrolls left, and how one that has left the field is put back at the spawn
//! edge.
use vstd::prelude::*;
use crate::geometry::{Field, Position, within_limit, POSITION_LIMIT, MILLI};

verus! {

/// Longest step that one tick may take, in microseconds.
pub const MAX_DELTA_MICROS: u64 = 1_000_000;

/// Number of obstacles in a run.
pub const ROSTER_LEN: usize = 4;

/// The three kinds of obstacle.
#[derive(PartialEq, Eq, Structural, Clone, Copy, Debug)]
pub enum ObstacleKind {
    ShortCactus,
    LongCactus,
    Bird,
}

/// Motion phase: `Right(n)` waits `n` more ticks before it moves, `Left`
/// scrolls towards the left edge.
#[derive(PartialEq, Eq, Structural, PartialOrd, Ord, Clone, Copy, Debug)]
pub enum Direction {
    Left,
    Right(usize),
}

#[derive(PartialEq, Eq, Structural, Clone, Copy, Debug)]
pub struct Obstacle {
    pub kind: ObstacleKind,
    pub position: Position,
    pub direction: Direction,
}

/// Grace periods of a kind are drawn from `0 .. grace_bound(kind)`.
pub open spec fn grace_bound_spec(kind: ObstacleKind) -> usize {
    match kind {
        ObstacleKind::ShortCactus => 325,
        ObstacleKind::LongCactus => 645,
        ObstacleKind::Bird => 900,
    }
}

/// Speed of a kind, in pixels per second.
pub open spec fn speed_spec(kind: ObstacleKind) -> u64 {
    match kind {
        ObstacleKind::ShortCactus => 200,
        ObstacleKind::LongCactus => 200,
        ObstacleKind::Bird => 200,
    }
}

pub fn grace_bound(kind: ObstacleKind) -> (r: usize)
    ensures
        r == grace_bound_spec(kind),
        r > 0,
{
    match kind {
        ObstacleKind::ShortCactus => 325,
        ObstacleKind::LongCactus => 645,
        ObstacleKind::Bird => 900,
    }
}

pub fn speed(kind: ObstacleKind) -> (r: u64)
    ensures
        r == speed_spec(kind),
{
    match kind {
        ObstacleKind::ShortCactus => 200,
        ObstacleKind::LongCactus => 200,
        ObstacleKind::Bird => 200,
    }
}

/// The grace period that a random draw gives an obstacle of `kind`.
pub open spec fn grace_spec(kind: ObstacleKind, draw: usize) -> usize {
    (draw % grace_bound_spec(kind)) as usize
}

pub fn grace_period(kind: ObstacleKind, draw: usize) -> (r: usize)
    ensures
        r == grace_spec(kind, draw),
        r < grace_bound_spec(kind),
{
    draw % grace_bound(kind)
}

/// Distance that an obstacle of `kind` moves in `dt` microseconds, in
/// thousandths of a pixel, rounded down.
pub open spec fn travel_spec(kind: ObstacleKind, dt: u64) -> int {
    speed_spec(kind) * dt / 1000
}

pub fn travel(kind: ObstacleKind, dt: u64) -> (r: i64)
    requires
        dt <= MAX_DELTA_MICROS,
    ensures
        r == travel_spec(kind, dt),
        0 <= r <= 200_000,
{
    let v = speed(kind);
    assert(v * dt <= 200 * 1_000_000) by (nonlinear_arith)
        requires
            v <= 200,
            dt <= 1_000_000,
    ;
    (v * dt / 1000) as i64
}

/// The stored coordinates are within `POSITION_LIMIT`.
pub open spec fn wf_obstacle(o: Obstacle) -> bool {
    within_limit(o.position.x as int) && within_limit(o.position.y as int)
}

/// What a tick of motion leaves of an obstacle: a moving one may have passed
/// the lower limit by one step.
pub open spec fn moved_obstacle(o: Obstacle) -> bool {
    &&& -POSITION_LIMIT - 200_000 <= o.position.x <= POSITION_LIMIT
    &&& within_limit(o.position.y as int)
    &&& o.direction != Direction::Left ==> within_limit(o.position.x as int)
}

/// One tick of motion: a waiting obstacle counts down without moving; at zero it
/// starts moving from the spawn edge, wherever it stood; a moving one scrolls
/// left.
pub open spec fn movement_spec(o: Obstacle, f: Field, dt: u64) -> Obstacle {
    match o.direction {
        Direction::Right(n) => if n == 0 {
            Obstacle {
                direction: Direction::Left,
                position: Position { x: f.spawn_x_spec() as i64, ..o.position },
                ..o
            }
        } else {
            Obstacle { direction: Direction::Right((n - 1) as usize), ..o }
        },
        Direction::Left => Obstacle {
            position: Position { x: (o.position.x - travel_spec(o.kind, dt)) as i64, ..o.position },
            ..o
        },
    }
}

/// A moving obstacle left of the exit line goes back to the spawn edge and
/// waits again, for a grace period drawn anew.
pub open spec fn bounds_spec(o: Obstacle, f: Field, draw: usize) -> Obstacle {
    if o.direction == Direction::Left && o.position.x < f.exit_x_spec() {
        Obstacle {
            direction: Direction::Right(grace_spec(o.kind, draw)),
            position: Position { x: f.spawn_x_spec() as i64, ..o.position },
            ..o
        }
    } else {
        o
    }
}

pub fn enemy_movement(o: &mut Obstacle, f: &Field, dt: u64)
    requires
        wf_obstacle(*old(o)),
        dt <= MAX_DELTA_MICROS,
    ensures
        *final(o) == movement_spec(*old(o), *f, dt),
        moved_obstacle(*final(o)),
{
    match o.direction {
        Direction::Left => {
            o.position.x = o.position.x - travel(o.kind, dt);
        },
        Direction::Right(n) => {
            if n == 0 {
                o.direction = Direction::Left;
                o.position.x = f.spawn_x();
            } else {
                o.direction = Direction::Right(n - 1);
            }
        },
    }
}

pub fn enemy_bounds(o: &mut Obstacle, f: &Field, draw: usize)
    requires
        moved_obstacle(*old(o)),
    ensures
        *final(o) == bounds_spec(*old(o), *f, draw),
        wf_obstacle(*final(o)),
{
    if o.direction == Direction::Left && o.position.x < f.exit_x() {
        o.position.x = f.spawn_x();
        o.direction = Direction::Right(grace_period(o.kind, draw));
    }
}

/// The roster of a run, in pool order: a bird, two short cacti and a long
/// cactus, each just past the right edge and waiting for the grace period that
/// the draw at its index gives.
pub open spec fn roster_spec(f: Field, draws: Seq<usize>) -> Seq<Obstacle> {
    let ground = f.ground_y_spec();
    let at = |kind: ObstacleKind, y: int, i: int|
        Obstacle {
            kind,
            position: Position { x: f.spawn_x_spec() as i64, y: y as i64 },
            direction: Direction::Right(grace_spec(kind, draws[i])),
        };
    seq![
        at(ObstacleKind::Bird, ground + 100 * MILLI, 0),
        at(ObstacleKind::ShortCactus, ground - 5 * MILLI, 1),
        at(ObstacleKind::ShortCactus, ground - 5 * MILLI, 2),
        at(ObstacleKind::LongCactus, ground, 3),
    ]
}

fn spawn_one(kind: ObstacleKind, x: i64, y: i64, draw: usize) -> (r: Obstacle)
    ensures
        r == (Obstacle {
            kind,
            position: Position { x, y },
            direction: Direction::Right(grace_spec(kind, draw)),
        }),
{
    Obstacle { kind, position: Position { x, y }, direction: Direction::Right(grace_period(kind, draw)) }
}

/// Creates the obstacles of a new run.
pub fn spawn_enemies(f: &Field, draws: &Vec<usize>) -> (r: Vec<Obstacle>)
    requires
        draws.len() >= ROSTER_LEN,
    ensures
        r@ == roster_spec(*f, draws@),
        forall|i: int| 0 <= i < r.len() ==> wf_obstacle(#[trigger] r@[i]),
        forall|i: int| 0 <= i < r.len() ==> (#[trigger] r@[i].direction) != Direction::Left,
{
    let x = f.spawn_x();
    let ground = f.ground_y();
    let mut r: Vec<Obstacle> = Vec::new();
    r.push(spawn_one(ObstacleKind::Bird, x, ground + 100 * MILLI, draws[0]));
    r.push(spawn_one(ObstacleKind::ShortCactus, x, ground - 5 * MILLI, draws[1]));
    r.push(spawn_one(ObstacleKind::ShortCactus, x, ground - 5 * MILLI, draws[2]));
    r.push(spawn_one(ObstacleKind::LongCactus, x, ground, draws[3]));
    assert(r@ =~= roster_spec(*f, draws@));
    r
}

/// One tick of motion for every obstacle of the pool.
pub fn move_all(obstacles: &mut Vec<Obstacle>, f: &Field, dt: u64)
    requires
        forall|i: int| 0 <= i < old(obstacles).len() ==> wf_obstacle(#[trigger] old(obstacles)@[i]),
        dt <= MAX_DELTA_MICROS,
    ensures
        final(obstacles)@ == old(obstacles)@.map_values(|o: Obstacle| movement_spec(o, *f, dt)),
        forall|i: int| 0 <= i < final(obstacles).len() ==> moved_obstacle(#[trigger] final(obstacles)@[i]),
{
    let ghost start = obstacles@;
    let n = obstacles.len();
    let mut i: usize = 0;
    while i < n
        invariant
            n == obstacles.len(),
            start.len() == n,
            dt <= MAX_DELTA_MICROS,
            i <= n,
            forall|k: int| 0 <= k < i ==> obstacles@[k] == movement_spec(start[k], *f, dt),
            forall|k: int| 0 <= k < i ==> moved_obstacle(#[trigger] obstacles@[k]),
            forall|k: int| i <= k < n ==> obstacles@[k] == start[k],
            forall|k: int| 0 <= k < n ==> wf_obstacle(#[trigger] start[k]),
        decreases n - i,
    {
        let mut o = obstacles[i];
        enemy_movement(&mut o, f, dt);
        obstacles.set(i, o);
        i = i + 1;
    }
    assert(obstacles@ =~= start.map_values(|o: Obstacle| movement_spec(o, *f, dt)));
}

/// Puts back every obstacle that has left the field; the one at index `i` draws
/// its new grace period from `draws[i]`.
pub fn recycle_all(obstacles: &mut Vec<Obstacle>, f: &Field, draws: &Vec<usize>)
    requires
        forall|i: int| 0 <= i < old(obstacles).len() ==> moved_obstacle(#[trigger] old(obstacles)@[i]),
        draws.len() >= old(obstacles).len(),
    ensures
        final(obstacles).len() == old(obstacles).len(),
        forall|i: int| 0 <= i < final(obstacles).len() ==> #[trigger] final(obstacles)@[i] == bounds_spec(old(obstacles)@[i], *f, draws@[i]),
        forall|i: int| 0 <= i < final(obstacles).len() ==> wf_obstacle(#[trigger] final(obstacles)@[i]),
{
    let ghost start = obstacles@;
    let n = obstacles.len();
    let mut i: usize = 0;
    while i < n
        invariant
            n == obstacles.len(),
            start.len() == n,
            draws.len() >= n,
            i <= n,
            forall|k: int| 0 <= k < i ==> obstacles@[k] == bounds_spec(start[k], *f, draws@[k]),
            forall|k: int| 0 <= k < i ==> wf_obstacle(#[trigger] obstacles@[k]),
            forall|k: int| i <= k < n ==> obstacles@[k] == start[k],
            forall|k: int| 0 <= k < n ==> moved_obstacle(#[trigger] start[k]),
        decreases n - i,
    {
        let mut o = obstacles[i];
        enemy_bounds(&mut o, f, draws[i]);
        obstacles.set(i, o);
        i = i + 1;
    }
}

/// A waiting obstacle keeps its place on a tick: its countdown drops by one and
/// recycling leaves it alone. At zero it starts moving on that same tick, from
/// the spawn edge.
pub proof fn lemma_waiting_holds_still(o: Obstacle, n: usize, f: Field, dt: u64, draw: usize)
    requires
        o.direction == Direction::Right(n),
    ensures
        n > 0 ==> bounds_spec(movement_spec(o, f, dt), f, draw) == (Obstacle {
            direction: Direction::Right((n - 1) as usize),
            ..o
        }),
        n == 0 ==> movement_spec(o, f, dt).direction == Direction::Left
            && movement_spec(o, f, dt).position.x == f.spawn_x_spec()
            && movement_spec(o, f, dt).position.y == o.position.y,
{
}

} // verus!
