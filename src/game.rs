//! The game: the dinosaur, the obstacle pool, the score timer and the
//! paused/running state, advanced one tick at a time.
use vstd::prelude::*;
use crate::collision::{
    CollisionPolicy, collision_detection, hit_spec, checked, collides_spec, dist_sq,
};
use crate::geometry::{Field, Position, within_limit, MILLI};
use crate::jump::{
    JumpDirection, valid_jump, arc_offset, jump_tick, receive_spec, receive, advance,
};
use crate::obstacle::{
    Obstacle, Direction, wf_obstacle, movement_spec, bounds_spec, roster_spec, spawn_enemies,
    move_all, recycle_all, lemma_waiting_holds_still, MAX_DELTA_MICROS, ROSTER_LEN,
};

verus! {

/// The player's sprite.
#[derive(PartialEq, Eq, Structural, Clone, Copy, Debug)]
pub struct Dino {
    pub position: Position,
    pub jump: JumpDirection,
}

/// The jump state is one the arc reaches, and the sprite's coordinates and
/// ground line are within the position limit.
pub open spec fn wf_dino(d: Dino) -> bool {
    &&& valid_jump(d.jump)
    &&& within_limit(d.position.x as int)
    &&& within_limit(d.position.y - arc_offset(d.jump))
}

/// The dinosaur after one tick: the jump commands are taken, then the jump
/// advances by one tick.
pub open spec fn dino_tick_spec(d: Dino, up: bool, down: bool) -> Dino {
    let j = receive_spec(d.jump, up, down);
    Dino {
        position: Position { y: (d.position.y + jump_tick(j).1) as i64, ..d.position },
        jump: jump_tick(j).0,
    }
}

proof fn lemma_offset_bounded(j: JumpDirection)
    requires
        valid_jump(j),
    ensures
        -85000 <= arc_offset(j) <= 85000,
{
}

impl Dino {
    /// The dinosaur of a new game: on the ground, a sixteenth of the field's
    /// width from its left edge, halfway up.
    pub fn spawn_player(f: &Field) -> (r: Dino)
        ensures
            r.position.x == f.width * MILLI / 16,
            r.position.y == f.ground_y_spec(),
            r.jump == JumpDirection::Grounded,
            wf_dino(r),
    {
        Dino {
            position: Position { x: f.width as i64 * MILLI / 16, y: f.ground_y() },
            jump: JumpDirection::Grounded,
        }
    }

    /// Takes the jump commands of one tick: a jump starts only from the ground.
    pub fn jump_system_receive(&mut self, up: bool, down: bool)
        requires
            wf_dino(*old(self)),
        ensures
            final(self).jump == receive_spec(old(self).jump, up, down),
            final(self).position == old(self).position,
            wf_dino(*final(self)),
    {
        self.jump = receive(self.jump, up, down);
    }

    /// Advances the jump by one tick and moves the sprite by that tick's
    /// displacement.
    pub fn jump_system(&mut self)
        requires
            wf_dino(*old(self)),
        ensures
            final(self).jump == jump_tick(old(self).jump).0,
            final(self).position.x == old(self).position.x,
            final(self).position.y == old(self).position.y + jump_tick(old(self).jump).1,
            wf_dino(*final(self)),
    {
        proof {
            lemma_offset_bounded(self.jump);
            lemma_offset_bounded(jump_tick(self.jump).0);
        }
        let (next, dy) = advance(self.jump);
        self.position.y = self.position.y + dy;
        self.jump = next;
    }
}

/// Time of the current run and of the best run, in microseconds.
#[derive(PartialEq, Eq, Structural, Clone, Copy, Debug)]
pub struct ScoreTimer {
    pub elapsed: u64,
    pub best: u64,
}

/// The timer after a tick of `dt` microseconds of play.
pub open spec fn timer_tick_spec(t: ScoreTimer, dt: u64) -> ScoreTimer {
    ScoreTimer {
        elapsed: if t.elapsed + dt > u64::MAX { u64::MAX } else { (t.elapsed + dt) as u64 },
        ..t
    }
}

/// The timer when a new run is asked for: a run that beat the best becomes the
/// best, and only then is the run's time set back to zero.
pub open spec fn restart_timer_spec(t: ScoreTimer) -> ScoreTimer {
    if t.elapsed > t.best {
        ScoreTimer { elapsed: 0, best: t.elapsed }
    } else {
        t
    }
}

impl ScoreTimer {
    pub fn spawn_timer() -> (r: ScoreTimer)
        ensures
            r.elapsed == 0,
            r.best == 0,
    {
        ScoreTimer { elapsed: 0, best: 0 }
    }

    /// Counts `dt` microseconds of play, stopping at the largest `u64`.
    pub fn update_timer(&mut self, dt: u64)
        ensures
            *final(self) == timer_tick_spec(*old(self), dt),
    {
        self.elapsed = self.elapsed.saturating_add(dt);
    }

    pub fn restart(&mut self)
        ensures
            *final(self) == restart_timer_spec(*old(self)),
    {
        if self.elapsed > self.best {
            self.best = self.elapsed;
            self.elapsed = 0;
        }
    }
}

#[derive(PartialEq, Eq, Structural, Clone, Copy, Debug)]
pub enum GameState {
    Paused,
    Running,
}

/// The buttons pressed since the last tick.
#[derive(PartialEq, Eq, Structural, Clone, Copy, Debug)]
pub struct Input {
    pub jump_up: bool,
    pub jump_down: bool,
    pub restart: bool,
}

pub struct Game {
    pub state: GameState,
    pub dino: Dino,
    pub obstacles: Vec<Obstacle>,
    pub timer: ScoreTimer,
    pub field: Field,
    pub policy: CollisionPolicy,
}

/// What a game is, with the obstacle pool as a sequence.
pub struct GameView {
    pub state: GameState,
    pub dino: Dino,
    pub obstacles: Seq<Obstacle>,
    pub timer: ScoreTimer,
    pub field: Field,
    pub policy: CollisionPolicy,
}

impl View for Game {
    type V = GameView;

    open spec fn view(&self) -> GameView {
        GameView {
            state: self.state,
            dino: self.dino,
            obstacles: self.obstacles@,
            timer: self.timer,
            field: self.field,
            policy: self.policy,
        }
    }
}

pub open spec fn wf_game(g: GameView) -> bool {
    &&& wf_dino(g.dino)
    &&& forall|i: int| 0 <= i < g.obstacles.len() ==> wf_obstacle(#[trigger] g.obstacles[i])
}

/// Random draws that a tick of `g` needs: one per obstacle of the pool, and at
/// least as many as a new run's roster.
pub open spec fn draws_needed(g: GameView) -> nat {
    if g.obstacles.len() > ROSTER_LEN {
        g.obstacles.len()
    } else {
        ROSTER_LEN as nat
    }
}

/// The obstacle pool after the motion and the recycling of one tick.
pub open spec fn pool_tick_spec(g: GameView, dt: u64, draws: Seq<usize>) -> Seq<Obstacle> {
    Seq::new(
        g.obstacles.len(),
        |i: int| bounds_spec(movement_spec(g.obstacles[i], g.field, dt), g.field, draws[i]),
    )
}

/// One tick of the game, `draws` giving the random grace periods.
///
/// While paused, only the restart button counts: it settles the timer, creates
/// the roster and starts a run. While running, the jump, the timer, the
/// obstacles' motion and recycling, and the collision check follow in that
/// order; a collision pauses the game and removes every obstacle.
pub open spec fn step_spec(g: GameView, input: Input, dt: u64, draws: Seq<usize>) -> GameView {
    match g.state {
        GameState::Paused => if input.restart {
            GameView {
                state: GameState::Running,
                timer: restart_timer_spec(g.timer),
                obstacles: roster_spec(g.field, draws),
                ..g
            }
        } else {
            g
        },
        GameState::Running => {
            let dino = dino_tick_spec(g.dino, input.jump_up, input.jump_down);
            let timer = timer_tick_spec(g.timer, dt);
            let pool = pool_tick_spec(g, dt, draws);
            if hit_spec(dino.position, pool, g.policy) {
                GameView { state: GameState::Paused, dino, timer, obstacles: Seq::empty(), ..g }
            } else {
                GameView { dino, timer, obstacles: pool, ..g }
            }
        },
    }
}

/// The game after each of `ticks` in turn: an input, a step in microseconds
/// and the random draws.
pub open spec fn run_ticks(g: GameView, ticks: Seq<(Input, u64, Seq<usize>)>) -> GameView
    decreases ticks.len(),
{
    if ticks.len() == 0 {
        g
    } else {
        run_ticks(step_spec(g, ticks[0].0, ticks[0].1, ticks[0].2), ticks.drop_first())
    }
}

/// The game is running before each of `ticks` and after the last.
pub open spec fn stays_running(g: GameView, ticks: Seq<(Input, u64, Seq<usize>)>) -> bool
    decreases ticks.len(),
{
    g.state == GameState::Running && (ticks.len() == 0 || stays_running(
        step_spec(g, ticks[0].0, ticks[0].1, ticks[0].2),
        ticks.drop_first(),
    ))
}

/// As long as the game keeps running, the obstacle pool keeps its size and each
/// place of the pool its kind, over any number of ticks: recycling neither
/// creates nor removes obstacles.
pub proof fn lemma_pool_size_constant(g: GameView, ticks: Seq<(Input, u64, Seq<usize>)>)
    requires
        stays_running(g, ticks),
    ensures
        run_ticks(g, ticks).obstacles.len() == g.obstacles.len(),
        forall|i: int|
            0 <= i < g.obstacles.len() ==> (#[trigger] run_ticks(g, ticks).obstacles[i]).kind
                == g.obstacles[i].kind,
    decreases ticks.len(),
{
    if ticks.len() > 0 {
        let (input, dt, draws) = ticks[0];
        let next = step_spec(g, input, dt, draws);
        let pool = pool_tick_spec(g, dt, draws);
        let dino = dino_tick_spec(g.dino, input.jump_up, input.jump_down);
        assert(stays_running(next, ticks.drop_first()));
        reveal_with_fuel(stays_running, 2);
        assert(next.state == GameState::Running);
        assert(!hit_spec(dino.position, pool, g.policy));
        assert(next.obstacles == pool);
        lemma_pool_size_constant(next, ticks.drop_first());
    }
}

/// While the game runs on, an obstacle that waits keeps its place for the tick
/// and counts down by one; one whose countdown is at zero starts moving on that
/// tick from the spawn edge.
pub proof fn lemma_waiting_obstacle_in_play(
    g: GameView,
    input: Input,
    dt: u64,
    draws: Seq<usize>,
    i: int,
    n: usize,
)
    requires
        g.state == GameState::Running,
        step_spec(g, input, dt, draws).state == GameState::Running,
        0 <= i < g.obstacles.len(),
        g.obstacles[i].direction == Direction::Right(n),
    ensures
        n > 0 ==> step_spec(g, input, dt, draws).obstacles[i] == (Obstacle {
            direction: Direction::Right((n - 1) as usize),
            ..g.obstacles[i]
        }),
        n == 0 ==> step_spec(g, input, dt, draws).obstacles[i].position.x == g.field.spawn_x_spec(),
{
    let o = g.obstacles[i];
    lemma_waiting_holds_still(o, n, g.field, dt, draws[i]);
    assert(step_spec(g, input, dt, draws).obstacles == pool_tick_spec(g, dt, draws));
}

/// An obstacle that the policy checks and that holds still on a tick (it waits
/// with time left), standing where the dinosaur stands after that tick's jump,
/// pauses the game on that tick, and the pool is emptied.
pub proof fn lemma_contact_pauses(
    g: GameView,
    input: Input,
    dt: u64,
    draws: Seq<usize>,
    i: int,
    n: usize,
)
    requires
        g.state == GameState::Running,
        0 <= i < g.obstacles.len(),
        checked(g.obstacles, i, g.policy),
        g.obstacles[i].direction == Direction::Right(n),
        n > 0,
        g.obstacles[i].position == dino_tick_spec(g.dino, input.jump_up, input.jump_down).position,
    ensures
        step_spec(g, input, dt, draws).state == GameState::Paused,
        step_spec(g, input, dt, draws).obstacles.len() == 0,
{
    let pool = pool_tick_spec(g, dt, draws);
    let p = dino_tick_spec(g.dino, input.jump_up, input.jump_down).position;
    lemma_waiting_holds_still(g.obstacles[i], n, g.field, dt, draws[i]);
    assert(pool[i].position == p);
    assert(checked(pool, i, g.policy)) by {
        if g.policy == CollisionPolicy::FirstOfEachKind {
            assert forall|j: int| 0 <= j < i implies pool[j].kind != (#[trigger] pool[i]).kind by {
                assert(g.obstacles[j].kind != g.obstacles[i].kind);
            }
        }
    }
    assert(dist_sq(p, pool[i].position) == 0);
    assert(collides_spec(p, pool[i].position));
    assert(hit_spec(p, pool, g.policy));
}

/// Jump commands during a jump change nothing: a tick with both jump buttons
/// pressed in mid-air ends as one with neither.
pub proof fn lemma_no_jump_in_mid_air(g: GameView, input: Input, dt: u64, draws: Seq<usize>)
    requires
        g.state == GameState::Running,
        g.dino.jump != JumpDirection::Grounded,
    ensures
        step_spec(g, input, dt, draws) == step_spec(
            g,
            Input { jump_up: false, jump_down: false, ..input },
            dt,
            draws,
        ),
{
}

/// Relies on `rand::random`: a value of the thread's random generator; nothing
/// is known of which.
pub assume_specification<T>[ rand::random::<T> ]() -> (r: T)
    where
        rand::distributions::Standard: rand::distributions::Distribution<T>,
;

/// `n` random numbers.
fn draw_randoms(n: usize) -> (r: Vec<usize>)
    ensures
        r.len() == n,
{
    let mut r: Vec<usize> = Vec::new();
    let mut i: usize = 0;
    while i < n
        invariant
            i <= n,
            r.len() == i,
        decreases n - i,
    {
        let d: usize = rand::random::<usize>();
        r.push(d);
        i = i + 1;
    }
    r
}

impl Game {
    /// A paused game with the dinosaur on the ground, no obstacles and a timer
    /// at zero.
    pub fn new(field: Field, policy: CollisionPolicy) -> (r: Game)
        ensures
            r.state == GameState::Paused,
            r.dino.position.x == field.width * MILLI / 16,
            r.dino.position.y == field.ground_y_spec(),
            r.dino.jump == JumpDirection::Grounded,
            r.obstacles@.len() == 0,
            r.timer == (ScoreTimer { elapsed: 0, best: 0 }),
            r.field == field,
            r.policy == policy,
            wf_game(r@),
    {
        Game {
            state: GameState::Paused,
            dino: Dino::spawn_player(&field),
            obstacles: Vec::new(),
            timer: ScoreTimer::spawn_timer(),
            field,
            policy,
        }
    }

    /// Removes every obstacle.
    pub fn despawn_all(&mut self)
        ensures
            final(self)@ == (GameView { obstacles: Seq::empty(), ..old(self)@ }),
    {
        self.obstacles.clear();
        assert(self@.obstacles =~= Seq::empty());
    }

    /// The restart button while paused: settles the timer, creates the roster
    /// and starts a run.
    pub fn reset_game(&mut self, draws: &Vec<usize>)
        requires
            draws.len() >= ROSTER_LEN,
        ensures
            final(self)@ == (GameView {
                state: GameState::Running,
                timer: restart_timer_spec(old(self).timer),
                obstacles: roster_spec(old(self).field, draws@),
                ..old(self)@
            }),
            wf_game(old(self)@) ==> wf_game(final(self)@),
    {
        self.timer.restart();
        self.obstacles = spawn_enemies(&self.field, draws);
        self.state = GameState::Running;
    }

    /// One tick of the game, with the random draws given.
    pub fn step(&mut self, input: Input, dt: u64, draws: &Vec<usize>)
        requires
            wf_game(old(self)@),
            dt <= MAX_DELTA_MICROS,
            draws.len() >= draws_needed(old(self)@),
        ensures
            final(self)@ == step_spec(old(self)@, input, dt, draws@),
            wf_game(final(self)@),
    {
        match self.state {
            GameState::Paused => {
                if input.restart {
                    self.reset_game(draws);
                }
            },
            GameState::Running => {
                let ghost g = self@;
                self.dino.jump_system_receive(input.jump_up, input.jump_down);
                self.dino.jump_system();
                self.timer.update_timer(dt);
                move_all(&mut self.obstacles, &self.field, dt);
                recycle_all(&mut self.obstacles, &self.field, draws);
                assert(self.obstacles@ =~= pool_tick_spec(g, dt, draws@));
                if collision_detection(self.dino.position, &self.obstacles, self.policy) {
                    self.state = GameState::Paused;
                    self.despawn_all();
                }
            },
        }
    }

    /// One tick of the game, drawing the random grace periods: it does what
    /// `step` does for some draws, one per obstacle and at least as many as a
    /// roster.
    pub fn tick(&mut self, input: Input, dt: u64)
        requires
            wf_game(old(self)@),
            dt <= MAX_DELTA_MICROS,
        ensures
            exists|draws: Seq<usize>|
                draws.len() == draws_needed(old(self)@) && final(self)@ == step_spec(
                    old(self)@,
                    input,
                    dt,
                    draws,
                ),
            wf_game(final(self)@),
    {
        let n = if self.obstacles.len() > ROSTER_LEN {
            self.obstacles.len()
        } else {
            ROSTER_LEN
        };
        let draws = draw_randoms(n);
        self.step(input, dt, &draws);
    }
}

} // verus!
