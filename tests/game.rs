use topsy_rex::collision::CollisionPolicy;
use topsy_rex::game::{Game, GameState, Input, ScoreTimer};
use topsy_rex::geometry::Field;
use topsy_rex::obstacle::{Direction, ObstacleKind};

const FIELD: Field = Field { width: 1280, height: 720 };
const FRAME: u64 = 16_667;
const NOTHING: Input = Input { jump_up: false, jump_down: false, restart: false };
const RESTART: Input = Input { jump_up: false, jump_down: false, restart: true };

fn running_game(draws: Vec<usize>) -> Game {
    let mut g = Game::new(FIELD, CollisionPolicy::FirstOfEachKind);
    g.step(RESTART, FRAME, &draws);
    g
}

#[test]
fn restart_with_a_new_best_settles_the_timer() {
    let mut g = Game::new(FIELD, CollisionPolicy::FirstOfEachKind);
    g.timer = ScoreTimer { elapsed: 12_300_000, best: 5_000_000 };
    g.step(RESTART, FRAME, &vec![0, 0, 0, 0]);
    assert_eq!(g.state, GameState::Running);
    assert_eq!(g.timer, ScoreTimer { elapsed: 0, best: 12_300_000 });
    assert_eq!(g.obstacles.len(), 4);
}

#[test]
fn restart_without_a_new_best_keeps_the_timer() {
    let mut g = Game::new(FIELD, CollisionPolicy::FirstOfEachKind);
    g.timer = ScoreTimer { elapsed: 3_000_000, best: 5_000_000 };
    g.step(RESTART, FRAME, &vec![0, 0, 0, 0]);
    assert_eq!(g.state, GameState::Running);
    assert_eq!(g.timer, ScoreTimer { elapsed: 3_000_000, best: 5_000_000 });
}

#[test]
fn paused_game_ignores_all_but_restart() {
    let mut g = Game::new(FIELD, CollisionPolicy::All);
    g.timer = ScoreTimer { elapsed: 7, best: 9 };
    g.step(Input { jump_up: true, jump_down: true, restart: false }, FRAME, &vec![0, 0, 0, 0]);
    assert_eq!(g.state, GameState::Paused);
    assert_eq!(g.timer, ScoreTimer { elapsed: 7, best: 9 });
    assert!(g.obstacles.is_empty());
    assert_eq!(g.dino.position.y, 360_000);
}

#[test]
fn ten_quiet_ticks_keep_the_game_running() {
    let mut g = running_game(vec![0, 0, 0, 0]);
    for _ in 0..10 {
        g.step(NOTHING, FRAME, &vec![0, 0, 0, 0]);
        assert_eq!(g.state, GameState::Running);
        assert_eq!(g.obstacles.len(), 4);
    }
    assert_eq!(g.timer.elapsed, 10 * FRAME);
    for o in &g.obstacles {
        assert_eq!(o.direction, Direction::Left);
        assert_eq!(o.position.x, 1_280_000 - 9 * 3_333);
    }
}

#[test]
fn long_quiet_ticks_short_of_the_dino_keep_running() {
    let mut g = running_game(vec![0, 0, 0, 0]);
    g.step(NOTHING, 0, &vec![0, 0, 0, 0]);
    for o in &g.obstacles {
        assert_eq!(o.position.x, 1_280_000);
    }
    for _ in 0..9 {
        g.step(NOTHING, 611_111, &vec![0, 0, 0, 0]);
        assert_eq!(g.state, GameState::Running);
    }
    for o in &g.obstacles {
        assert_eq!(o.position.x, 1_280_000 - 9 * 122_222);
    }
}

#[test]
fn waiting_obstacle_on_the_dino_pauses() {
    let mut g = running_game(vec![5, 5, 5, 5]);
    g.obstacles[3].position = g.dino.position;
    g.step(NOTHING, FRAME, &vec![5, 5, 5, 5]);
    assert_eq!(g.state, GameState::Paused);
    assert!(g.obstacles.is_empty());
}

#[test]
fn obstacle_on_the_dino_pauses_and_clears_the_pool() {
    let mut g = running_game(vec![5, 5, 5, 5]);
    g.step(NOTHING, FRAME, &vec![5, 5, 5, 5]);
    assert_eq!(g.state, GameState::Running);
    g.obstacles[1].position = g.dino.position;
    g.obstacles[1].direction = Direction::Left;
    g.step(NOTHING, FRAME, &vec![5, 5, 5, 5]);
    assert_eq!(g.state, GameState::Paused);
    assert!(g.obstacles.is_empty());
    assert_eq!(g.timer.elapsed, 2 * FRAME);
    g.step(NOTHING, FRAME, &vec![5, 5, 5, 5]);
    assert_eq!(g.timer.elapsed, 2 * FRAME);
}

#[test]
fn jump_commands_in_mid_air_change_nothing() {
    let mut a = running_game(vec![100, 100, 100, 100]);
    let mut b = running_game(vec![100, 100, 100, 100]);
    let up = Input { jump_up: true, jump_down: false, restart: false };
    let both = Input { jump_up: true, jump_down: true, restart: false };
    a.step(up, FRAME, &vec![0, 0, 0, 0]);
    b.step(up, FRAME, &vec![0, 0, 0, 0]);
    for _ in 0..20 {
        a.step(both, FRAME, &vec![0, 0, 0, 0]);
        b.step(NOTHING, FRAME, &vec![0, 0, 0, 0]);
        assert_eq!(a.dino, b.dino);
    }
}

#[test]
fn pool_size_holds_while_running() {
    let mut g = Game::new(FIELD, CollisionPolicy::All);
    g.tick(RESTART, FRAME);
    assert_eq!(g.state, GameState::Running);
    let kinds: Vec<ObstacleKind> = g.obstacles.iter().map(|o| o.kind).collect();
    assert_eq!(
        kinds,
        vec![ObstacleKind::Bird, ObstacleKind::ShortCactus, ObstacleKind::ShortCactus, ObstacleKind::LongCactus]
    );
    for _ in 0..3000 {
        g.tick(NOTHING, FRAME);
        if g.state == GameState::Paused {
            assert!(g.obstacles.is_empty());
            break;
        }
        assert_eq!(g.obstacles.iter().map(|o| o.kind).collect::<Vec<_>>(), kinds);
    }
}

#[test]
fn random_roster_waits_within_bounds() {
    let mut g = Game::new(FIELD, CollisionPolicy::FirstOfEachKind);
    g.tick(RESTART, FRAME);
    let bounds = [900, 325, 325, 645];
    for (o, b) in g.obstacles.iter().zip(bounds) {
        match o.direction {
            Direction::Right(n) => assert!(n < b),
            Direction::Left => panic!("a new obstacle must wait"),
        }
    }
}

#[test]
fn timer_counts_only_while_running_and_saturates() {
    let mut t = ScoreTimer::spawn_timer();
    t.update_timer(FRAME);
    assert_eq!(t.elapsed, FRAME);
    t.update_timer(u64::MAX);
    assert_eq!(t.elapsed, u64::MAX);
    let mut r = ScoreTimer { elapsed: 4, best: 4 };
    r.restart();
    assert_eq!(r, ScoreTimer { elapsed: 4, best: 4 });
}
