use topsy_rex::geometry::{Field, Position};
use topsy_rex::obstacle::{
    enemy_bounds, enemy_movement, grace_period, move_all, recycle_all, spawn_enemies, travel,
    Direction, Obstacle, ObstacleKind,
};

const FIELD: Field = Field { width: 1280, height: 720 };

fn obstacle(kind: ObstacleKind, x: i64, direction: Direction) -> Obstacle {
    Obstacle { kind, position: Position { x, y: 355_000 }, direction }
}

#[test]
fn waiting_obstacle_keeps_its_place() {
    let mut o = obstacle(ObstacleKind::ShortCactus, 900_000, Direction::Right(2));
    enemy_movement(&mut o, &FIELD, 16_667);
    assert_eq!(o.position.x, 900_000);
    assert_eq!(o.direction, Direction::Right(1));
    enemy_bounds(&mut o, &FIELD, 77);
    assert_eq!(o.position.x, 900_000);
    assert_eq!(o.direction, Direction::Right(1));
    enemy_movement(&mut o, &FIELD, 16_667);
    assert_eq!(o.position.x, 900_000);
    assert_eq!(o.direction, Direction::Right(0));
    enemy_movement(&mut o, &FIELD, 16_667);
    assert_eq!(o.direction, Direction::Left);
    assert_eq!(o.position.x, 1_280_000);
    assert_eq!(o.position.y, 355_000);
}

#[test]
fn moving_obstacle_scrolls_by_speed_times_time() {
    let mut o = obstacle(ObstacleKind::Bird, 1_000_000, Direction::Left);
    enemy_movement(&mut o, &FIELD, 16_667);
    assert_eq!(o.position.x, 1_000_000 - 3_333);
    enemy_movement(&mut o, &FIELD, 1_000_000);
    assert_eq!(o.position.x, 1_000_000 - 3_333 - 200_000);
    assert_eq!(travel(ObstacleKind::LongCactus, 0), 0);
    assert_eq!(travel(ObstacleKind::LongCactus, 5), 1);
}

#[test]
fn grace_periods_stay_below_each_kinds_bound() {
    assert_eq!(grace_period(ObstacleKind::ShortCactus, 1000), 25);
    assert_eq!(grace_period(ObstacleKind::LongCactus, 1000), 355);
    assert_eq!(grace_period(ObstacleKind::Bird, 1000), 100);
    assert_eq!(grace_period(ObstacleKind::Bird, 899), 899);
    assert_eq!(grace_period(ObstacleKind::Bird, usize::MAX), usize::MAX % 900);
}

#[test]
fn obstacle_past_the_left_edge_is_recycled() {
    let mut o = obstacle(ObstacleKind::LongCactus, 37_499, Direction::Left);
    enemy_bounds(&mut o, &FIELD, 700);
    assert_eq!(o.position.x, 1_280_000);
    assert_eq!(o.direction, Direction::Right(55));

    let mut still = obstacle(ObstacleKind::LongCactus, 37_500, Direction::Left);
    enemy_bounds(&mut still, &FIELD, 700);
    assert_eq!(still.position.x, 37_500);
    assert_eq!(still.direction, Direction::Left);
}

#[test]
fn roster_waits_off_the_right_edge() {
    let r = spawn_enemies(&FIELD, &vec![1000, 1000, 10, 1000]);
    assert_eq!(r.len(), 4);
    assert_eq!(
        r[0],
        Obstacle {
            kind: ObstacleKind::Bird,
            position: Position { x: 1_280_000, y: 460_000 },
            direction: Direction::Right(100),
        }
    );
    assert_eq!(r[1].kind, ObstacleKind::ShortCactus);
    assert_eq!(r[1].position, Position { x: 1_280_000, y: 355_000 });
    assert_eq!(r[1].direction, Direction::Right(25));
    assert_eq!(r[2].kind, ObstacleKind::ShortCactus);
    assert_eq!(r[2].direction, Direction::Right(10));
    assert_eq!(r[3].kind, ObstacleKind::LongCactus);
    assert_eq!(r[3].position, Position { x: 1_280_000, y: 360_000 });
    assert_eq!(r[3].direction, Direction::Right(355));
    assert!(r.iter().all(|o| o.direction != Direction::Left));
}

#[test]
fn pool_moves_and_recycles_in_place() {
    let mut pool = vec![
        obstacle(ObstacleKind::ShortCactus, 38_000, Direction::Left),
        obstacle(ObstacleKind::Bird, 500_000, Direction::Right(3)),
    ];
    move_all(&mut pool, &FIELD, 16_667);
    assert_eq!(pool[0].position.x, 38_000 - 3_333);
    assert_eq!(pool[1].direction, Direction::Right(2));
    recycle_all(&mut pool, &FIELD, &vec![330, 5]);
    assert_eq!(pool.len(), 2);
    assert_eq!(pool[0].position.x, 1_280_000);
    assert_eq!(pool[0].direction, Direction::Right(5));
    assert_eq!(pool[1].position.x, 500_000);
    assert_eq!(pool[1].direction, Direction::Right(2));
}
