//! Collision between the dinosaur and the obstacles.
use vstd::prelude::*;
use crate::geometry::{Position, PLAYER_SIZE, ENEMY_SIZE};
use crate::obstacle::{Obstacle, ObstacleKind};

verus! {

/// Two sprites touch when their centres are closer than the sum of their
/// radii, half of each sprite's size.
pub const COLLISION_REACH: i64 = 75000;

/// Which obstacles a collision check looks at.
#[derive(PartialEq, Eq, Structural, Clone, Copy, Debug)]
pub enum CollisionPolicy {
    /// Only the first obstacle of each kind, in pool order.
    FirstOfEachKind,
    /// Every obstacle.
    All,
}

/// The squared Euclidean distance between two points.
pub open spec fn dist_sq(a: Position, b: Position) -> int {
    (a.x - b.x) * (a.x - b.x) + (a.y - b.y) * (a.y - b.y)
}

/// The centres are closer than `COLLISION_REACH`: the distance is below the
/// reach exactly when its square is below the reach's square.
pub open spec fn collides_spec(a: Position, b: Position) -> bool {
    dist_sq(a, b) < COLLISION_REACH * COLLISION_REACH
}

proof fn lemma_far_on_one_axis(d: int, e: int)
    requires
        d <= -COLLISION_REACH || d >= COLLISION_REACH,
    ensures
        d * d + e * e >= COLLISION_REACH * COLLISION_REACH,
{
    assert(d * d >= COLLISION_REACH * COLLISION_REACH) by (nonlinear_arith)
        requires
            d <= -COLLISION_REACH || d >= COLLISION_REACH,
            COLLISION_REACH > 0,
    ;
    assert(e * e >= 0) by (nonlinear_arith);
}

/// Whether a sprite centred at `a` touches one centred at `b`.
pub fn collides(a: Position, b: Position) -> (r: bool)
    ensures
        r == collides_spec(a, b),
{
    assert(COLLISION_REACH == PLAYER_SIZE / 2 + ENEMY_SIZE / 2);
    let dx: i128 = a.x as i128 - b.x as i128;
    let dy: i128 = a.y as i128 - b.y as i128;
    let reach = COLLISION_REACH as i128;
    if dx <= -reach || dx >= reach {
        proof {
            lemma_far_on_one_axis(dx as int, dy as int);
        }
        return false;
    }
    if dy <= -reach || dy >= reach {
        proof {
            lemma_far_on_one_axis(dy as int, dx as int);
        }
        return false;
    }
    assert(0 <= dx * dx <= 75000 * 75000) by (nonlinear_arith)
        requires
            -75000 < dx < 75000,
    ;
    assert(0 <= dy * dy <= 75000 * 75000) by (nonlinear_arith)
        requires
            -75000 < dy < 75000,
    ;
    dx * dx + dy * dy < reach * reach
}

/// Whether the policy has the obstacle at index `i` checked.
pub open spec fn checked(obstacles: Seq<Obstacle>, i: int, policy: CollisionPolicy) -> bool {
    match policy {
        CollisionPolicy::All => true,
        CollisionPolicy::FirstOfEachKind => forall|j: int|
            0 <= j < i ==> obstacles[j].kind != (#[trigger] obstacles[i]).kind,
    }
}

/// Some obstacle among the first `n` that the policy checks touches the
/// dinosaur at `p`.
pub open spec fn hit_among(p: Position, obstacles: Seq<Obstacle>, policy: CollisionPolicy, n: int) -> bool {
    exists|i: int|
        0 <= i < n && checked(obstacles, i, policy) && #[trigger] collides_spec(p, obstacles[i].position)
}

/// Some obstacle that the policy checks touches the dinosaur at `p`.
pub open spec fn hit_spec(p: Position, obstacles: Seq<Obstacle>, policy: CollisionPolicy) -> bool {
    hit_among(p, obstacles, policy, obstacles.len() as int)
}

pub open spec fn kind_seen(obstacles: Seq<Obstacle>, n: int, k: ObstacleKind) -> bool {
    exists|j: int| 0 <= j < n && (#[trigger] obstacles[j]).kind == k
}

/// Tests the dinosaur at `player` against the obstacles that the policy checks.
pub fn collision_detection(player: Position, obstacles: &Vec<Obstacle>, policy: CollisionPolicy) -> (r: bool)
    ensures
        r == hit_spec(player, obstacles@, policy),
{
    let ghost s = obstacles@;
    let mut seen_short = false;
    let mut seen_long = false;
    let mut seen_bird = false;
    let mut i: usize = 0;
    while i < obstacles.len()
        invariant
            s == obstacles@,
            i <= s.len(),
            seen_short == kind_seen(s, i as int, ObstacleKind::ShortCactus),
            seen_long == kind_seen(s, i as int, ObstacleKind::LongCactus),
            seen_bird == kind_seen(s, i as int, ObstacleKind::Bird),
            !hit_among(player, s, policy, i as int),
        decreases s.len() - i,
    {
        let o = obstacles[i];
        let seen = match o.kind {
            ObstacleKind::ShortCactus => seen_short,
            ObstacleKind::LongCactus => seen_long,
            ObstacleKind::Bird => seen_bird,
        };
        let look = match policy {
            CollisionPolicy::All => true,
            CollisionPolicy::FirstOfEachKind => !seen,
        };
        assert(look == checked(s, i as int, policy)) by {
            if seen {
                let j = choose|j: int| 0 <= j < i && (#[trigger] s[j]).kind == o.kind;
                assert(s[j].kind == s[i as int].kind);
            }
        }
        if look && collides(player, o.position) {
            assert(hit_among(player, s, policy, s.len() as int)) by {
                assert(collides_spec(player, s[i as int].position));
            }
            return true;
        }
        match o.kind {
            ObstacleKind::ShortCactus => seen_short = true,
            ObstacleKind::LongCactus => seen_long = true,
            ObstacleKind::Bird => seen_bird = true,
        }
        assert(kind_seen(s, i + 1, o.kind)) by {
            assert(s[i as int].kind == o.kind);
        }
        assert(!hit_among(player, s, policy, i + 1)) by {
            if hit_among(player, s, policy, i + 1) {
                let k = choose|k: int|
                    0 <= k < i + 1 && checked(s, k, policy) && #[trigger] collides_spec(player, s[k].position);
                assert(k != i as int);
            }
        }
        i = i + 1;
    }
    false
}

} // verus!
