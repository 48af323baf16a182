//! The dinosaur's jump: a small state machine that moves the sprite a fixed
//! step per tick away from the ground, holds it there, and brings it back.
use vstd::prelude::*;

verus! {

/// Vertical distance covered in one tick of a jump, in thousandths of a pixel.
pub const JUMP_STEP: i64 = 5000;

/// Countdown that a jump starts its climb with.
pub const CLIMB_TICKS: u8 = 16;

/// Countdown of the hold at the top of a jump.
pub const HOLD_TICKS: u8 = 25;

/// Ticks from the tick a jump starts to the tick it lands.
pub const ARC_TICKS: u64 = 60;

/// Phase of a jump, with the ticks left in it.
#[derive(PartialEq, Eq, Structural, PartialOrd, Ord, Clone, Copy, Debug)]
pub enum JumpInnerDirection {
    /// Moving away from the ground.
    Go(u8),
    /// Holding still at the far end of the arc.
    Wait(u8),
    /// Moving back to the ground.
    Reset(u8),
}

/// The jump the dinosaur is in: an arc that first goes up, one that first goes
/// down, or none: `Grounded`, on the ground and ready to jump.
#[derive(PartialEq, Eq, Structural, PartialOrd, Ord, Clone, Copy, Debug)]
pub enum JumpDirection {
    Up(JumpInnerDirection),
    Down(JumpInnerDirection),
    Grounded,
}

/// The phase's countdown lies in the range that the arc gives it.
pub open spec fn valid_phase(p: JumpInnerDirection) -> bool {
    match p {
        JumpInnerDirection::Go(n) => n <= CLIMB_TICKS,
        JumpInnerDirection::Wait(n) => n <= HOLD_TICKS,
        JumpInnerDirection::Reset(n) => n <= CLIMB_TICKS,
    }
}

pub open spec fn valid_jump(j: JumpDirection) -> bool {
    match j {
        JumpDirection::Up(p) => valid_phase(p),
        JumpDirection::Down(p) => valid_phase(p),
        JumpDirection::Grounded => true,
    }
}

/// How many steps away from the ground a phase stands.
pub open spec fn phase_height(p: JumpInnerDirection) -> int {
    match p {
        JumpInnerDirection::Go(n) => CLIMB_TICKS - n,
        JumpInnerDirection::Wait(_) => CLIMB_TICKS + 1,
        JumpInnerDirection::Reset(n) => n + 1,
    }
}

/// Where the dinosaur stands relative to the ground in state `j`.
pub open spec fn arc_offset(j: JumpDirection) -> int {
    match j {
        JumpDirection::Up(p) => phase_height(p) * JUMP_STEP,
        JumpDirection::Down(p) => -phase_height(p) * JUMP_STEP,
        JumpDirection::Grounded => 0,
    }
}

/// The phase after one tick, and the number of steps (1, 0 or -1) moved away
/// from the ground on that tick; `None` once the arc is over.
pub open spec fn phase_tick(p: JumpInnerDirection) -> (Option<JumpInnerDirection>, int) {
    match p {
        JumpInnerDirection::Go(n) => if n == 0 {
            (Some(JumpInnerDirection::Wait(HOLD_TICKS)), 1)
        } else {
            (Some(JumpInnerDirection::Go((n - 1) as u8)), 1)
        },
        JumpInnerDirection::Wait(n) => if n == 0 {
            (Some(JumpInnerDirection::Reset(CLIMB_TICKS)), 0)
        } else {
            (Some(JumpInnerDirection::Wait((n - 1) as u8)), 0)
        },
        JumpInnerDirection::Reset(n) => if n == 0 {
            (None, -1)
        } else {
            (Some(JumpInnerDirection::Reset((n - 1) as u8)), -1)
        },
    }
}

/// The jump state after one tick, and the vertical displacement of that tick.
pub open spec fn jump_tick(j: JumpDirection) -> (JumpDirection, int) {
    match j {
        JumpDirection::Up(p) => (
            match phase_tick(p).0 {
                Some(q) => JumpDirection::Up(q),
                None => JumpDirection::Grounded,
            },
            phase_tick(p).1 * JUMP_STEP,
        ),
        JumpDirection::Down(p) => (
            match phase_tick(p).0 {
                Some(q) => JumpDirection::Down(q),
                None => JumpDirection::Grounded,
            },
            -phase_tick(p).1 * JUMP_STEP,
        ),
        JumpDirection::Grounded => (JumpDirection::Grounded, 0),
    }
}

/// The state after `n` ticks from `j`, and the sum of the displacements of
/// those ticks.
pub open spec fn run_arc(j: JumpDirection, n: nat) -> (JumpDirection, int)
    decreases n,
{
    if n == 0 {
        (j, 0)
    } else {
        let rest = run_arc(jump_tick(j).0, (n - 1) as nat);
        (rest.0, jump_tick(j).1 + rest.1)
    }
}

/// Ticks left until the arc lands.
pub open spec fn ticks_to_ground(j: JumpDirection) -> nat {
    let left = |p: JumpInnerDirection|
        match p {
            JumpInnerDirection::Go(n) => n + HOLD_TICKS + CLIMB_TICKS + 3,
            JumpInnerDirection::Wait(n) => n + CLIMB_TICKS + 2,
            JumpInnerDirection::Reset(n) => n + 1,
        };
    match j {
        JumpDirection::Up(p) => left(p) as nat,
        JumpDirection::Down(p) => left(p) as nat,
        JumpDirection::Grounded => 0,
    }
}

/// The state that a jump command leaves: only the ground state takes one, and
/// of two commands on one tick the upward one wins.
pub open spec fn receive_spec(j: JumpDirection, up: bool, down: bool) -> JumpDirection {
    if j != JumpDirection::Grounded {
        j
    } else if up {
        JumpDirection::Up(JumpInnerDirection::Go(CLIMB_TICKS))
    } else if down {
        JumpDirection::Down(JumpInnerDirection::Go(CLIMB_TICKS))
    } else {
        JumpDirection::Grounded
    }
}

/// Takes the jump commands of one tick.
pub fn receive(j: JumpDirection, up: bool, down: bool) -> (r: JumpDirection)
    ensures
        r == receive_spec(j, up, down),
        j != JumpDirection::Grounded ==> r == j,
{
    if j == JumpDirection::Grounded {
        if up {
            JumpDirection::Up(JumpInnerDirection::Go(CLIMB_TICKS))
        } else if down {
            JumpDirection::Down(JumpInnerDirection::Go(CLIMB_TICKS))
        } else {
            JumpDirection::Grounded
        }
    } else {
        j
    }
}

/// One tick of a phase: the next phase (`None` once the arc is over), and the
/// steps moved away from the ground.
fn advance_phase(p: JumpInnerDirection) -> (r: (Option<JumpInnerDirection>, i64))
    requires
        valid_phase(p),
    ensures
        r.0 == phase_tick(p).0,
        r.1 == phase_tick(p).1,
        r.0 matches Some(q) ==> valid_phase(q),
{
    match p {
        JumpInnerDirection::Go(0) => (Some(JumpInnerDirection::Wait(HOLD_TICKS)), 1),
        JumpInnerDirection::Go(n) => (Some(JumpInnerDirection::Go(n - 1)), 1),
        JumpInnerDirection::Wait(0) => (Some(JumpInnerDirection::Reset(CLIMB_TICKS)), 0),
        JumpInnerDirection::Wait(n) => (Some(JumpInnerDirection::Wait(n - 1)), 0),
        JumpInnerDirection::Reset(0) => (None, -1),
        JumpInnerDirection::Reset(n) => (Some(JumpInnerDirection::Reset(n - 1)), -1),
    }
}

/// One tick of a jump: the next state and the vertical displacement.
pub fn advance(j: JumpDirection) -> (r: (JumpDirection, i64))
    requires
        valid_jump(j),
    ensures
        r.0 == jump_tick(j).0,
        r.1 == jump_tick(j).1,
        valid_jump(r.0),
        r.1 == arc_offset(r.0) - arc_offset(j),
{
    match j {
        JumpDirection::Up(p) => {
            let (q, s) = advance_phase(p);
            let next = match q {
                Some(q) => JumpDirection::Up(q),
                None => JumpDirection::Grounded,
            };
            (next, s * JUMP_STEP)
        },
        JumpDirection::Down(p) => {
            let (q, s) = advance_phase(p);
            let next = match q {
                Some(q) => JumpDirection::Down(q),
                None => JumpDirection::Grounded,
            };
            (next, -s * JUMP_STEP)
        },
        JumpDirection::Grounded => (JumpDirection::Grounded, 0),
    }
}

/// From any state of an arc, the arc lands after `ticks_to_ground(j)` ticks,
/// and the displacements on the way add up to the way back to the ground.
pub proof fn lemma_lands(j: JumpDirection)
    requires
        valid_jump(j),
    ensures
        run_arc(j, ticks_to_ground(j)) == (JumpDirection::Grounded, -arc_offset(j)),
    decreases ticks_to_ground(j),
{
    if j != JumpDirection::Grounded {
        let next = jump_tick(j).0;
        assert(ticks_to_ground(next) + 1 == ticks_to_ground(j));
        assert(valid_jump(next));
        lemma_lands(next);
        assert(jump_tick(j).1 == arc_offset(next) - arc_offset(j));
    }
}

/// An arc in flight is still in flight for every tick short of
/// `ticks_to_ground(j)`.
pub proof fn lemma_in_flight(j: JumpDirection, n: nat)
    requires
        valid_jump(j),
        n < ticks_to_ground(j),
    ensures
        run_arc(j, n).0 != JumpDirection::Grounded,
    decreases n,
{
    if n > 0 {
        lemma_in_flight(jump_tick(j).0, (n - 1) as nat);
    }
}

/// The state that a jump started from the ground is in, going up or down.
pub open spec fn arc_start(up: bool) -> JumpDirection {
    receive_spec(JumpDirection::Grounded, up, !up)
}

/// A jump started from the ground, in either direction, lands after exactly
/// `ARC_TICKS` ticks and not before, and its per-tick displacements sum to
/// zero: the dinosaur ends where it started.
pub proof fn lemma_arc_sums_to_zero(up: bool)
    ensures
        run_arc(arc_start(up), ARC_TICKS as nat) == (
        JumpDirection::Grounded,
        0int,
        ),
        forall|n: nat|
            n < ARC_TICKS ==> (#[trigger] run_arc(arc_start(up), n)).0
                != JumpDirection::Grounded,
{
    let j = arc_start(up);
    lemma_lands(j);
    assert forall|n: nat| #![trigger run_arc(j, n)]
        n < ARC_TICKS implies run_arc(j, n).0 != JumpDirection::Grounded by {
        lemma_in_flight(j, n);
    }
}

} // verus!
