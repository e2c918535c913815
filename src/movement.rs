//! One fixed tick of ship movement: turn, thrust along the turned heading, and
//! reflect off the arena's walls.
//!
//! A tick is two steps. `turn` applies the rotation intent to the heading.
//! `advance` then moves the ship along `up`, the ship's local up axis under the
//! turned heading, and reflects it off any wall it would cross.
use vstd::prelude::*;
use crate::arena::{
    within_x, within_y, Direction, Player, Pose, DIRECTION_SCALE, FULL_TURN, HALF_HEIGHT_FINE,
    HALF_TURN, HALF_WIDTH_FINE, MAX_MOVEMENT_SPEED, ARCMIN_PER_DEGREE, TICKS_PER_SECOND,
};
use crate::intent::MovementIntent;

verus! {

/// Arcminutes turned in one tick: rotation factor times the rotation speed in
/// degrees per second, times `ARCMIN_PER_DEGREE / TICKS_PER_SECOND` (which is 1).
pub open spec fn turn_step(ship: Player, i: MovementIntent) -> int {
    i.rotation * ship.rotation_speed
}

/// The heading after the rotation of one tick, reduced to one turn.
pub open spec fn turned_heading(p: Pose, ship: Player, i: MovementIntent) -> int {
    (p.heading + turn_step(ship, i)) % (FULL_TURN as int)
}

/// The pose after the rotation of one tick.
pub open spec fn turned(p: Pose, ship: Player, i: MovementIntent) -> Pose {
    Pose { x: p.x, y: p.y, heading: turned_heading(p, ship, i) as i64 }
}

/// One tick's travel along a direction, per unit of the direction's scale:
/// thrust halves times the movement speed. Along a unit direction this is
/// `(thrust_halves / 2) * movement_speed / TICKS_PER_SECOND` arena units.
pub open spec fn travel(ship: Player, i: MovementIntent) -> int {
    i.thrust_halves * ship.movement_speed
}

/// Tentative displacement along X, in fine units.
pub open spec fn displacement_x(ship: Player, i: MovementIntent, up: Direction) -> int {
    up.x * travel(ship, i)
}

/// Tentative displacement along Y, in fine units.
pub open spec fn displacement_y(ship: Player, i: MovementIntent, up: Direction) -> int {
    up.y * travel(ship, i)
}

/// A full reversal of the heading (the inverse rotation).
pub open spec fn reversed(h: int) -> int {
    (FULL_TURN - h) % (FULL_TURN as int)
}

/// The heading `180° - h`.
pub open spec fn mirrored(h: int) -> int {
    (HALF_TURN - h) % (FULL_TURN as int)
}

/// Whether the tentative position crosses the left or right wall.
pub open spec fn hits_x(p: Pose, ship: Player, i: MovementIntent, up: Direction) -> bool {
    !within_x(p.x + displacement_x(ship, i, up))
}

/// Whether the tentative position crosses the top or bottom wall.
pub open spec fn hits_y(p: Pose, ship: Player, i: MovementIntent, up: Direction) -> bool {
    !within_y(p.y + displacement_y(ship, i, up))
}

/// X after the move: the displacement's X is negated where the left or right
/// wall is crossed.
pub open spec fn advanced_x(p: Pose, ship: Player, i: MovementIntent, up: Direction) -> int {
    if hits_x(p, ship, i, up) {
        p.x - displacement_x(ship, i, up)
    } else {
        p.x + displacement_x(ship, i, up)
    }
}

/// Y after the move: the displacement's Y is negated where the top or bottom
/// wall is crossed (judged on the same tentative position as X).
pub open spec fn advanced_y(p: Pose, ship: Player, i: MovementIntent, up: Direction) -> int {
    if hits_y(p, ship, i, up) {
        p.y - displacement_y(ship, i, up)
    } else {
        p.y + displacement_y(ship, i, up)
    }
}

/// Heading after the move: reversed at a left or right wall, then set to
/// `180°` minus itself at a top or bottom wall.
pub open spec fn advanced_heading(
    p: Pose,
    ship: Player,
    i: MovementIntent,
    up: Direction,
) -> int {
    let h1 = if hits_x(p, ship, i, up) {
        reversed(p.heading as int)
    } else {
        p.heading as int
    };
    if hits_y(p, ship, i, up) {
        mirrored(h1)
    } else {
        h1
    }
}

/// The pose after the move of one tick.
pub open spec fn advanced(p: Pose, ship: Player, i: MovementIntent, up: Direction) -> Pose {
    Pose {
        x: advanced_x(p, ship, i, up) as i64,
        y: advanced_y(p, ship, i, up) as i64,
        heading: advanced_heading(p, ship, i, up) as i64,
    }
}

/// The pose after a whole tick, where `up` is the local up axis under the
/// turned heading.
pub open spec fn ticked(p: Pose, ship: Player, i: MovementIntent, up: Direction) -> Pose {
    advanced(turned(p, ship, i), ship, i, up)
}

/// Applies the rotation of one tick to the heading; the position stays.
pub fn turn(pose: &mut Pose, ship: &Player, intent: MovementIntent)
    requires
        old(pose).wf(),
        intent.wf(),
    ensures
        final(pose).heading == turned_heading(*old(pose), *ship, intent),
        *final(pose) == turned(*old(pose), *ship, intent),
        final(pose).wf(),
{
    let step: i64 = (ship.rotation_speed % (FULL_TURN as u32)) as i64;
    let h = pose.heading;
    let ghost f: int = FULL_TURN as int;
    let ghost q: int = ship.rotation_speed as int / f;
    assert(ship.rotation_speed as int == f * q + step) by {
        vstd::arithmetic::div_mod::lemma_fundamental_div_mod(ship.rotation_speed as int, f);
    }
    let nh: i64;
    if intent.rotation == 1 {
        nh = if h + step >= FULL_TURN {
            h + step - FULL_TURN
        } else {
            h + step
        };
        proof {
            assert(turn_step(*ship, intent) == ship.rotation_speed as int);
            vstd::arithmetic::div_mod::lemma_mod_multiples_vanish(q, h + step, f);
            vstd::arithmetic::div_mod::lemma_mod_multiples_vanish(1, nh as int, f);
            vstd::arithmetic::div_mod::lemma_small_mod(nh as nat, f as nat);
            assert(h + step == f * 1 + nh || h + step == nh);
        }
    } else if intent.rotation == -1 {
        nh = if h - step < 0 {
            h - step + FULL_TURN
        } else {
            h - step
        };
        proof {
            assert(turn_step(*ship, intent) == -(ship.rotation_speed as int));
            assert(h - ship.rotation_speed as int == f * (-q) + (h - step));
            vstd::arithmetic::div_mod::lemma_mod_multiples_vanish(-q, h - step, f);
            vstd::arithmetic::div_mod::lemma_mod_multiples_vanish(-1, nh as int, f);
            vstd::arithmetic::div_mod::lemma_small_mod(nh as nat, f as nat);
            assert(h - step == f * (-1) + nh || h - step == nh);
        }
    } else {
        nh = h;
        proof {
            assert(intent.rotation == 0);
            assert(intent.rotation * ship.rotation_speed == 0) by (nonlinear_arith)
                requires
                    intent.rotation == 0,
            ;
            vstd::arithmetic::div_mod::lemma_small_mod(nh as nat, f as nat);
        }
    }
    pose.heading = nh;
}


/// The inverse rotation of a heading within one turn.
fn reverse_heading(h: i64) -> (r: i64)
    requires
        0 <= h < FULL_TURN,
    ensures
        r == reversed(h as int),
        0 <= r < FULL_TURN,
{
    let r = if h == 0 {
        0
    } else {
        FULL_TURN - h
    };
    proof {
        let f = FULL_TURN as int;
        if h == 0 {
            vstd::arithmetic::div_mod::lemma_mod_self_0(f);
        } else {
            vstd::arithmetic::div_mod::lemma_small_mod(r as nat, f as nat);
        }
    }
    r
}

/// The heading `180° - h` within one turn.
fn mirror_heading(h: i64) -> (r: i64)
    requires
        0 <= h < FULL_TURN,
    ensures
        r == mirrored(h as int),
        0 <= r < FULL_TURN,
{
    let r = if h <= HALF_TURN {
        HALF_TURN - h
    } else {
        HALF_TURN - h + FULL_TURN
    };
    proof {
        let f = FULL_TURN as int;
        vstd::arithmetic::div_mod::lemma_small_mod(r as nat, f as nat);
        if h > HALF_TURN {
            vstd::arithmetic::div_mod::lemma_mod_multiples_vanish(1, HALF_TURN - h, f);
        }
    }
    r
}

/// Moves the ship along `up` by one tick's travel and reflects it off any wall
/// that the tentative position crosses: at the left or right wall the heading
/// is reversed and the displacement's X negated; at the top or bottom wall the
/// heading becomes `180°` minus itself and the displacement's Y is negated.
/// Both checks use the same tentative position.
pub fn advance(pose: &mut Pose, ship: &Player, intent: MovementIntent, up: Direction)
    requires
        old(pose).wf(),
        ship.wf(),
        intent.wf(),
        up.wf(),
    ensures
        final(pose).x == advanced_x(*old(pose), *ship, intent, up),
        final(pose).y == advanced_y(*old(pose), *ship, intent, up),
        final(pose).heading == advanced_heading(*old(pose), *ship, intent, up),
        *final(pose) == advanced(*old(pose), *ship, intent, up),
        final(pose).wf(),
{
    let speed = ship.movement_speed as i64;
    assert(-2 * MAX_MOVEMENT_SPEED <= intent.thrust_halves * speed <= 2 * MAX_MOVEMENT_SPEED)
        by (nonlinear_arith)
        requires
            -1 <= intent.thrust_halves <= 2,
            0 <= speed <= MAX_MOVEMENT_SPEED,
    ;
    let distance = intent.thrust_halves * speed;
    assert(-HALF_HEIGHT_FINE <= up.x * distance <= HALF_HEIGHT_FINE) by (nonlinear_arith)
        requires
            -DIRECTION_SCALE <= up.x <= DIRECTION_SCALE,
            -2 * MAX_MOVEMENT_SPEED <= distance <= 2 * MAX_MOVEMENT_SPEED,
    ;
    assert(-HALF_HEIGHT_FINE <= up.y * distance <= HALF_HEIGHT_FINE) by (nonlinear_arith)
        requires
            -DIRECTION_SCALE <= up.y <= DIRECTION_SCALE,
            -2 * MAX_MOVEMENT_SPEED <= distance <= 2 * MAX_MOVEMENT_SPEED,
    ;
    let mut dx = up.x * distance;
    let mut dy = up.y * distance;
    let tx = pose.x + dx;
    let ty = pose.y + dy;
    let mut heading = pose.heading;
    if tx < -HALF_WIDTH_FINE || tx > HALF_WIDTH_FINE {
        heading = reverse_heading(heading);
        dx = -dx;
    }
    if ty < -HALF_HEIGHT_FINE || ty > HALF_HEIGHT_FINE {
        heading = mirror_heading(heading);
        dy = -dy;
    }
    pose.x = pose.x + dx;
    pose.y = pose.y + dy;
    pose.heading = heading;
}

} // verus!
