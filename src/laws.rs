//! Laws of the tick, stated over the spec functions of `movement`.
use vstd::prelude::*;
use crate::arena::{
    within_x, within_y, Direction, Player, Pose, ARCMIN_PER_DEGREE, DIRECTION_SCALE,
    FINE_PER_UNIT, FULL_TURN, HALF_HEIGHT_FINE, HALF_TURN, MAX_MOVEMENT_SPEED, SHIP_MOVEMENT_SPEED,
    SHIP_ROTATION_SPEED, TICKS_PER_SECOND,
};
use crate::intent::{intent_spec, rotation_factor, thrust_halves, Keys, MovementIntent};
use crate::movement::{
    advanced, advanced_heading, advanced_x, advanced_y, displacement_x, displacement_y, hits_x,
    hits_y, mirrored, reversed, ticked, travel, turn_step, turned, turned_heading,
};

verus! {

/// Whether no key is held.
pub open spec fn idle(k: Keys) -> bool {
    !k.left && !k.right && !k.forward && !k.backward
}

/// Whether forward is the only key held.
pub open spec fn forward_only(k: Keys) -> bool {
    !k.left && !k.right && k.forward && !k.backward
}

/// Whether backward is the only key held.
pub open spec fn backward_only(k: Keys) -> bool {
    !k.left && !k.right && !k.forward && k.backward
}

proof fn lemma_displacement_bounds(ship: Player, i: MovementIntent, up: Direction)
    requires
        ship.wf(),
        i.wf(),
        up.wf(),
    ensures
        -HALF_HEIGHT_FINE <= displacement_x(ship, i, up) <= HALF_HEIGHT_FINE,
        -HALF_HEIGHT_FINE <= displacement_y(ship, i, up) <= HALF_HEIGHT_FINE,
{
    let d = travel(ship, i);
    assert(-2 * MAX_MOVEMENT_SPEED <= d <= 2 * MAX_MOVEMENT_SPEED) by (nonlinear_arith)
        requires
            d == i.thrust_halves * ship.movement_speed,
            -1 <= i.thrust_halves <= 2,
            0 <= ship.movement_speed <= MAX_MOVEMENT_SPEED,
    ;
    assert(-HALF_HEIGHT_FINE <= up.x * d <= HALF_HEIGHT_FINE) by (nonlinear_arith)
        requires
            -DIRECTION_SCALE <= up.x <= DIRECTION_SCALE,
            -2 * MAX_MOVEMENT_SPEED <= d <= 2 * MAX_MOVEMENT_SPEED,
    ;
    assert(-HALF_HEIGHT_FINE <= up.y * d <= HALF_HEIGHT_FINE) by (nonlinear_arith)
        requires
            -DIRECTION_SCALE <= up.y <= DIRECTION_SCALE,
            -2 * MAX_MOVEMENT_SPEED <= d <= 2 * MAX_MOVEMENT_SPEED,
    ;
}

proof fn lemma_heading_in_turn(h: int)
    ensures
        0 <= reversed(h) < FULL_TURN,
        0 <= mirrored(h) < FULL_TURN,
{
    vstd::arithmetic::div_mod::lemma_mod_bound(FULL_TURN - h, FULL_TURN as int);
    vstd::arithmetic::div_mod::lemma_mod_bound(HALF_TURN - h, FULL_TURN as int);
}

/// A turn keeps a pose well formed.
pub proof fn lemma_turned_wf(p: Pose, ship: Player, i: MovementIntent)
    requires
        p.wf(),
    ensures
        turned(p, ship, i).wf(),
        turned(p, ship, i).heading == turned_heading(p, ship, i),
{
    vstd::arithmetic::div_mod::lemma_mod_bound(p.heading + turn_step(ship, i), FULL_TURN as int);
}

/// A move keeps a pose inside the arena: where the tentative position crosses a
/// wall, the reflected position lies on the inner side of it.
pub proof fn lemma_advanced_wf(p: Pose, ship: Player, i: MovementIntent, up: Direction)
    requires
        p.wf(),
        ship.wf(),
        i.wf(),
        up.wf(),
    ensures
        within_x(advanced_x(p, ship, i, up)),
        within_y(advanced_y(p, ship, i, up)),
        advanced(p, ship, i, up).wf(),
        advanced(p, ship, i, up).x == advanced_x(p, ship, i, up),
        advanced(p, ship, i, up).y == advanced_y(p, ship, i, up),
        advanced(p, ship, i, up).heading == advanced_heading(p, ship, i, up),
{
    lemma_displacement_bounds(ship, i, up);
    lemma_heading_in_turn(p.heading as int);
    lemma_heading_in_turn(reversed(p.heading as int));
}

/// With no key held, a tick leaves the pose as it was: no rotation and no
/// translation, whatever the direction handed in.
pub proof fn lemma_idle_tick_keeps_pose(p: Pose, ship: Player, keys: Keys, up: Direction)
    requires
        p.wf(),
        ship.wf(),
        up.wf(),
        idle(keys),
    ensures
        turned(p, ship, intent_spec(keys)) == p,
        ticked(p, ship, intent_spec(keys), up) == p,
{
    let i = intent_spec(keys);
    assert(i.rotation == 0 && i.thrust_halves == 0);
    assert(turn_step(ship, i) == 0) by (nonlinear_arith)
        requires
            i.rotation == 0,
            turn_step(ship, i) == i.rotation * ship.rotation_speed,
    ;
    vstd::arithmetic::div_mod::lemma_small_mod(p.heading as nat, FULL_TURN as nat);
    assert(turned(p, ship, i) == p);
    assert(travel(ship, i) == 0) by (nonlinear_arith)
        requires
            i.thrust_halves == 0,
            travel(ship, i) == i.thrust_halves * ship.movement_speed,
    ;
    assert(displacement_x(ship, i, up) == 0) by (nonlinear_arith)
        requires
            travel(ship, i) == 0,
            displacement_x(ship, i, up) == up.x * travel(ship, i),
    ;
    assert(displacement_y(ship, i, up) == 0) by (nonlinear_arith)
        requires
            travel(ship, i) == 0,
            displacement_y(ship, i, up) == up.y * travel(ship, i),
    ;
    assert(!hits_x(p, ship, i, up) && !hits_y(p, ship, i, up));
    assert(advanced(p, ship, i, up) == p);
}

/// Running two idle ticks in a row gives the same pose after each: no drift.
pub proof fn lemma_idle_ticks_do_not_drift(
    p: Pose,
    ship: Player,
    keys: Keys,
    up1: Direction,
    up2: Direction,
)
    requires
        p.wf(),
        ship.wf(),
        up1.wf(),
        up2.wf(),
        idle(keys),
    ensures
        ticked(p, ship, intent_spec(keys), up1) == p,
        ticked(ticked(p, ship, intent_spec(keys), up1), ship, intent_spec(keys), up2) == ticked(
            p,
            ship,
            intent_spec(keys),
            up1,
        ),
{
    lemma_idle_tick_keeps_pose(p, ship, keys, up1);
    lemma_idle_tick_keeps_pose(p, ship, keys, up2);
}

/// The rotation of a tick is the rotation factor times the rotation speed
/// times the tick's length, added to the prior heading (modulo a full turn);
/// for the demo ship that is the rotation factor times 6 degrees.
pub proof fn lemma_turn_per_tick(p: Pose, ship: Player, keys: Keys)
    requires
        p.wf(),
    ensures
        turn_step(ship, intent_spec(keys)) * TICKS_PER_SECOND == rotation_factor(keys)
            * ship.rotation_speed * ARCMIN_PER_DEGREE,
        turned_heading(p, ship, intent_spec(keys)) == (p.heading + rotation_factor(keys)
            * ship.rotation_speed * ARCMIN_PER_DEGREE / (TICKS_PER_SECOND as int)) % (FULL_TURN as int),
        ship.rotation_speed == SHIP_ROTATION_SPEED ==> turned_heading(p, ship, intent_spec(keys))
            == (p.heading + rotation_factor(keys) * 6 * ARCMIN_PER_DEGREE) % (FULL_TURN as int),
        turned(p, ship, intent_spec(keys)).x == p.x,
        turned(p, ship, intent_spec(keys)).y == p.y,
{
    let i = intent_spec(keys);
    let r = rotation_factor(keys);
    let s = ship.rotation_speed as int;
    assert(i.rotation == r);
    assert(r * s * 60 / 60 == r * s) by (nonlinear_arith);
    assert(s == 360 ==> r * s == r * 6 * 60) by (nonlinear_arith);
}

/// Holding only forward, away from the walls, moves the ship along `up` by one
/// tick's travel at full thrust: `movement_speed / TICKS_PER_SECOND` arena units
/// along a unit direction (about 8.333 for the demo ship). The heading stays.
pub proof fn lemma_forward_travel(p: Pose, ship: Player, keys: Keys, up: Direction)
    requires
        p.wf(),
        ship.wf(),
        up.wf(),
        forward_only(keys),
        !hits_x(p, ship, intent_spec(keys), up),
        !hits_y(p, ship, intent_spec(keys), up),
    ensures
        ticked(p, ship, intent_spec(keys), up).x == p.x + up.x * 2 * ship.movement_speed,
        ticked(p, ship, intent_spec(keys), up).y == p.y + up.y * 2 * ship.movement_speed,
        ticked(p, ship, intent_spec(keys), up).heading == p.heading,
        (ticked(p, ship, intent_spec(keys), up).x - p.x) * TICKS_PER_SECOND * DIRECTION_SCALE
            == up.x * ship.movement_speed * FINE_PER_UNIT,
        (ticked(p, ship, intent_spec(keys), up).y - p.y) * TICKS_PER_SECOND * DIRECTION_SCALE
            == up.y * ship.movement_speed * FINE_PER_UNIT,
        ship.movement_speed == SHIP_MOVEMENT_SPEED ==> ticked(p, ship, intent_spec(keys), up).x
            == p.x + up.x * 1000,
{
    let i = intent_spec(keys);
    let s = ship.movement_speed as int;
    assert(i.rotation == 0 && i.thrust_halves == 2);
    assert(turn_step(ship, i) == 0) by (nonlinear_arith)
        requires
            i.rotation == 0,
            turn_step(ship, i) == i.rotation * ship.rotation_speed,
    ;
    vstd::arithmetic::div_mod::lemma_small_mod(p.heading as nat, FULL_TURN as nat);
    assert(turned(p, ship, i) == p);
    lemma_advanced_wf(p, ship, i, up);
    assert(up.x * (2 * s) == up.x * 2 * s) by (nonlinear_arith);
    assert(up.y * (2 * s) == up.y * 2 * s) by (nonlinear_arith);
    assert(up.x * 2 * s * 60 * 1000000 == up.x * s * 120000000) by (nonlinear_arith);
    assert(up.y * 2 * s * 60 * 1000000 == up.y * s * 120000000) by (nonlinear_arith);
    assert(s == 500 ==> up.x * 2 * s == up.x * 1000) by (nonlinear_arith);
}

/// Holding only backward, away from the walls, moves the ship against `up` by
/// half of one tick's full travel (about 4.167 arena units for the demo ship
/// along a unit direction). The heading stays.
pub proof fn lemma_backward_travel(p: Pose, ship: Player, keys: Keys, up: Direction)
    requires
        p.wf(),
        ship.wf(),
        up.wf(),
        backward_only(keys),
        !hits_x(p, ship, intent_spec(keys), up),
        !hits_y(p, ship, intent_spec(keys), up),
    ensures
        ticked(p, ship, intent_spec(keys), up).x == p.x - up.x * ship.movement_speed,
        ticked(p, ship, intent_spec(keys), up).y == p.y - up.y * ship.movement_speed,
        ticked(p, ship, intent_spec(keys), up).heading == p.heading,
        (ticked(p, ship, intent_spec(keys), up).x - p.x) * 2 * TICKS_PER_SECOND * DIRECTION_SCALE
            == -(up.x * ship.movement_speed * FINE_PER_UNIT),
        (ticked(p, ship, intent_spec(keys), up).y - p.y) * 2 * TICKS_PER_SECOND * DIRECTION_SCALE
            == -(up.y * ship.movement_speed * FINE_PER_UNIT),
        ship.movement_speed == SHIP_MOVEMENT_SPEED ==> ticked(p, ship, intent_spec(keys), up).x
            == p.x - up.x * 500,
{
    let i = intent_spec(keys);
    let s = ship.movement_speed as int;
    assert(i.rotation == 0 && i.thrust_halves == -1);
    assert(turn_step(ship, i) == 0) by (nonlinear_arith)
        requires
            i.rotation == 0,
            turn_step(ship, i) == i.rotation * ship.rotation_speed,
    ;
    vstd::arithmetic::div_mod::lemma_small_mod(p.heading as nat, FULL_TURN as nat);
    assert(turned(p, ship, i) == p);
    lemma_advanced_wf(p, ship, i, up);
    assert(up.x * (-1 * s) == -(up.x * s)) by (nonlinear_arith);
    assert(up.y * (-1 * s) == -(up.y * s)) by (nonlinear_arith);
    assert(-(up.x * s) * 2 * 60 * 1000000 == -(up.x * s * 120000000)) by (nonlinear_arith);
    assert(-(up.y * s) * 2 * 60 * 1000000 == -(up.y * s * 120000000)) by (nonlinear_arith);
}

/// Every tick commits a position inside the arena: a crossing is corrected in
/// the same tick in which it is detected, so the overshoot never stands.
pub proof fn lemma_tick_stays_in_arena(p: Pose, ship: Player, keys: Keys, up: Direction)
    requires
        p.wf(),
        ship.wf(),
        up.wf(),
    ensures
        within_x(ticked(p, ship, intent_spec(keys), up).x as int),
        within_y(ticked(p, ship, intent_spec(keys), up).y as int),
        ticked(p, ship, intent_spec(keys), up).wf(),
{
    let i = intent_spec(keys);
    lemma_turned_wf(p, ship, i);
    lemma_advanced_wf(turned(p, ship, i), ship, i, up);
}

} // verus!
