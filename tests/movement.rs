use ship_motion::arena::{
    Direction, ARENA_HEIGHT, ARENA_WIDTH, TICKS_PER_SECOND, Player, Pose, DIRECTION_SCALE, FINE_PER_UNIT, FULL_TURN, HALF_HEIGHT_FINE,
    HALF_TURN, HALF_WIDTH_FINE, MAX_MOVEMENT_SPEED,
};
use ship_motion::intent::{intent_of, Keys, MovementIntent};
use ship_motion::movement::{advance, turn};

fn keys(left: bool, right: bool, forward: bool, backward: bool) -> Keys {
    Keys { left, right, forward, backward }
}

fn no_keys() -> Keys {
    keys(false, false, false, false)
}

fn units(u: i64) -> i64 {
    u * FINE_PER_UNIT
}

fn dir(x: i64, y: i64) -> Direction {
    Direction::new(x, y).unwrap()
}

fn tick(pose: &mut Pose, ship: &Player, k: Keys, up: Direction) {
    let intent = intent_of(k);
    turn(pose, ship, intent);
    advance(pose, ship, intent, up);
}

#[test]
fn intent_from_single_keys() {
    assert_eq!(intent_of(no_keys()), MovementIntent { rotation: 0, thrust_halves: 0 });
    assert_eq!(intent_of(keys(true, false, false, false)).rotation, 1);
    assert_eq!(intent_of(keys(false, true, false, false)).rotation, -1);
    assert_eq!(intent_of(keys(false, false, true, false)).thrust_halves, 2);
    assert_eq!(intent_of(keys(false, false, false, true)).thrust_halves, -1);
}

#[test]
fn intent_keys_combine_additively() {
    let both = intent_of(keys(true, true, true, true));
    assert_eq!(both.rotation, 0);
    assert_eq!(both.thrust_halves, 1);
}

#[test]
fn idle_tick_keeps_pose() {
    let ship = Player::ship();
    let start = Pose::new(units(-100), units(20), 1234).unwrap();
    let mut pose = start;
    tick(&mut pose, &ship, no_keys(), dir(-300000, 950000));
    assert_eq!(pose, start);
}

#[test]
fn idle_ticks_do_not_drift() {
    let ship = Player::ship();
    let start = Pose::new(units(599), units(-319), 16200).unwrap();
    let mut pose = start;
    tick(&mut pose, &ship, no_keys(), dir(DIRECTION_SCALE, 0));
    let first = pose;
    tick(&mut pose, &ship, no_keys(), dir(DIRECTION_SCALE, 0));
    assert_eq!(first, start);
    assert_eq!(pose, first);
}

#[test]
fn turn_left_adds_six_degrees() {
    let ship = Player::ship();
    let mut pose = Pose::new(0, 0, 0).unwrap();
    turn(&mut pose, &ship, intent_of(keys(true, false, false, false)));
    assert_eq!(pose.heading, 6 * 60);
    assert_eq!((pose.x, pose.y), (0, 0));
}

#[test]
fn turn_right_wraps_below_zero() {
    let ship = Player::ship();
    let mut pose = Pose::new(0, 0, 120).unwrap();
    turn(&mut pose, &ship, intent_of(keys(false, true, false, false)));
    assert_eq!(pose.heading, FULL_TURN - 240);
}

#[test]
fn turn_left_wraps_past_full_turn() {
    let ship = Player::ship();
    let mut pose = Pose::new(0, 0, FULL_TURN - 60).unwrap();
    turn(&mut pose, &ship, intent_of(keys(true, false, false, false)));
    assert_eq!(pose.heading, 300);
}

#[test]
fn turn_with_fast_rotation_reduces_to_one_turn() {
    let ship = Player::new(500, 360 * 60 + 90).unwrap();
    let mut pose = Pose::new(0, 0, 100).unwrap();
    turn(&mut pose, &ship, intent_of(keys(true, false, false, false)));
    assert_eq!(pose.heading, (100 + (360 * 60 + 90)) % FULL_TURN);
    turn(&mut pose, &ship, intent_of(keys(false, true, false, false)));
    assert_eq!(pose.heading, 100);
}

#[test]
fn forward_moves_a_sixtieth_of_the_speed() {
    let ship = Player::ship();
    let mut pose = Pose::new(0, 0, 0).unwrap();
    tick(&mut pose, &ship, keys(false, false, true, false), dir(0, DIRECTION_SCALE));
    // 500 / 60 units = 25 / 3 units
    assert_eq!(pose.y * 3, 25 * FINE_PER_UNIT);
    assert_eq!(pose.x, 0);
    assert_eq!(pose.heading, 0);
}

#[test]
fn backward_moves_half_as_far_against_up() {
    let ship = Player::ship();
    let mut pose = Pose::new(0, 0, 0).unwrap();
    tick(&mut pose, &ship, keys(false, false, false, true), dir(0, DIRECTION_SCALE));
    // -0.5 * 500 / 60 units = -25 / 6 units
    assert_eq!(pose.y * 6, -25 * FINE_PER_UNIT);
    assert_eq!(pose.x, 0);
}

#[test]
fn forward_and_backward_give_half_thrust() {
    let ship = Player::ship();
    let mut pose = Pose::new(0, 0, 0).unwrap();
    tick(&mut pose, &ship, keys(false, false, true, true), dir(DIRECTION_SCALE, 0));
    assert_eq!(pose.x * 6, 25 * FINE_PER_UNIT);
}

#[test]
fn right_wall_reverses_heading_and_x() {
    let ship = Player::ship();
    // local up along +X: heading 270 degrees
    let mut pose = Pose::new(units(599), 0, 270 * 60).unwrap();
    tick(&mut pose, &ship, keys(false, false, true, false), dir(DIRECTION_SCALE, 0));
    // 599 - 25 / 3 = 590.667 units
    assert_eq!(pose.x * 3, 599 * 3 * FINE_PER_UNIT - 25 * FINE_PER_UNIT);
    assert_eq!(pose.y, 0);
    assert_eq!(pose.heading, 90 * 60);
}

#[test]
fn top_wall_mirrors_heading_and_y() {
    let ship = Player::ship();
    let mut pose = Pose::new(0, units(319), 0).unwrap();
    tick(&mut pose, &ship, keys(false, false, true, false), dir(0, DIRECTION_SCALE));
    // 319 - 25 / 3 = 310.667 units
    assert_eq!(pose.y * 3, 319 * 3 * FINE_PER_UNIT - 25 * FINE_PER_UNIT);
    assert_eq!(pose.x, 0);
    assert_eq!(pose.heading, HALF_TURN);
}

#[test]
fn bottom_wall_mirror_wraps_heading() {
    let ship = Player::ship();
    let mut pose = Pose::new(0, units(-319), 200 * 60).unwrap();
    tick(&mut pose, &ship, keys(false, false, true, false), dir(0, -DIRECTION_SCALE));
    assert_eq!(pose.heading, 340 * 60);
    assert_eq!(pose.y * 3, -319 * 3 * FINE_PER_UNIT + 25 * FINE_PER_UNIT);
}

#[test]
fn left_wall_at_heading_zero_stays_zero() {
    let ship = Player::ship();
    let mut pose = Pose::new(units(-599), 0, 0).unwrap();
    tick(&mut pose, &ship, keys(false, false, true, false), dir(-DIRECTION_SCALE, 0));
    assert_eq!(pose.heading, 0);
    assert_eq!(pose.x * 3, -599 * 3 * FINE_PER_UNIT + 25 * FINE_PER_UNIT);
}

#[test]
fn corner_applies_both_reflections_to_one_displacement() {
    let ship = Player::ship();
    let mut pose = Pose::new(units(599), units(319), 30 * 60).unwrap();
    let up = dir(800000, 600000);
    tick(&mut pose, &ship, keys(false, false, true, false), up);
    assert_eq!(pose.x, units(599) - 800000 * 1000);
    assert_eq!(pose.y, units(319) - 600000 * 1000);
    // reversed to 330 degrees, then 180 - 330 = -150, that is 210 degrees
    assert_eq!(pose.heading, 210 * 60);
}

#[test]
fn many_ticks_stay_inside_the_arena() {
    let ship = Player::new(MAX_MOVEMENT_SPEED, 360).unwrap();
    let mut pose = Pose::new(units(590), units(310), 0).unwrap();
    let up = dir(707107, 707107);
    let mut n: u32 = 0;
    while n < 500 {
        tick(&mut pose, &ship, keys(false, false, true, false), up);
        assert!(-HALF_WIDTH_FINE <= pose.x && pose.x <= HALF_WIDTH_FINE);
        assert!(-HALF_HEIGHT_FINE <= pose.y && pose.y <= HALF_HEIGHT_FINE);
        assert!(0 <= pose.heading && pose.heading < FULL_TURN);
        n += 1;
    }
}

#[test]
fn constructors_reject_out_of_range_values() {
    assert!(Pose::new(HALF_WIDTH_FINE + 1, 0, 0).is_none());
    assert!(Pose::new(0, -HALF_HEIGHT_FINE - 1, 0).is_none());
    assert!(Pose::new(0, 0, FULL_TURN).is_none());
    assert!(Pose::new(0, 0, -1).is_none());
    assert!(Pose::new(HALF_WIDTH_FINE, HALF_HEIGHT_FINE, FULL_TURN - 1).is_some());
    assert!(Player::new(MAX_MOVEMENT_SPEED + 1, 360).is_none());
    assert_eq!(
        Player::new(500, 360),
        Some(Player { movement_speed: 500, rotation_speed: 360 })
    );
    assert!(Direction::new(DIRECTION_SCALE + 1, 0).is_none());
    assert!(Direction::new(0, -DIRECTION_SCALE - 1).is_none());
    assert_eq!(Player::ship(), Player { movement_speed: 500, rotation_speed: 360 });
}

#[test]
fn unit_constants_agree() {
    assert_eq!(2 * HALF_WIDTH_FINE, ARENA_WIDTH * FINE_PER_UNIT);
    assert_eq!(2 * HALF_HEIGHT_FINE, ARENA_HEIGHT * FINE_PER_UNIT);
    assert_eq!(FINE_PER_UNIT, 2 * TICKS_PER_SECOND * DIRECTION_SCALE);
    assert_eq!(FULL_TURN, 2 * HALF_TURN);
    // the fastest ship still needs more than one tick to cross half the height
    assert!(2 * (MAX_MOVEMENT_SPEED as i64) * DIRECTION_SCALE <= HALF_HEIGHT_FINE);
}
