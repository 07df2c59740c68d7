use arena_combat::direction::{DirectionFlag, DirectionFlags, Facing};
use arena_combat::math::{clamp_i64, rotate_point, sat_add, Rot, ROT_ONE};

fn flags(up: bool, down: bool, left: bool, right: bool) -> DirectionFlags {
    DirectionFlags { up, down, left, right }
}

#[test]
fn opposite_vertical_pair_cancels_to_neutral() {
    assert_eq!(flags(true, true, false, false).resolve_facing(), Facing::Neutral);
}

#[test]
fn opposite_horizontal_pair_cancels_to_neutral() {
    assert_eq!(flags(false, false, true, true).resolve_facing(), Facing::Neutral);
}

#[test]
fn up_left_resolves_diagonally() {
    assert_eq!(flags(true, false, true, false).resolve_facing(), Facing::UpLeft);
}

#[test]
fn empty_set_resolves_to_neutral() {
    assert_eq!(flags(false, false, false, false).resolve_facing(), Facing::Neutral);
}

#[test]
fn cancelled_pair_leaves_the_remaining_direction() {
    assert_eq!(flags(true, true, true, false).resolve_facing(), Facing::Left);
}

#[test]
fn all_cardinals_resolve() {
    assert_eq!(flags(true, false, false, false).resolve_facing(), Facing::Up);
    assert_eq!(flags(false, true, false, false).resolve_facing(), Facing::Down);
    assert_eq!(flags(false, false, true, false).resolve_facing(), Facing::Left);
    assert_eq!(flags(false, false, false, true).resolve_facing(), Facing::Right);
    assert_eq!(flags(false, true, false, true).resolve_facing(), Facing::DownRight);
    assert_eq!(flags(false, true, true, false).resolve_facing(), Facing::DownLeft);
    assert_eq!(flags(true, false, false, true).resolve_facing(), Facing::UpRight);
}

#[test]
fn set_flag_updates_one_direction() {
    let mut d = DirectionFlags::none();
    d.set_flag(DirectionFlag::Left, true);
    assert_eq!(d, flags(false, false, true, false));
    d.set_flag(DirectionFlag::Left, false);
    assert_eq!(d, flags(false, false, false, false));
}

#[test]
fn quarter_turn_rotates_axes() {
    let quarter = Rot { c: 0, s: ROT_ONE };
    assert_eq!(rotate_point(quarter, 10, 0), (0, 10));
    assert_eq!(rotate_point(quarter, 0, 10), (-10, 0));
}

#[test]
fn identity_rotation_keeps_the_point() {
    assert_eq!(rotate_point(Rot::identity(), 123, -45), (123, -45));
}

#[test]
fn half_turn_negates_the_point() {
    let half = Rot { c: -ROT_ONE, s: 0 };
    assert_eq!(rotate_point(half, 7, 9), (-7, -9));
}

#[test]
fn fixed_point_rotation_truncates_toward_zero() {
    // cos = 1/2 scaled: rotating (3, 0) gives x = 3 * 32768 / 65536 = 1.5,
    // truncated to 1; the sine half gives the same on y.
    let tilt = Rot { c: ROT_ONE / 2, s: ROT_ONE / 2 };
    assert_eq!(rotate_point(tilt, 3, 0), (1, 1));
    assert_eq!(rotate_point(tilt, -3, 0), (-1, -1));
}

#[test]
fn saturating_addition_stops_at_the_limits() {
    assert_eq!(sat_add(i64::MAX, 1), i64::MAX);
    assert_eq!(sat_add(i64::MIN, -1), i64::MIN);
    assert_eq!(sat_add(40, 2), 42);
}

#[test]
fn clamping_is_exact() {
    assert_eq!(clamp_i64(10, -5, 5), 5);
    assert_eq!(clamp_i64(-10, -5, 5), -5);
    assert_eq!(clamp_i64(3, -5, 5), 3);
}
