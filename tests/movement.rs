use gfx_func::cam::{MovementState3, UnitVector};
use gfx_func::cam::Direction::{Negative, Positive, Still};

fn uv(x: i8, y: i8, z: i8, norm_squared: u8) -> UnitVector {
    UnitVector { x, y, z, norm_squared }
}

#[test]
fn movement_state() {
    assert_eq!(
        MovementState3 { x: Still, y: Positive, z: Still }.unit_vector(),
        uv(0, 1, 0, 1)
    );
}

#[test]
fn single_axis_gives_signed_unit_vector() {
    assert_eq!(MovementState3::new(Positive, Still, Still).unit_vector(), uv(1, 0, 0, 1));
    assert_eq!(MovementState3::new(Negative, Still, Still).unit_vector(), uv(-1, 0, 0, 1));
    assert_eq!(MovementState3::new(Still, Negative, Still).unit_vector(), uv(0, -1, 0, 1));
    assert_eq!(MovementState3::new(Still, Still, Positive).unit_vector(), uv(0, 0, 1, 1));
    assert_eq!(MovementState3::new(Still, Still, Negative).unit_vector(), uv(0, 0, -1, 1));
}

#[test]
fn all_still_gives_zero_vector() {
    assert_eq!(MovementState3::new(Still, Still, Still).unit_vector(), uv(0, 0, 0, 0));
}

#[test]
fn diagonal_movement_keeps_signs_and_squared_length() {
    assert_eq!(MovementState3::new(Positive, Negative, Still).unit_vector(), uv(1, -1, 0, 2));
    assert_eq!(MovementState3::new(Negative, Positive, Negative).unit_vector(), uv(-1, 1, -1, 3));
}

#[test]
fn new_keeps_the_axes() {
    let m = MovementState3::new(Negative, Still, Positive);
    assert_eq!(m, MovementState3 { x: Negative, y: Still, z: Positive });
}
