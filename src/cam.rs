//! Movement input for a first-person camera.
use vstd::prelude::*;

verus! {

/// The state of one axis of directional input.
#[derive(Clone, Copy, Debug, PartialEq, Eq, Structural)]
pub enum Direction {
    Negative,
    Still,
    Positive,
}

/// The number (-1, 0 or +1) associated with a direction.
pub open spec fn sign_of(dir: Direction) -> int {
    match dir {
        Direction::Positive => 1,
        Direction::Negative => -1,
        Direction::Still => 0,
    }
}

/// The number (i.e. -1, 0, +1) associated with the direction.
fn sign(dir: Direction) -> (r: i8)
    ensures
        r as int == sign_of(dir),
{
    match dir {
        Direction::Positive => 1,
        Direction::Negative => -1,
        Direction::Still => 0,
    }
}

/// An exact movement direction: the vector `(x, y, z)` divided by the square
/// root of `norm_squared`, or the zero vector where `norm_squared` is zero.
#[derive(Clone, Copy, Debug, PartialEq, Eq, Structural)]
pub struct UnitVector {
    pub x: i8,
    pub y: i8,
    pub z: i8,
    /// The squared length of `(x, y, z)`
    pub norm_squared: u8,
}

impl UnitVector {
    /// The coordinates are consistent with the stored squared length.
    pub open spec fn wf(&self) -> bool {
        self.norm_squared as int == self.x * self.x + self.y * self.y + self.z * self.z
    }

    /// This is the zero vector.
    pub open spec fn is_zero(&self) -> bool {
        self.x == 0 && self.y == 0 && self.z == 0
    }
}

/// 3D movement direction.
///
/// Any combination of individual x, y, z movement directions.
#[derive(Clone, Copy, Debug, PartialEq, Eq, Structural)]
pub struct MovementState3 {
    pub x: Direction,
    pub y: Direction,
    pub z: Direction,
}

impl MovementState3 {
    /// The direction of movement: the sign of each axis, normalized unless
    /// every axis is still.
    pub open spec fn unit_vector_spec(&self) -> UnitVector {
        let (x, y, z) = (sign_of(self.x), sign_of(self.y), sign_of(self.z));
        UnitVector { x: x as i8, y: y as i8, z: z as i8, norm_squared: (x * x + y * y + z * z) as u8 }
    }

    pub fn new(x: Direction, y: Direction, z: Direction) -> (r: MovementState3)
        ensures
            r == (MovementState3 { x: x, y: y, z: z }),
    {
        MovementState3 { x: x, y: y, z: z }
    }

    pub fn unit_vector(&self) -> (r: UnitVector)
        ensures
            r == self.unit_vector_spec(),
            r.wf(),
    {
        let x = sign(self.x);
        let y = sign(self.y);
        let z = sign(self.z);
        let n: u8 = (x * x + y * y + z * z) as u8;
        UnitVector { x: x, y: y, z: z, norm_squared: n }
    }
}

/// The movement direction is zero exactly when every axis is still. When
/// exactly one axis moves, it is the unit vector along that axis, pointing
/// the way that axis's direction says.
pub proof fn lemma_unit_vector_axes(m: MovementState3)
    ensures
        m.unit_vector_spec().wf(),
        m.unit_vector_spec().is_zero() <==> m.unit_vector_spec().norm_squared == 0,
        m.unit_vector_spec().is_zero() <==> (m.x == Direction::Still && m.y == Direction::Still
            && m.z == Direction::Still),
        m.x != Direction::Still && m.y == Direction::Still && m.z == Direction::Still
            ==> m.unit_vector_spec() == (UnitVector {
            x: sign_of(m.x) as i8,
            y: 0,
            z: 0,
            norm_squared: 1,
        }),
        m.x == Direction::Still && m.y != Direction::Still && m.z == Direction::Still
            ==> m.unit_vector_spec() == (UnitVector {
            x: 0,
            y: sign_of(m.y) as i8,
            z: 0,
            norm_squared: 1,
        }),
        m.x == Direction::Still && m.y == Direction::Still && m.z != Direction::Still
            ==> m.unit_vector_spec() == (UnitVector {
            x: 0,
            y: 0,
            z: sign_of(m.z) as i8,
            norm_squared: 1,
        }),
{
    lemma_sign_squared(m.x);
    lemma_sign_squared(m.y);
    lemma_sign_squared(m.z);
}

proof fn lemma_sign_squared(d: Direction)
    ensures
        sign_of(d) * sign_of(d) == (if d == Direction::Still { 0int } else { 1int }),
        d == Direction::Still <==> sign_of(d) == 0,
{
}

} // verus!
