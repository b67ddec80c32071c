//! An exact space: integer points and the rotations that map the integer
//! grid onto itself.
//!
//! Coordinates are `i32` and arithmetic wraps, so every operation is total and
//! the integers modulo 2^32 form the ring in which the laws hold. There are
//! twenty-four orientations, the rotations of a cube: each sends every axis to
//! an axis, possibly reversed.

use vstd::prelude::*;
use crate::space::{ExactSpace, Space};

verus! {

/// One of the three coordinate axes.
#[derive(Clone, Copy, Debug, PartialEq, Eq, Structural)]
pub enum Axis {
    X,
    Y,
    Z,
}

/// Which input axis each output axis reads: the letters name, in order, the
/// input axes read by the output's x, y and z.
#[derive(Clone, Copy, Debug, PartialEq, Eq, Structural)]
pub enum Shuffle {
    Xyz,
    Xzy,
    Yxz,
    Yzx,
    Zxy,
    Zyx,
}

/// A point of the integer grid.
#[derive(Clone, Copy, Debug, PartialEq, Eq, Structural)]
pub struct GridPoint {
    pub x: i32,
    pub y: i32,
    pub z: i32,
}

/// A rotation of the grid. The output's x reads the input axis that `shuffle`
/// names first, negated if `flip_x`; likewise y. Whether z is negated follows
/// from the other two, since a rotation keeps handedness.
#[derive(Clone, Copy, Debug, PartialEq, Eq, Structural)]
pub struct GridTurn {
    pub shuffle: Shuffle,
    pub flip_x: bool,
    pub flip_y: bool,
}

/// The space of grid points and grid turns, with gains in thousandths.
#[derive(Clone, Copy, Debug, PartialEq, Eq, Structural)]
pub struct Lattice;

/// The gain, in thousandths, that leaves a level as it is.
pub const FULL_GAIN: u32 = 1000;

/// `v` negated in wrapping arithmetic if `negative`, else `v`.
pub open spec fn signed(negative: bool, v: i32) -> i32 {
    if negative {
        if v == i32::MIN {
            v
        } else {
            (-v) as i32
        }
    } else {
        v
    }
}

/// `a - b` in wrapping arithmetic.
pub open spec fn wrapped_difference(a: i32, b: i32) -> i32 {
    if a - b > i32::MAX {
        (a - b - 0x1_0000_0000) as i32
    } else if a - b < i32::MIN {
        (a - b + 0x1_0000_0000) as i32
    } else {
        (a - b) as i32
    }
}

impl Shuffle {
    /// The input axis that output axis `out` reads.
    pub open spec fn source(self, out: Axis) -> Axis {
        match (self, out) {
            (Shuffle::Xyz, Axis::X) => Axis::X,
            (Shuffle::Xyz, Axis::Y) => Axis::Y,
            (Shuffle::Xyz, Axis::Z) => Axis::Z,
            (Shuffle::Xzy, Axis::X) => Axis::X,
            (Shuffle::Xzy, Axis::Y) => Axis::Z,
            (Shuffle::Xzy, Axis::Z) => Axis::Y,
            (Shuffle::Yxz, Axis::X) => Axis::Y,
            (Shuffle::Yxz, Axis::Y) => Axis::X,
            (Shuffle::Yxz, Axis::Z) => Axis::Z,
            (Shuffle::Yzx, Axis::X) => Axis::Y,
            (Shuffle::Yzx, Axis::Y) => Axis::Z,
            (Shuffle::Yzx, Axis::Z) => Axis::X,
            (Shuffle::Zxy, Axis::X) => Axis::Z,
            (Shuffle::Zxy, Axis::Y) => Axis::X,
            (Shuffle::Zxy, Axis::Z) => Axis::Y,
            (Shuffle::Zyx, Axis::X) => Axis::Z,
            (Shuffle::Zyx, Axis::Y) => Axis::Y,
            (Shuffle::Zyx, Axis::Z) => Axis::X,
        }
    }

    /// The shuffle whose x reads `x` and whose y reads `y`, for `x != y`.
    pub open spec fn reading(x: Axis, y: Axis) -> Shuffle {
        match (x, y) {
            (Axis::X, Axis::Z) => Shuffle::Xzy,
            (Axis::Y, Axis::X) => Shuffle::Yxz,
            (Axis::Y, Axis::Z) => Shuffle::Yzx,
            (Axis::Z, Axis::X) => Shuffle::Zxy,
            (Axis::Z, Axis::Y) => Shuffle::Zyx,
            _ => Shuffle::Xyz,
        }
    }

    /// Whether this shuffle swaps an odd number of times.
    pub open spec fn odd(self) -> bool {
        self == Shuffle::Xzy || self == Shuffle::Yxz || self == Shuffle::Zyx
    }

    /// The shuffle that undoes this one.
    pub open spec fn undone(self) -> Shuffle {
        match self {
            Shuffle::Yzx => Shuffle::Zxy,
            Shuffle::Zxy => Shuffle::Yzx,
            other => other,
        }
    }

    pub fn source_of(self, out: Axis) -> (axis: Axis)
        ensures
            axis == self.source(out),
    {
        match (self, out) {
            (Shuffle::Xyz, Axis::X) => Axis::X,
            (Shuffle::Xyz, Axis::Y) => Axis::Y,
            (Shuffle::Xyz, Axis::Z) => Axis::Z,
            (Shuffle::Xzy, Axis::X) => Axis::X,
            (Shuffle::Xzy, Axis::Y) => Axis::Z,
            (Shuffle::Xzy, Axis::Z) => Axis::Y,
            (Shuffle::Yxz, Axis::X) => Axis::Y,
            (Shuffle::Yxz, Axis::Y) => Axis::X,
            (Shuffle::Yxz, Axis::Z) => Axis::Z,
            (Shuffle::Yzx, Axis::X) => Axis::Y,
            (Shuffle::Yzx, Axis::Y) => Axis::Z,
            (Shuffle::Yzx, Axis::Z) => Axis::X,
            (Shuffle::Zxy, Axis::X) => Axis::Z,
            (Shuffle::Zxy, Axis::Y) => Axis::X,
            (Shuffle::Zxy, Axis::Z) => Axis::Y,
            (Shuffle::Zyx, Axis::X) => Axis::Z,
            (Shuffle::Zyx, Axis::Y) => Axis::Y,
            (Shuffle::Zyx, Axis::Z) => Axis::X,
        }
    }

    pub fn from_sources(x: Axis, y: Axis) -> (shuffle: Shuffle)
        ensures
            shuffle == Shuffle::reading(x, y),
    {
        match (x, y) {
            (Axis::X, Axis::Z) => Shuffle::Xzy,
            (Axis::Y, Axis::X) => Shuffle::Yxz,
            (Axis::Y, Axis::Z) => Shuffle::Yzx,
            (Axis::Z, Axis::X) => Shuffle::Zxy,
            (Axis::Z, Axis::Y) => Shuffle::Zyx,
            _ => Shuffle::Xyz,
        }
    }

    pub fn is_odd(self) -> (odd: bool)
        ensures
            odd == self.odd(),
    {
        match self {
            Shuffle::Xzy => true,
            Shuffle::Yxz => true,
            Shuffle::Zyx => true,
            _ => false,
        }
    }

    pub fn undo(self) -> (shuffle: Shuffle)
        ensures
            shuffle == self.undone(),
    {
        match self {
            Shuffle::Yzx => Shuffle::Zxy,
            Shuffle::Zxy => Shuffle::Yzx,
            other => other,
        }
    }
}

impl GridPoint {
    /// The coordinate along `axis`.
    pub open spec fn along(self, axis: Axis) -> i32 {
        match axis {
            Axis::X => self.x,
            Axis::Y => self.y,
            Axis::Z => self.z,
        }
    }

    pub fn new(x: i32, y: i32, z: i32) -> (p: Self)
        ensures
            p == (GridPoint { x, y, z }),
    {
        GridPoint { x, y, z }
    }

    pub fn coordinate(&self, axis: Axis) -> (v: i32)
        ensures
            v == self.along(axis),
    {
        match axis {
            Axis::X => self.x,
            Axis::Y => self.y,
            Axis::Z => self.z,
        }
    }
}

impl GridTurn {
    /// Whether the output along `out` is negated.
    pub open spec fn flips(self, out: Axis) -> bool {
        match out {
            Axis::X => self.flip_x,
            Axis::Y => self.flip_y,
            Axis::Z => (self.flip_x != self.flip_y) != self.shuffle.odd(),
        }
    }

    /// The output coordinate along `out` of `p` turned by this turn.
    pub open spec fn image_along(self, p: GridPoint, out: Axis) -> i32 {
        signed(self.flips(out), p.along(self.shuffle.source(out)))
    }

    /// The turn that moves nothing.
    pub fn none() -> (turn: Self)
        ensures
            turn == Lattice::no_turn(),
    {
        GridTurn { shuffle: Shuffle::Xyz, flip_x: false, flip_y: false }
    }

    /// A quarter turn about the z axis that takes the x axis to the y axis.
    pub fn quarter_about_z() -> (turn: Self)
        ensures
            turn == (GridTurn { shuffle: Shuffle::Yxz, flip_x: true, flip_y: false }),
            forall|p: GridPoint|
                #[trigger] Lattice::rotated(turn, p) == (GridPoint {
                    x: signed(true, p.y),
                    y: p.x,
                    z: p.z,
                }),
    {
        GridTurn { shuffle: Shuffle::Yxz, flip_x: true, flip_y: false }
    }

    /// A quarter turn about the x axis that takes the y axis to the z axis.
    pub fn quarter_about_x() -> (turn: Self)
        ensures
            turn == (GridTurn { shuffle: Shuffle::Xzy, flip_x: false, flip_y: true }),
            forall|p: GridPoint|
                #[trigger] Lattice::rotated(turn, p) == (GridPoint {
                    x: p.x,
                    y: signed(true, p.z),
                    z: p.y,
                }),
    {
        GridTurn { shuffle: Shuffle::Xzy, flip_x: false, flip_y: true }
    }

    /// A quarter turn about the y axis that takes the z axis to the x axis.
    pub fn quarter_about_y() -> (turn: Self)
        ensures
            turn == (GridTurn { shuffle: Shuffle::Zyx, flip_x: false, flip_y: false }),
            forall|p: GridPoint|
                #[trigger] Lattice::rotated(turn, p) == (GridPoint {
                    x: p.z,
                    y: p.y,
                    z: signed(true, p.x),
                }),
    {
        GridTurn { shuffle: Shuffle::Zyx, flip_x: false, flip_y: false }
    }

    pub fn is_flipped(&self, out: Axis) -> (flipped: bool)
        ensures
            flipped == self.flips(out),
    {
        match out {
            Axis::X => self.flip_x,
            Axis::Y => self.flip_y,
            Axis::Z => (self.flip_x != self.flip_y) != self.shuffle.is_odd(),
        }
    }

    fn image(&self, p: &GridPoint, out: Axis) -> (v: i32)
        ensures
            v == self.image_along(*p, out),
    {
        let v = p.coordinate(self.shuffle.source_of(out));
        if self.is_flipped(out) {
            0i32.wrapping_sub(v)
        } else {
            v
        }
    }
}

impl Space for Lattice {
    type Point = GridPoint;

    type Orientation = GridTurn;

    type Gain = u32;

    open spec fn origin_point() -> GridPoint {
        GridPoint { x: 0, y: 0, z: 0 }
    }

    open spec fn difference(p: GridPoint, q: GridPoint) -> GridPoint {
        GridPoint {
            x: wrapped_difference(p.x, q.x),
            y: wrapped_difference(p.y, q.y),
            z: wrapped_difference(p.z, q.z),
        }
    }

    open spec fn no_turn() -> GridTurn {
        GridTurn { shuffle: Shuffle::Xyz, flip_x: false, flip_y: false }
    }

    open spec fn inverted(o: GridTurn) -> GridTurn {
        GridTurn {
            shuffle: o.shuffle.undone(),
            flip_x: o.flips(o.shuffle.undone().source(Axis::X)),
            flip_y: o.flips(o.shuffle.undone().source(Axis::Y)),
        }
    }

    open spec fn composed(first: GridTurn, second: GridTurn) -> GridTurn {
        GridTurn {
            shuffle: Shuffle::reading(
                second.shuffle.source(first.shuffle.source(Axis::X)),
                second.shuffle.source(first.shuffle.source(Axis::Y)),
            ),
            flip_x: first.flips(Axis::X) != second.flips(first.shuffle.source(Axis::X)),
            flip_y: first.flips(Axis::Y) != second.flips(first.shuffle.source(Axis::Y)),
        }
    }

    open spec fn rotated(o: GridTurn, p: GridPoint) -> GridPoint {
        GridPoint {
            x: o.image_along(p, Axis::X),
            y: o.image_along(p, Axis::Y),
            z: o.image_along(p, Axis::Z),
        }
    }

    open spec fn full_gain() -> u32 {
        FULL_GAIN
    }

    fn origin() -> (p: GridPoint) {
        GridPoint { x: 0, y: 0, z: 0 }
    }

    fn subtract(p: &GridPoint, q: &GridPoint) -> (d: GridPoint) {
        GridPoint {
            x: p.x.wrapping_sub(q.x),
            y: p.y.wrapping_sub(q.y),
            z: p.z.wrapping_sub(q.z),
        }
    }

    fn identity() -> (o: GridTurn) {
        GridTurn::none()
    }

    fn inverse(o: &GridTurn) -> (i: GridTurn) {
        let undone = o.shuffle.undo();
        GridTurn {
            shuffle: undone,
            flip_x: o.is_flipped(undone.source_of(Axis::X)),
            flip_y: o.is_flipped(undone.source_of(Axis::Y)),
        }
    }

    fn compose(first: &GridTurn, second: &GridTurn) -> (c: GridTurn) {
        let x = first.shuffle.source_of(Axis::X);
        let y = first.shuffle.source_of(Axis::Y);
        GridTurn {
            shuffle: Shuffle::from_sources(second.shuffle.source_of(x), second.shuffle.source_of(y)),
            flip_x: first.is_flipped(Axis::X) != second.is_flipped(x),
            flip_y: first.is_flipped(Axis::Y) != second.is_flipped(y),
        }
    }

    fn rotate(o: &GridTurn, p: &GridPoint) -> (r: GridPoint) {
        GridPoint { x: o.image(p, Axis::X), y: o.image(p, Axis::Y), z: o.image(p, Axis::Z) }
    }

    fn unit_gain() -> (g: u32) {
        FULL_GAIN
    }
}

impl ExactSpace for Lattice {
    proof fn law_difference_from_origin(p: GridPoint) {
    }

    proof fn law_no_turn(p: GridPoint) {
    }

    proof fn law_no_turn_inverted() {
    }

    proof fn law_round_trip(o: GridTurn, p: GridPoint) {
    }

    proof fn law_composed(first: GridTurn, second: GridTurn, p: GridPoint) {
    }
}

/// The square of the distance of `p` from the origin.
pub open spec fn squared_length(p: GridPoint) -> int {
    p.x * p.x + p.y * p.y + p.z * p.z
}

/// A turn keeps every point at its distance from the origin.
pub proof fn lemma_turn_keeps_length(o: GridTurn, p: GridPoint)
    ensures
        squared_length(Lattice::rotated(o, p)) == squared_length(p),
{
    assert forall|negative: bool, v: i32| #[trigger]
        (signed(negative, v) * signed(negative, v)) == v * v by {
        assert((-v) * (-v) == v * v) by (nonlinear_arith);
    }
    let q = Lattice::rotated(o, p);
    assert(q.x * q.x == p.along(o.shuffle.source(Axis::X)) * p.along(o.shuffle.source(Axis::X)));
    assert(q.y * q.y == p.along(o.shuffle.source(Axis::Y)) * p.along(o.shuffle.source(Axis::Y)));
    assert(q.z * q.z == p.along(o.shuffle.source(Axis::Z)) * p.along(o.shuffle.source(Axis::Z)));
}

} // verus!
