//! The geometry that a scene lives in.
//!
//! A scene never computes on coordinates itself. It asks a [`Space`] to
//! subtract two points and to rotate a point, and carries the answers around.
//! The numbers behind a point, an orientation or a gain are the space's own
//! business.

use vstd::prelude::*;

verus! {

/// Points, orientations and gains, with the operations a scene needs on them.
///
/// Each operation is a function of its arguments alone: the executable method
/// returns what the specification function of the same meaning names. A space
/// that is verified says what those functions are. One that is not, because
/// its numbers are beyond the verifier, leaves them as they stand here:
/// unknown, and the same for the same arguments.
pub trait Space: Sized {
    /// A position.
    type Point: Copy + PartialEq + core::fmt::Debug;

    /// A rotation about the origin.
    type Orientation: Copy + PartialEq + core::fmt::Debug;

    /// A factor by which a source's level is scaled with distance.
    type Gain: Copy + PartialEq + core::fmt::Debug;

    /// The point that every position is measured from.
    open spec fn origin_point() -> Self::Point {
        arbitrary()
    }

    /// `p` as seen from `q`: the point `p - q`.
    open spec fn difference(p: Self::Point, q: Self::Point) -> Self::Point {
        arbitrary()
    }

    /// The orientation that turns nothing.
    open spec fn no_turn() -> Self::Orientation {
        arbitrary()
    }

    /// The orientation that undoes `o`.
    open spec fn inverted(o: Self::Orientation) -> Self::Orientation {
        arbitrary()
    }

    /// The orientation that turns by `second` and then by `first`.
    open spec fn composed(first: Self::Orientation, second: Self::Orientation) -> Self::Orientation {
        arbitrary()
    }

    /// `p` turned by `o`.
    open spec fn rotated(o: Self::Orientation, p: Self::Point) -> Self::Point {
        arbitrary()
    }

    /// The gain that leaves a source's level as it is.
    open spec fn full_gain() -> Self::Gain {
        arbitrary()
    }

    fn origin() -> (p: Self::Point)
        ensures
            p == Self::origin_point(),
    ;

    fn subtract(p: &Self::Point, q: &Self::Point) -> (d: Self::Point)
        ensures
            d == Self::difference(*p, *q),
    ;

    fn identity() -> (o: Self::Orientation)
        ensures
            o == Self::no_turn(),
    ;

    fn inverse(o: &Self::Orientation) -> (i: Self::Orientation)
        ensures
            i == Self::inverted(*o),
    ;

    fn compose(first: &Self::Orientation, second: &Self::Orientation) -> (c: Self::Orientation)
        ensures
            c == Self::composed(*first, *second),
    ;

    fn rotate(o: &Self::Orientation, p: &Self::Point) -> (r: Self::Point)
        ensures
            r == Self::rotated(*o, *p),
    ;

    fn unit_gain() -> (g: Self::Gain)
        ensures
            g == Self::full_gain(),
    ;
}

/// A space whose arithmetic is exact, so that the laws of rotation hold with
/// equality.
pub trait ExactSpace: Space {
    /// Seen from the origin, a point is where it is.
    proof fn law_difference_from_origin(p: Self::Point)
        ensures
            Self::difference(p, Self::origin_point()) == p,
    ;

    /// Turning by nothing moves nothing.
    proof fn law_no_turn(p: Self::Point)
        ensures
            Self::rotated(Self::no_turn(), p) == p,
    ;

    /// Nothing undoes nothing.
    proof fn law_no_turn_inverted()
        ensures
            Self::inverted(Self::no_turn()) == Self::no_turn(),
    ;

    /// The inverse takes a turned point back.
    proof fn law_round_trip(o: Self::Orientation, p: Self::Point)
        ensures
            Self::rotated(Self::inverted(o), Self::rotated(o, p)) == p,
    ;

    /// Turning by a composition is turning twice.
    proof fn law_composed(first: Self::Orientation, second: Self::Orientation, p: Self::Point)
        ensures
            Self::rotated(Self::composed(first, second), p) == Self::rotated(
                first,
                Self::rotated(second, p),
            ),
    ;
}

} // verus!
