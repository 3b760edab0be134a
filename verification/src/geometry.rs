//! The numeric operations that the camera controller is written against.
//!
//! The controller never looks inside a scalar, a vector or a rotation. It
//! asks a [`Geometry`] for every number it needs, so one controller serves
//! every precision and every linear-algebra backend.

use vstd::prelude::*;

verus! {

/// Scalars, vectors, rotations and matrices of one precision.
///
/// No method carries a contract here, so the controller is verified for
/// every implementation. Its own contracts say which of these operations
/// produce each result, from which arguments; what the numbers are is for
/// the implementation to say.
pub trait Geometry {
    /// A real number.
    type Scalar: Copy;

    /// A point or a displacement on the screen.
    type Vector2: Copy;

    /// A point or a displacement in the world.
    type Vector3: Copy;

    /// An orientation in the world: a pure rotation.
    type Rotation: Copy;

    /// A homogeneous 4x4 transform.
    type Matrix4: Copy;

    /// The scalar 0.
    fn zero() -> Self::Scalar;

    /// The scalar 1.
    fn one() -> Self::Scalar;

    /// The scalar nearest to a whole number.
    fn from_int(n: i32) -> Self::Scalar;

    /// The magnitude below which a length counts as zero.
    fn epsilon() -> Self::Scalar;

    /// `a + b`.
    fn sum(a: Self::Scalar, b: Self::Scalar) -> Self::Scalar;

    /// `a - b`.
    fn difference(a: Self::Scalar, b: Self::Scalar) -> Self::Scalar;

    /// `a * b`.
    fn product(a: Self::Scalar, b: Self::Scalar) -> Self::Scalar;

    /// `-a`.
    fn negate(a: Self::Scalar) -> Self::Scalar;

    /// The smaller of `a` and `b`.
    fn minimum(a: Self::Scalar, b: Self::Scalar) -> Self::Scalar;

    /// The larger of `a` and `b`.
    fn maximum(a: Self::Scalar, b: Self::Scalar) -> Self::Scalar;

    /// The square root of `a`.
    fn sqrt(a: Self::Scalar) -> Self::Scalar;

    /// The arccosine of `a`, in radians.
    fn acos(a: Self::Scalar) -> Self::Scalar;

    /// Whether `a < b`.
    fn less(a: Self::Scalar, b: Self::Scalar) -> bool;

    /// Whether `a <= b`.
    fn at_most(a: Self::Scalar, b: Self::Scalar) -> bool;

    /// The screen vector `(x, y)`.
    fn vector2(x: Self::Scalar, y: Self::Scalar) -> Self::Vector2;

    /// The first component of a screen vector.
    fn x2(v: Self::Vector2) -> Self::Scalar;

    /// The second component of a screen vector.
    fn y2(v: Self::Vector2) -> Self::Scalar;

    /// `a - b`, component by component.
    fn difference2(a: Self::Vector2, b: Self::Vector2) -> Self::Vector2;

    /// `-v`, component by component.
    fn negate2(v: Self::Vector2) -> Self::Vector2;

    /// The Euclidean length of a screen vector.
    fn magnitude2(v: Self::Vector2) -> Self::Scalar;

    /// The vector of direction `v` and length `length`.
    fn normalize_to2(v: Self::Vector2, length: Self::Scalar) -> Self::Vector2;

    /// The world vector `(x, y, z)`.
    fn vector3(x: Self::Scalar, y: Self::Scalar, z: Self::Scalar) -> Self::Vector3;

    /// `a + b`, component by component.
    fn sum3(a: Self::Vector3, b: Self::Vector3) -> Self::Vector3;

    /// `-v`, component by component.
    fn negate3(v: Self::Vector3) -> Self::Vector3;

    /// The dot product of `a` and `b`.
    fn dot(a: Self::Vector3, b: Self::Vector3) -> Self::Scalar;

    /// The cross product `a x b`.
    fn cross(a: Self::Vector3, b: Self::Vector3) -> Self::Vector3;

    /// The Euclidean length of a world vector.
    fn magnitude3(v: Self::Vector3) -> Self::Scalar;

    /// The vector of direction `v` and length 1.
    fn normalize3(v: Self::Vector3) -> Self::Vector3;

    /// The vector of direction `v` and length `length`; a negative `length`
    /// turns it round.
    fn normalize_to3(v: Self::Vector3, length: Self::Scalar) -> Self::Vector3;

    /// The rotation that turns nothing.
    fn identity() -> Self::Rotation;

    /// The rotation by `angle` radians about the unit vector `axis`.
    fn from_axis_angle(axis: Self::Vector3, angle: Self::Scalar) -> Self::Rotation;

    /// The rotation that applies `second` in the frame that `first` has
    /// turned: as matrices, `first * second`.
    fn concat(first: Self::Rotation, second: Self::Rotation) -> Self::Rotation;

    /// The rotation that undoes `r`.
    fn invert(r: Self::Rotation) -> Self::Rotation;

    /// The vector `v` turned by `r`.
    fn rotate_vector(r: Self::Rotation, v: Self::Vector3) -> Self::Vector3;

    /// The transform that moves every point by `offset`.
    fn offset_matrix(offset: Self::Vector3) -> Self::Matrix4;

    /// The transform that turns every point by `r` and moves none.
    fn rotation_matrix(r: Self::Rotation) -> Self::Matrix4;

    /// The transform that applies `second`, then `first`: as matrices,
    /// `first * second`.
    fn compose(first: Self::Matrix4, second: Self::Matrix4) -> Self::Matrix4;
}

} // verus!
