//! The controller as a mathematical value, and what each call computes.
//!
//! The numbers come from a [`Geometry`], so a result is pinned down by the
//! operations that produce it: `call_ensures(G::sum, (a, b), r)` reads "`r`
//! is what `G::sum(a, b)` returns". Each relation below chains such facts
//! from the inputs to the result, and so fixes which operations are applied,
//! to what, and in which order.

use vstd::prelude::*;
use crate::geometry::Geometry;

verus! {

/// The gesture that the next pointer move belongs to.
#[derive(Clone, Copy, Debug, PartialEq, Eq, Structural)]
pub enum Gesture {
    /// No gesture is active: a pointer move changes nothing.
    Idle,
    /// A pointer move turns the camera about its target.
    Rotating,
    /// A pointer move shifts the target.
    Panning,
}

/// `out` is the larger of `value` and zero.
pub open spec fn clamped_at_zero<G: Geometry>(value: G::Scalar, out: G::Scalar) -> bool {
    exists|zero: G::Scalar|
        {
            &&& call_ensures(G::zero, (), zero)
            &&& call_ensures(G::maximum, (value, zero), out)
        }
}

/// `height` is how high the unit sphere stands over a point at `radius` from
/// the centre: `sqrt(1 - radius * radius)` inside the unit disc, zero
/// outside it.
pub open spec fn sphere_height<G: Geometry>(radius: G::Scalar, height: G::Scalar) -> bool {
    exists|one: G::Scalar, inside: bool|
        {
            &&& call_ensures(G::one, (), one)
            &&& call_ensures(G::at_most, (radius, one), inside)
            &&& if inside {
                exists|square: G::Scalar, rest: G::Scalar|
                    {
                        &&& call_ensures(G::product, (radius, radius), square)
                        &&& call_ensures(G::difference, (one, square), rest)
                        &&& call_ensures(G::sqrt, (rest,), height)
                    }
            } else {
                call_ensures(G::zero, (), height)
            }
        }
}

/// `out` is the point of the unit ball that the pointer position `input`
/// stands for: `(x, y, height)` scaled to length 1, with the height that the
/// sphere has over `input`.
pub open spec fn ball_point<G: Geometry>(input: G::Vector2, out: G::Vector3) -> bool {
    exists|radius: G::Scalar, height: G::Scalar, x: G::Scalar, y: G::Scalar, raised: G::Vector3|
        {
            &&& call_ensures(G::magnitude2, (input,), radius)
            &&& sphere_height::<G>(radius, height)
            &&& call_ensures(G::x2, (input,), x)
            &&& call_ensures(G::y2, (input,), y)
            &&& call_ensures(G::vector3, (x, y, height), raised)
            &&& call_ensures(G::normalize3, (raised,), out)
        }
}

/// `moved` says whether `length` is more than the geometry's epsilon.
pub open spec fn exceeds_epsilon<G: Geometry>(length: G::Scalar, moved: bool) -> bool {
    exists|epsilon: G::Scalar|
        {
            &&& call_ensures(G::epsilon, (), epsilon)
            &&& call_ensures(G::less, (epsilon, length), moved)
        }
}

/// `out` is the dot product of `a` and `b`, held between -1 and 1.
pub open spec fn clamped_cosine<G: Geometry>(a: G::Vector3, b: G::Vector3, out: G::Scalar) -> bool {
    exists|cosine: G::Scalar, one: G::Scalar, capped: G::Scalar, floor: G::Scalar|
        {
            &&& call_ensures(G::dot, (a, b), cosine)
            &&& call_ensures(G::one, (), one)
            &&& call_ensures(G::minimum, (cosine, one), capped)
            &&& call_ensures(G::negate, (one,), floor)
            &&& call_ensures(G::maximum, (capped, floor), out)
        }
}

/// `out` is the world's X axis (`second` false) or Y axis (`second` true).
pub open spec fn world_axis<G: Geometry>(second: bool, out: G::Vector3) -> bool {
    exists|zero: G::Scalar, one: G::Scalar|
        {
            &&& call_ensures(G::zero, (), zero)
            &&& call_ensures(G::one, (), one)
            &&& if second {
                call_ensures(G::vector3, (zero, one, zero), out)
            } else {
                call_ensures(G::vector3, (one, zero, zero), out)
            }
        }
}

/// `to` is `from` moved by `amount` along `axis` as `rotation` turns it; a
/// negative amount moves against the axis.
pub open spec fn moved_along<G: Geometry>(
    rotation: G::Rotation,
    axis: G::Vector3,
    amount: G::Scalar,
    from: G::Vector3,
    to: G::Vector3,
) -> bool {
    exists|turned: G::Vector3, scaled: G::Vector3|
        {
            &&& call_ensures(G::rotate_vector, (rotation, axis), turned)
            &&& call_ensures(G::normalize_to3, (turned, amount), scaled)
            &&& call_ensures(G::sum3, (from, scaled), to)
        }
}

/// What a controller holds, as a mathematical value.
pub struct CameraModel<G: Geometry> {
    /// The pointer position that the last gesture call recorded.
    pub previous_pointer: G::Vector2,
    /// The point that the camera looks at.
    pub target: G::Vector3,
    /// The camera's orientation about the target.
    pub rotation: G::Rotation,
    /// How far the camera stands from the target.
    pub distance: G::Scalar,
    /// The factor on the arc that a rotating drag covers.
    pub spin_speed: G::Scalar,
    /// The factor on a zoom step.
    pub zoom_speed: G::Scalar,
    /// The length of one panning step.
    pub pan_speed: G::Scalar,
    /// Whether a rotating gesture was started and not ended.
    pub rotating: bool,
    /// Whether a panning gesture was started and not ended.
    pub panning: bool,
}

impl<G: Geometry> CameraModel<G> {
    /// Whether `self` is a fresh controller: at the origin, unturned, at
    /// distance zero, with spin speed 5, zoom and pan speed 1, and no gesture
    /// under way.
    pub open spec fn initial(self) -> bool {
        exists|zero: G::Scalar, one: G::Scalar|
            {
                &&& call_ensures(G::zero, (), zero)
                &&& call_ensures(G::one, (), one)
                &&& call_ensures(G::vector2, (zero, zero), self.previous_pointer)
                &&& call_ensures(G::vector3, (zero, zero, zero), self.target)
                &&& call_ensures(G::identity, (), self.rotation)
                &&& self.distance == zero
                &&& call_ensures(G::from_int, (5i32,), self.spin_speed)
                &&& self.zoom_speed == one
                &&& self.pan_speed == one
                &&& !self.rotating
                &&& !self.panning
            }
    }

    /// The gesture that a pointer move serves. Rotating wins where both
    /// gestures are under way.
    pub open spec fn gesture(self) -> Gesture {
        if self.rotating {
            Gesture::Rotating
        } else if self.panning {
            Gesture::Panning
        } else {
            Gesture::Idle
        }
    }

    /// The state after a rotating gesture starts at `pos`.
    pub open spec fn rotate_started(self, pos: G::Vector2) -> Self {
        CameraModel { rotating: true, previous_pointer: pos, ..self }
    }

    /// The state after the rotating gesture ends.
    pub open spec fn rotate_ended(self) -> Self {
        CameraModel { rotating: false, ..self }
    }

    /// The state after a panning gesture starts at `pos`.
    pub open spec fn pan_started(self, pos: G::Vector2) -> Self {
        CameraModel { panning: true, previous_pointer: pos, ..self }
    }

    /// The state after the panning gesture ends.
    pub open spec fn pan_ended(self) -> Self {
        CameraModel { panning: false, ..self }
    }

    /// Whether `next` differs from `self` in nothing but the distance.
    pub open spec fn distance_step(self, next: Self) -> bool {
        next == (CameraModel { distance: next.distance, ..self })
    }

    /// Whether `next` may follow `self` when the distance is set to
    /// `distance`: it becomes the larger of `distance` and zero.
    pub open spec fn distance_set(self, distance: G::Scalar, next: Self) -> bool {
        self.distance_step(next) && clamped_at_zero::<G>(distance, next.distance)
    }

    /// Whether `next` may follow `self` on a zoom by `d`: the distance
    /// becomes the larger of `distance + d * zoom_speed` and zero.
    pub open spec fn zoomed(self, d: G::Scalar, next: Self) -> bool {
        &&& self.distance_step(next)
        &&& exists|step: G::Scalar, moved: G::Scalar|
            {
                &&& call_ensures(G::product, (d, self.zoom_speed), step)
                &&& call_ensures(G::sum, (self.distance, step), moved)
                &&& clamped_at_zero::<G>(moved, next.distance)
            }
    }

    /// `out` is the rotation turned by the arc from the ball point
    /// `previous` to the ball point `current`, about `normal`: the angle
    /// `acos(previous . current) * spin_speed` about the unit vector along
    /// `normal`, applied in the camera's own frame.
    pub open spec fn turned_about(
        self,
        previous: G::Vector3,
        current: G::Vector3,
        normal: G::Vector3,
        out: G::Rotation,
    ) -> bool {
        exists|
            cosine: G::Scalar,
            arc: G::Scalar,
            angle: G::Scalar,
            axis: G::Vector3,
            increment: G::Rotation,
        |
            {
                &&& clamped_cosine::<G>(previous, current, cosine)
                &&& call_ensures(G::acos, (cosine,), arc)
                &&& call_ensures(G::product, (arc, self.spin_speed), angle)
                &&& call_ensures(G::normalize3, (normal,), axis)
                &&& call_ensures(G::from_axis_angle, (axis, angle), increment)
                &&& call_ensures(G::concat, (self.rotation, increment), out)
            }
    }

    /// `out` is the rotation after a rotating drag from the recorded pointer
    /// to `pointer`.
    ///
    /// Both positions are taken onto the unit ball, and `current x previous`
    /// is the normal of the plane they span. Where its length is more than
    /// epsilon the rotation is turned about it; else it stays as it is.
    pub open spec fn drag_turned(self, pointer: G::Vector2, out: G::Rotation) -> bool {
        exists|
            previous: G::Vector3,
            current: G::Vector3,
            normal: G::Vector3,
            length: G::Scalar,
            moved: bool,
        |
            #![trigger
                call_ensures(G::cross, (current, previous), normal),
                exceeds_epsilon::<G>(length, moved),
            ]
            {
                &&& ball_point::<G>(self.previous_pointer, previous)
                &&& ball_point::<G>(pointer, current)
                &&& call_ensures(G::cross, (current, previous), normal)
                &&& call_ensures(G::magnitude3, (normal,), length)
                &&& exceeds_epsilon::<G>(length, moved)
                &&& if moved {
                    self.turned_about(previous, current, normal, out)
                } else {
                    out == self.rotation
                }
            }
    }

    /// `out` is the target shifted against `drag`: by `pan_speed` in all,
    /// whatever the length of `drag`, along the camera's own X and Y axes.
    pub open spec fn shifted_against(self, drag: G::Vector2, out: G::Vector3) -> bool {
        exists|
            scaled: G::Vector2,
            step: G::Vector2,
            across: G::Scalar,
            upward: G::Scalar,
            x_axis: G::Vector3,
            y_axis: G::Vector3,
            halfway: G::Vector3,
        |
            {
                &&& call_ensures(G::normalize_to2, (drag, self.pan_speed), scaled)
                &&& call_ensures(G::negate2, (scaled,), step)
                &&& call_ensures(G::x2, (step,), across)
                &&& call_ensures(G::y2, (step,), upward)
                &&& world_axis::<G>(false, x_axis)
                &&& world_axis::<G>(true, y_axis)
                &&& moved_along::<G>(self.rotation, x_axis, across, self.target, halfway)
                &&& moved_along::<G>(self.rotation, y_axis, upward, halfway, out)
            }
    }

    /// `out` is the target after a panning drag from the recorded pointer to
    /// `pointer`: shifted against the drag where the drag is longer than
    /// epsilon, else as it is.
    pub open spec fn drag_shifted(self, pointer: G::Vector2, out: G::Vector3) -> bool {
        exists|drag: G::Vector2, length: G::Scalar, moved: bool|
            #![trigger
                call_ensures(G::magnitude2, (drag,), length),
                exceeds_epsilon::<G>(length, moved),
            ]
            {
                &&& call_ensures(G::difference2, (pointer, self.previous_pointer), drag)
                &&& call_ensures(G::magnitude2, (drag,), length)
                &&& exceeds_epsilon::<G>(length, moved)
                &&& if moved {
                    self.shifted_against(drag, out)
                } else {
                    out == self.target
                }
            }
    }

    /// Whether `next` may follow `self` when the pointer moves to `pointer`.
    ///
    /// An idle controller stays as it is. A rotating one records the pointer
    /// and takes the rotation that the drag gives; a panning one records the
    /// pointer and takes the target that the drag gives. Nothing else
    /// differs.
    pub open spec fn pointer_step(self, pointer: G::Vector2, next: Self) -> bool {
        match self.gesture() {
            Gesture::Idle => next == self,
            Gesture::Rotating => {
                &&& self.drag_turned(pointer, next.rotation)
                &&& next == (CameraModel {
                    previous_pointer: pointer,
                    rotation: next.rotation,
                    ..self
                })
            },
            Gesture::Panning => {
                &&& self.drag_shifted(pointer, next.target)
                &&& next == (CameraModel {
                    previous_pointer: pointer,
                    target: next.target,
                    ..self
                })
            },
        }
    }

    /// `out` is minus the camera's position: the camera stands at the target
    /// plus `(0, 0, distance)` turned by the rotation.
    pub open spec fn view_offset(self, out: G::Vector3) -> bool {
        exists|zero: G::Scalar, forward: G::Vector3, arm: G::Vector3, eye: G::Vector3|
            {
                &&& call_ensures(G::zero, (), zero)
                &&& call_ensures(G::vector3, (zero, zero, self.distance), forward)
                &&& call_ensures(G::rotate_vector, (self.rotation, forward), arm)
                &&& call_ensures(G::sum3, (self.target, arm), eye)
                &&& call_ensures(G::negate3, (eye,), out)
            }
    }

    /// `out` is the view transform: the world is moved by minus the camera's
    /// position and then turned by the inverted rotation. As matrices it is
    /// the inverted rotation times the move.
    pub open spec fn view_transform(self, out: G::Matrix4) -> bool {
        exists|offset: G::Vector3, shift: G::Matrix4, back: G::Rotation, unturn: G::Matrix4|
            {
                &&& self.view_offset(offset)
                &&& call_ensures(G::offset_matrix, (offset,), shift)
                &&& call_ensures(G::invert, (self.rotation,), back)
                &&& call_ensures(G::rotation_matrix, (back,), unturn)
                &&& call_ensures(G::compose, (unturn, shift), out)
            }
    }
}

} // verus!
