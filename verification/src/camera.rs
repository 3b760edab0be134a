//! The camera controller: its state, its gestures and its view transform.

use vstd::prelude::*;
use crate::geometry::Geometry;
use crate::model::{
    ball_point, clamped_at_zero, clamped_cosine, exceeds_epsilon, moved_along, sphere_height,
    world_axis, CameraModel, Gesture,
};

verus! {

/// An orbit camera that pointer gestures turn, shift and zoom.
///
/// Pointer positions are in normalized screen coordinates: -1 to 1 on both
/// axes.
pub struct ArcballCamera<G: Geometry> {
    p_mouse: G::Vector2,
    target: G::Vector3,
    rotation: G::Rotation,
    distance: G::Scalar,
    spin_speed: G::Scalar,
    zoom_speed: G::Scalar,
    pan_speed: G::Scalar,
    rotating: bool,
    panning: bool,
}

impl<G: Geometry> View for ArcballCamera<G> {
    type V = CameraModel<G>;

    closed spec fn view(&self) -> CameraModel<G> {
        CameraModel {
            previous_pointer: self.p_mouse,
            target: self.target,
            rotation: self.rotation,
            distance: self.distance,
            spin_speed: self.spin_speed,
            zoom_speed: self.zoom_speed,
            pan_speed: self.pan_speed,
            rotating: self.rotating,
            panning: self.panning,
        }
    }
}

impl<G: Geometry> ArcballCamera<G> {
    /// A camera at the origin, unturned, at distance zero, with no gesture
    /// under way. Spin speed is 5, zoom and pan speed are 1.
    pub fn new() -> (camera: Self)
        ensures
            camera@.initial(),
    {
        let zero = G::zero();
        let one = G::one();
        ArcballCamera {
            p_mouse: G::vector2(zero, zero),
            target: G::vector3(zero, zero, zero),
            rotation: G::identity(),
            distance: zero,
            spin_speed: G::from_int(5),
            zoom_speed: one,
            pan_speed: one,
            rotating: false,
            panning: false,
        }
    }

    /// The larger of `value` and zero.
    fn clamp_at_zero(value: G::Scalar) -> (out: G::Scalar)
        ensures
            clamped_at_zero::<G>(value, out),
    {
        let zero = G::zero();
        G::maximum(value, zero)
    }

    /// Sets the distance to the larger of `distance` and zero.
    pub fn set_distance(&mut self, distance: G::Scalar) -> (camera: &mut Self)
        ensures
            old(self)@.distance_set(distance, camera@),
            *final(self) == *final(camera),
    {
        self.distance = Self::clamp_at_zero(distance);
        self
    }

    /// Sets the orientation. The caller supplies a pure rotation.
    pub fn set_rotation(&mut self, rotation: G::Rotation) -> (camera: &mut Self)
        ensures
            camera@ == (CameraModel { rotation: rotation, ..old(self)@ }),
            *final(self) == *final(camera),
    {
        self.rotation = rotation;
        self
    }

    /// Sets the point that the camera looks at.
    pub fn set_target(&mut self, target: G::Vector3) -> (camera: &mut Self)
        ensures
            camera@ == (CameraModel { target: target, ..old(self)@ }),
            *final(self) == *final(camera),
    {
        self.target = target;
        self
    }

    /// Sets the factor on the arc that a rotating drag covers.
    pub fn set_spin_speed(&mut self, speed: G::Scalar) -> (camera: &mut Self)
        ensures
            camera@ == (CameraModel { spin_speed: speed, ..old(self)@ }),
            *final(self) == *final(camera),
    {
        self.spin_speed = speed;
        self
    }

    /// Sets the factor on a zoom step.
    pub fn set_zoom_speed(&mut self, speed: G::Scalar) -> (camera: &mut Self)
        ensures
            camera@ == (CameraModel { zoom_speed: speed, ..old(self)@ }),
            *final(self) == *final(camera),
    {
        self.zoom_speed = speed;
        self
    }

    /// Sets the length of one panning step.
    pub fn set_pan_speed(&mut self, speed: G::Scalar) -> (camera: &mut Self)
        ensures
            camera@ == (CameraModel { pan_speed: speed, ..old(self)@ }),
            *final(self) == *final(camera),
    {
        self.pan_speed = speed;
        self
    }

    /// Starts a rotating gesture at `pos`.
    pub fn rotate_start(&mut self, pos: G::Vector2)
        ensures
            final(self)@ == old(self)@.rotate_started(pos),
    {
        self.rotating = true;
        self.p_mouse = pos;
    }

    /// Ends the rotating gesture. The recorded pointer stays.
    pub fn rotate_end(&mut self)
        ensures
            final(self)@ == old(self)@.rotate_ended(),
    {
        self.rotating = false;
    }

    /// Starts a panning gesture at `pos`.
    pub fn pan_start(&mut self, pos: G::Vector2)
        ensures
            final(self)@ == old(self)@.pan_started(pos),
    {
        self.panning = true;
        self.p_mouse = pos;
    }

    /// Ends the panning gesture. The recorded pointer stays.
    pub fn pan_end(&mut self)
        ensures
            final(self)@ == old(self)@.pan_ended(),
    {
        self.panning = false;
    }

    /// Moves the camera towards the target or away from it: the distance
    /// becomes the larger of `distance + d * zoom_speed` and zero.
    pub fn zoom(&mut self, d: G::Scalar)
        ensures
            old(self)@.zoomed(d, final(self)@),
    {
        let step = G::product(d, self.zoom_speed);
        let moved = G::sum(self.distance, step);
        proof {
            assert(call_ensures(G::product, (d, self@.zoom_speed), step));
            assert(call_ensures(G::sum, (self@.distance, step), moved));
        }
        self.distance = Self::clamp_at_zero(moved);
    }

    /// How high the unit sphere stands over a point at `radius` from the
    /// centre.
    fn height_on_sphere(radius: G::Scalar) -> (height: G::Scalar)
        ensures
            sphere_height::<G>(radius, height),
    {
        let one = G::one();
        let inside = G::at_most(radius, one);
        if inside {
            let square = G::product(radius, radius);
            let rest = G::difference(one, square);
            G::sqrt(rest)
        } else {
            G::zero()
        }
    }

    /// The point of the unit ball that a pointer position stands for.
    ///
    /// Inside the unit disc the point is lifted onto the sphere, to the
    /// height `sqrt(1 - r * r)` for a pointer at radius `r`. Outside the disc
    /// the height is zero. Either way the point is then scaled to length 1,
    /// so the centre of the screen gives `(0, 0, 1)`.
    pub fn get_vec_on_ball(input: G::Vector2) -> (out: G::Vector3)
        ensures
            ball_point::<G>(input, out),
    {
        let radius = G::magnitude2(input);
        let height = Self::height_on_sphere(radius);
        let x = G::x2(input);
        let y = G::y2(input);
        let raised = G::vector3(x, y, height);
        G::normalize3(raised)
    }

    /// Whether `length` is more than the geometry's epsilon.
    fn is_movement(length: G::Scalar) -> (moved: bool)
        ensures
            exceeds_epsilon::<G>(length, moved),
    {
        let epsilon = G::epsilon();
        G::less(epsilon, length)
    }

    /// The dot product of `a` and `b`, held between -1 and 1.
    fn cosine_between(a: G::Vector3, b: G::Vector3) -> (out: G::Scalar)
        ensures
            clamped_cosine::<G>(a, b, out),
    {
        let cosine = G::dot(a, b);
        let one = G::one();
        let capped = G::minimum(cosine, one);
        let floor = G::negate(one);
        G::maximum(capped, floor)
    }

    /// The rotation turned by the arc between two ball points, about
    /// `normal`.
    fn turn_about(&self, previous: G::Vector3, current: G::Vector3, normal: G::Vector3) -> (out:
        G::Rotation)
        ensures
            self@.turned_about(previous, current, normal, out),
    {
        let cosine = Self::cosine_between(previous, current);
        let arc = G::acos(cosine);
        let angle = G::product(arc, self.spin_speed);
        let axis = G::normalize3(normal);
        let increment = G::from_axis_angle(axis, angle);
        G::concat(self.rotation, increment)
    }

    /// The rotation after a rotating drag from the recorded pointer to
    /// `pointer`.
    fn drag_rotation(&self, pointer: G::Vector2) -> (out: G::Rotation)
        ensures
            self@.drag_turned(pointer, out),
    {
        let previous = Self::get_vec_on_ball(self.p_mouse);
        let current = Self::get_vec_on_ball(pointer);
        let normal = G::cross(current, previous);
        let length = G::magnitude3(normal);
        let moved = Self::is_movement(length);
        proof {
            assert(ball_point::<G>(self@.previous_pointer, previous));
        }
        if moved {
            self.turn_about(previous, current, normal)
        } else {
            self.rotation
        }
    }

    /// The world's X axis (`second` false) or Y axis (`second` true).
    fn axis_of_world(second: bool) -> (out: G::Vector3)
        ensures
            world_axis::<G>(second, out),
    {
        let zero = G::zero();
        let one = G::one();
        if second {
            G::vector3(zero, one, zero)
        } else {
            G::vector3(one, zero, zero)
        }
    }

    /// `from` moved by `amount` along `axis` as the camera's rotation turns
    /// it.
    fn move_along(&self, axis: G::Vector3, amount: G::Scalar, from: G::Vector3) -> (to: G::Vector3)
        ensures
            moved_along::<G>(self@.rotation, axis, amount, from, to),
    {
        let turned = G::rotate_vector(self.rotation, axis);
        let scaled = G::normalize_to3(turned, amount);
        G::sum3(from, scaled)
    }

    /// The target shifted against `drag`.
    fn shift_against(&self, drag: G::Vector2) -> (out: G::Vector3)
        ensures
            self@.shifted_against(drag, out),
    {
        let scaled = G::normalize_to2(drag, self.pan_speed);
        let step = G::negate2(scaled);
        let across = G::x2(step);
        let upward = G::y2(step);
        let x_axis = Self::axis_of_world(false);
        let y_axis = Self::axis_of_world(true);
        let halfway = self.move_along(x_axis, across, self.target);
        proof {
            assert(call_ensures(G::normalize_to2, (drag, self@.pan_speed), scaled));
            assert(moved_along::<G>(self@.rotation, x_axis, across, self@.target, halfway));
        }
        self.move_along(y_axis, upward, halfway)
    }

    /// The target after a panning drag from the recorded pointer to
    /// `pointer`.
    fn drag_target(&self, pointer: G::Vector2) -> (out: G::Vector3)
        ensures
            self@.drag_shifted(pointer, out),
    {
        let drag = G::difference2(pointer, self.p_mouse);
        let length = G::magnitude2(drag);
        let moved = Self::is_movement(length);
        proof {
            assert(call_ensures(G::difference2, (pointer, self@.previous_pointer), drag));
        }
        if moved {
            self.shift_against(drag)
        } else {
            self.target
        }
    }

    /// Takes a pointer move to `cur_mouse` into the gesture under way.
    ///
    /// While rotating, the camera turns and the pointer is recorded. While
    /// panning, and not rotating, the target shifts and the pointer is
    /// recorded. With no gesture under way nothing changes. A move too small
    /// to give a direction turns or shifts nothing.
    pub fn update(&mut self, cur_mouse: G::Vector2)
        ensures
            old(self)@.pointer_step(cur_mouse, final(self)@),
    {
        if self.rotating {
            self.rotation = self.drag_rotation(cur_mouse);
            self.p_mouse = cur_mouse;
        } else if self.panning {
            self.target = self.drag_target(cur_mouse);
            self.p_mouse = cur_mouse;
        }
    }

    /// Minus the camera's position in the world.
    fn offset_of_view(&self) -> (out: G::Vector3)
        ensures
            self@.view_offset(out),
    {
        let zero = G::zero();
        let forward = G::vector3(zero, zero, self.distance);
        let arm = G::rotate_vector(self.rotation, forward);
        let eye = G::sum3(self.target, arm);
        proof {
            assert(call_ensures(G::vector3, (zero, zero, self@.distance), forward));
            assert(call_ensures(G::rotate_vector, (self@.rotation, forward), arm));
            assert(call_ensures(G::sum3, (self@.target, arm), eye));
        }
        G::negate3(eye)
    }

    /// The view transform: the matrix that takes world coordinates to the
    /// camera's.
    ///
    /// The camera stands at the target plus the distance along its own
    /// forward axis. The view transform undoes that pose: it moves the world
    /// by the negated position, then turns it by the inverted orientation.
    pub fn get_transform_mat(&self) -> (out: G::Matrix4)
        ensures
            self@.view_transform(out),
    {
        let offset = self.offset_of_view();
        let shift = G::offset_matrix(offset);
        let back = G::invert(self.rotation);
        let unturn = G::rotation_matrix(back);
        G::compose(unturn, shift)
    }

    /// The gesture that the next pointer move belongs to.
    pub fn gesture(&self) -> (g: Gesture)
        ensures
            g == self@.gesture(),
    {
        if self.rotating {
            Gesture::Rotating
        } else if self.panning {
            Gesture::Panning
        } else {
            Gesture::Idle
        }
    }

    /// Whether a rotating gesture was started and not ended.
    pub fn is_rotating(&self) -> (b: bool)
        ensures
            b == self@.rotating,
    {
        self.rotating
    }

    /// Whether a panning gesture was started and not ended.
    pub fn is_panning(&self) -> (b: bool)
        ensures
            b == self@.panning,
    {
        self.panning
    }

    /// The pointer position that the last gesture call recorded.
    pub fn previous_pointer(&self) -> (p: G::Vector2)
        ensures
            p == self@.previous_pointer,
    {
        self.p_mouse
    }

    /// The point that the camera looks at.
    pub fn target(&self) -> (t: G::Vector3)
        ensures
            t == self@.target,
    {
        self.target
    }

    /// The camera's orientation about the target.
    pub fn rotation(&self) -> (r: G::Rotation)
        ensures
            r == self@.rotation,
    {
        self.rotation
    }

    /// How far the camera stands from the target.
    pub fn distance(&self) -> (d: G::Scalar)
        ensures
            d == self@.distance,
    {
        self.distance
    }

    /// The factor on the arc that a rotating drag covers.
    pub fn spin_speed(&self) -> (s: G::Scalar)
        ensures
            s == self@.spin_speed,
    {
        self.spin_speed
    }

    /// The factor on a zoom step.
    pub fn zoom_speed(&self) -> (s: G::Scalar)
        ensures
            s == self@.zoom_speed,
    {
        self.zoom_speed
    }

    /// The length of one panning step.
    pub fn pan_speed(&self) -> (s: G::Scalar)
        ensures
            s == self@.pan_speed,
    {
        self.pan_speed
    }
}

} // verus!
