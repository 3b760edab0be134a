//! What holds of every controller, whatever the geometry computes.
//!
//! Each law is stated over [`CameraModel`], the value that the controller's
//! contracts speak of, so it holds of every sequence of calls. The laws at
//! the end speak of numbers; they hold for every geometry that orders its
//! numbers as their conditions say.

use vstd::prelude::*;
use crate::model::{ball_point, exceeds_epsilon, CameraModel, Gesture};
use crate::geometry::Geometry;

verus! {

/// A fresh controller is idle: its first pointer move changes nothing.
pub proof fn lemma_initial_is_idle<G: Geometry>(
    fresh: CameraModel<G>,
    pointer: G::Vector2,
    after: CameraModel<G>,
)
    requires
        fresh.initial(),
        fresh.pointer_step(pointer, after),
    ensures
        fresh.gesture() == Gesture::Idle,
        after == fresh,
{
}

/// Setting the distance and zooming change the distance and nothing else.
pub proof fn lemma_zoom_keeps_pose<G: Geometry>(
    before: CameraModel<G>,
    d: G::Scalar,
    after: CameraModel<G>,
)
    requires
        before.zoomed(d, after) || before.distance_set(d, after),
    ensures
        before.distance_step(after),
        after.gesture() == before.gesture(),
        after.rotation == before.rotation,
        after.target == before.target,
        after.previous_pointer == before.previous_pointer,
        after.spin_speed == before.spin_speed,
        after.zoom_speed == before.zoom_speed,
        after.pan_speed == before.pan_speed,
{
}

/// A pointer move never starts or ends a gesture, and changes neither the
/// distance nor a speed.
pub proof fn lemma_pointer_move_keeps_gesture<G: Geometry>(
    before: CameraModel<G>,
    pointer: G::Vector2,
    after: CameraModel<G>,
)
    requires
        before.pointer_step(pointer, after),
    ensures
        after.rotating == before.rotating,
        after.panning == before.panning,
        after.gesture() == before.gesture(),
        after.distance == before.distance,
        after.spin_speed == before.spin_speed,
        after.zoom_speed == before.zoom_speed,
        after.pan_speed == before.pan_speed,
{
}

/// With no gesture under way a pointer move changes nothing at all.
pub proof fn lemma_idle_pointer_move_is_noop<G: Geometry>(
    before: CameraModel<G>,
    pointer: G::Vector2,
    after: CameraModel<G>,
)
    requires
        !before.rotating,
        !before.panning,
        before.pointer_step(pointer, after),
    ensures
        after == before,
{
}

/// Rotating wins over panning: while a rotating gesture is under way a
/// pointer move leaves the target alone, also where a panning gesture is
/// under way too.
pub proof fn lemma_rotating_has_priority<G: Geometry>(
    before: CameraModel<G>,
    pointer: G::Vector2,
    after: CameraModel<G>,
)
    requires
        before.rotating,
        before.pointer_step(pointer, after),
    ensures
        after.target == before.target,
        after.previous_pointer == pointer,
{
}

/// While only a panning gesture is under way a pointer move leaves the
/// rotation alone.
pub proof fn lemma_panning_keeps_rotation<G: Geometry>(
    before: CameraModel<G>,
    pointer: G::Vector2,
    after: CameraModel<G>,
)
    requires
        !before.rotating,
        before.panning,
        before.pointer_step(pointer, after),
    ensures
        after.rotation == before.rotation,
        after.previous_pointer == pointer,
{
}

/// An idle controller rotates after `rotate_start` and is idle again after
/// `rotate_end`; the two calls together change nothing but the recorded
/// pointer.
pub proof fn lemma_rotate_gesture_cycle<G: Geometry>(idle: CameraModel<G>, pos: G::Vector2)
    requires
        idle.gesture() == Gesture::Idle,
    ensures
        idle.rotate_started(pos).gesture() == Gesture::Rotating,
        idle.rotate_started(pos).rotate_ended().gesture() == Gesture::Idle,
        idle.rotate_started(pos).rotate_ended() == (CameraModel {
            previous_pointer: pos,
            ..idle
        }),
{
}

/// An idle controller pans after `pan_start` and is idle again after
/// `pan_end`; the two calls together change nothing but the recorded
/// pointer.
pub proof fn lemma_pan_gesture_cycle<G: Geometry>(idle: CameraModel<G>, pos: G::Vector2)
    requires
        idle.gesture() == Gesture::Idle,
    ensures
        idle.pan_started(pos).gesture() == Gesture::Panning,
        idle.pan_started(pos).pan_ended().gesture() == Gesture::Idle,
        idle.pan_started(pos).pan_ended() == (CameraModel { previous_pointer: pos, ..idle }),
{
}

/// Starting one gesture does not end the other. With both under way the
/// controller rotates, and panning resumes once the rotating gesture ends.
pub proof fn lemma_gestures_overlap<G: Geometry>(
    state: CameraModel<G>,
    first: G::Vector2,
    second: G::Vector2,
)
    ensures
        state.pan_started(first).rotate_started(second).panning,
        state.rotate_started(first).pan_started(second).rotating,
        state.pan_started(first).rotate_started(second).gesture() == Gesture::Rotating,
        state.rotate_started(first).pan_started(second).gesture() == Gesture::Rotating,
        state.pan_started(first).rotate_started(second).rotate_ended().gesture()
            == Gesture::Panning,
{
}

/// Ending a gesture leaves the recorded pointer, the pose and the speeds
/// alone, and ending a gesture that is not under way changes nothing.
pub proof fn lemma_gesture_end_keeps_pointer<G: Geometry>(state: CameraModel<G>)
    ensures
        state.rotate_ended().previous_pointer == state.previous_pointer,
        state.pan_ended().previous_pointer == state.previous_pointer,
        state.rotate_ended() == (CameraModel { rotating: false, ..state }),
        state.pan_ended() == (CameraModel { panning: false, ..state }),
        !state.rotating ==> state.rotate_ended() == state,
        !state.panning ==> state.pan_ended() == state,
{
}

/// A run of steps that each change the distance alone changes the distance
/// alone: two such steps in a row are one such step.
pub proof fn lemma_distance_steps_compose<G: Geometry>(
    first: CameraModel<G>,
    second: CameraModel<G>,
    third: CameraModel<G>,
)
    requires
        first.distance_step(second),
        second.distance_step(third),
    ensures
        first.distance_step(third),
        third.gesture() == first.gesture(),
        third.rotation == first.rotation,
        third.target == first.target,
        third.previous_pointer == first.previous_pointer,
{
}

/// Whether no distance that the geometry clamps at zero is less than zero,
/// and zero is not less than itself.
pub open spec fn zero_is_floor<G: Geometry>() -> bool {
    &&& forall|zero: G::Scalar, other: G::Scalar, below: bool|
        #![trigger call_ensures(G::zero, (), zero), call_ensures(G::less, (other, zero), below)]
        {
            &&& call_ensures(G::zero, (), zero)
            &&& call_ensures(G::zero, (), other)
            &&& call_ensures(G::less, (other, zero), below)
        } ==> !below
    &&& forall|value: G::Scalar, floor: G::Scalar, out: G::Scalar, zero: G::Scalar, below: bool|
        #![trigger
            call_ensures(G::maximum, (value, floor), out),
            call_ensures(G::less, (out, zero), below),
        ]
        {
            &&& call_ensures(G::zero, (), floor)
            &&& call_ensures(G::maximum, (value, floor), out)
            &&& call_ensures(G::zero, (), zero)
            &&& call_ensures(G::less, (out, zero), below)
        } ==> !below
}

/// Whether the geometry never finds `distance` less than zero.
pub open spec fn not_negative<G: Geometry>(distance: G::Scalar) -> bool {
    forall|zero: G::Scalar, below: bool|
        #![trigger call_ensures(G::zero, (), zero), call_ensures(G::less, (distance, zero), below)]
        call_ensures(G::zero, (), zero) && call_ensures(G::less, (distance, zero), below)
            ==> !below
}

/// The distance is never negative: not in a fresh controller, and not after
/// the distance is set or zoomed, whatever it was before. No other call
/// changes it.
pub proof fn lemma_distance_never_negative<G: Geometry>(
    before: CameraModel<G>,
    d: G::Scalar,
    after: CameraModel<G>,
)
    requires
        zero_is_floor::<G>(),
    ensures
        before.initial() ==> not_negative::<G>(before.distance),
        before.distance_set(d, after) ==> not_negative::<G>(after.distance),
        before.zoomed(d, after) ==> not_negative::<G>(after.distance),
{
}

/// A pointer move keeps the distance non-negative.
pub proof fn lemma_pointer_move_keeps_distance_valid<G: Geometry>(
    before: CameraModel<G>,
    pointer: G::Vector2,
    after: CameraModel<G>,
)
    requires
        not_negative::<G>(before.distance),
        before.pointer_step(pointer, after),
    ensures
        not_negative::<G>(after.distance),
{
}

/// Whether the geometry finds no arc from the ball point of `pointer` to
/// itself: the cross product of the two is no longer than epsilon.
pub open spec fn no_arc_to_itself<G: Geometry>(pointer: G::Vector2) -> bool {
    forall|a: G::Vector3, b: G::Vector3, normal: G::Vector3, length: G::Scalar, moved: bool|
        #![trigger
            call_ensures(G::cross, (b, a), normal),
            exceeds_epsilon::<G>(length, moved),
        ]
        {
            &&& ball_point::<G>(pointer, a)
            &&& ball_point::<G>(pointer, b)
            &&& call_ensures(G::cross, (b, a), normal)
            &&& call_ensures(G::magnitude3, (normal,), length)
            &&& exceeds_epsilon::<G>(length, moved)
        } ==> !moved
}

/// Whether the geometry finds no drag from `pointer` to itself: the
/// difference of the two is no longer than epsilon.
pub open spec fn no_drag_to_itself<G: Geometry>(pointer: G::Vector2) -> bool {
    forall|drag: G::Vector2, length: G::Scalar, moved: bool|
        #![trigger
            call_ensures(G::magnitude2, (drag,), length),
            exceeds_epsilon::<G>(length, moved),
        ]
        {
            &&& call_ensures(G::difference2, (pointer, pointer), drag)
            &&& call_ensures(G::magnitude2, (drag,), length)
            &&& exceeds_epsilon::<G>(length, moved)
        } ==> !moved
}

/// While rotating, a pointer move to the recorded position changes nothing:
/// the rotation stays, and so does all else.
pub proof fn lemma_still_pointer_turns_nothing<G: Geometry>(
    before: CameraModel<G>,
    after: CameraModel<G>,
)
    requires
        before.rotating,
        no_arc_to_itself::<G>(before.previous_pointer),
        before.pointer_step(before.previous_pointer, after),
    ensures
        after.rotation == before.rotation,
        after == before,
{
}

/// While panning, and not rotating, a pointer move to the recorded position
/// changes nothing: the target stays, and so does all else.
pub proof fn lemma_still_pointer_shifts_nothing<G: Geometry>(
    before: CameraModel<G>,
    after: CameraModel<G>,
)
    requires
        !before.rotating,
        before.panning,
        no_drag_to_itself::<G>(before.previous_pointer),
        before.pointer_step(before.previous_pointer, after),
    ensures
        after.target == before.target,
        after == before,
{
}

/// Whether the geometry finds every length of `input` to be more than 1.
pub open spec fn outside_unit_disc<G: Geometry>(input: G::Vector2) -> bool {
    forall|radius: G::Scalar, one: G::Scalar, inside: bool|
        #![trigger
            call_ensures(G::magnitude2, (input,), radius),
            call_ensures(G::at_most, (radius, one), inside),
        ]
        {
            &&& call_ensures(G::magnitude2, (input,), radius)
            &&& call_ensures(G::one, (), one)
            &&& call_ensures(G::at_most, (radius, one), inside)
        } ==> !inside
}

/// `out` is `(x, y, 0)` scaled to length 1, for the pointer position
/// `input` at `(x, y)`.
pub open spec fn equator_point<G: Geometry>(input: G::Vector2, out: G::Vector3) -> bool {
    exists|x: G::Scalar, y: G::Scalar, zero: G::Scalar, flat: G::Vector3|
        {
            &&& call_ensures(G::x2, (input,), x)
            &&& call_ensures(G::y2, (input,), y)
            &&& call_ensures(G::zero, (), zero)
            &&& call_ensures(G::vector3, (x, y, zero), flat)
            &&& call_ensures(G::normalize3, (flat,), out)
        }
}

/// A pointer outside the unit disc is taken to the equator of the ball: the
/// height is zero before the point is scaled to length 1.
pub proof fn lemma_outside_disc_is_equator<G: Geometry>(input: G::Vector2, out: G::Vector3)
    requires
        outside_unit_disc::<G>(input),
        ball_point::<G>(input, out),
    ensures
        equator_point::<G>(input, out),
{
}

} // verus!
