//! An arcball orbit camera controller.
//!
//! The controller keeps an orientation, a look-at target and a distance, and
//! is driven by pointer gestures: a rotating drag turns the camera about the
//! target, a panning drag shifts the target, a zoom changes the distance.
//! Once per frame it gives the view transform.
//!
//! The arithmetic is done by a [`Geometry`] that the caller supplies. The
//! controller decides what is computed, from what and in which order, and
//! what each call may change; [`model`] states that, and [`laws`] what
//! follows for every run of calls.

pub mod geometry;
pub mod model;
pub mod camera;
pub mod laws;

pub use camera::ArcballCamera;
pub use geometry::Geometry;
pub use model::{CameraModel, Gesture};
