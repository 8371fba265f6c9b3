//! Interactive region selection and tracking, as a set of pure state machines.
//!
//! A user drags a rectangle on a video surface; the rectangle seeds a
//! colour-histogram tracker; every tracked frame reports the centre of the
//! tracked region as a line of text. The capture device, the imaging
//! primitives, the window and the socket are driven by the caller: this
//! library decides what happens next and what is reported.

pub mod config;
pub mod geometry;
pub mod selection;
pub mod telemetry;
pub mod tracker;
