//! The exact core of a small direct-lighting ray tracer.
//!
//! Everything here is exact. Sample offsets and viewport coordinates are
//! fractions of integers, distances along a ray are ordered keys, colours
//! are display-encoded bytes, and a frame is a state machine over a
//! row-major colour buffer. What a pixel looks like is asked of the caller,
//! who is handed the scene and the exact viewport points of the pixel's
//! samples.
//!
//! - [`sampling`]: the regular grid of sub-pixel samples.
//! - [`viewport`]: where the samples of a pixel fall on the viewport.
//! - [`scene`]: a scene's camera, objects and lights, and which object a
//!   ray meets first.
//! - [`tracer`]: the colour buffer, the preview and the full pass, and the
//!   bytes of a frame.
//! - [`input`]: from held keys to a movement of the camera.
//! - [`color`], [`fraction`]: the values that the others share.

pub mod color;
pub mod fraction;
pub mod input;
pub mod sampling;
pub mod scene;
pub mod tracer;
pub mod viewport;
