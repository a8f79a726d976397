//! Verified core of a WebGL raymarching demo: the quad geometry, the
//! shader-build outcome rules, and the uniform naming scheme that the
//! browser-facing glue code follows.
pub mod geometry;
pub mod scene;
pub mod shader;
