//! Verified core of an interactive raymarching renderer.
//!
//! The library models the host-side state of the renderer exactly: scene
//! description and its invariants, the orbit-style camera controller in
//! fixed-point arithmetic, compute-device selection, and the sizing of the
//! dispatch grid and output buffer. A thin unverified shell owns the window,
//! the GPU queue and the floating-point trigonometry, and drives this library
//! once per frame.

pub mod camera;
pub mod device;
pub mod engine;
pub mod fixed;
pub mod scene;
pub mod vec3;


