//! A verified 2D skeletal animation runtime.
//!
//! The library evaluates, per simulation frame, the pose of a hierarchical
//! skeleton driven by crossfading animation tracks, and produces a flattened,
//! triangulated, clipped mesh ready for rasterization.  All arithmetic is
//! integer fixed-point so that every step is deterministic and provable.

pub mod animation;
pub mod animation_state;
pub mod attachment;
pub mod event;
pub mod fixed;
pub mod clipping;
pub mod skeleton;
pub mod skeleton_controller;
pub mod skeleton_data;

pub use fixed::FP_ONE;
