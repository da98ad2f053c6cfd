//! A minimal real-time 2D game core: a direction-vector resolver, entity
//! movement, an input-event router, and camera-relative render geometry.
//!
//! The windowing, texture and event-pump plumbing lives outside this crate;
//! everything here is pure logic over plain values.

pub mod direction;
pub mod entity;
pub mod geom;
pub mod input;
pub mod render;
