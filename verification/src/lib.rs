//! Convex narrow-phase collision detection over point clouds: a deduplicated
//! collision mesh, a world-space cache that is rebuilt when its sources change,
//! and a GJK intersection test, together with the small value types of the
//! engine around them.
//!
//! Every coordinate is held as the bit pattern of an IEEE-754 binary32 number.
//! The arithmetic on them is done by `glam`; comparisons, negation and the
//! control flow are done here on the bit patterns.

pub mod binary32;
pub mod builder;
pub mod collision_mesh;
pub mod common;
pub mod distinct;
pub mod events;
pub mod gjk;
pub mod input;
pub mod runner;
pub mod shared;
pub mod spatial;
pub mod support;
pub mod vector;
pub mod window_handles;
