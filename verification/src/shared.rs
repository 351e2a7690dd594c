//! The vertex of a renderable model.

use crate::vector::Point;
use vstd::prelude::*;

verus! {

/// One vertex of a model: where it lies, where it lies on the texture, and
/// the direction in which its surface faces. Every number is a binary32 bit
/// pattern.
#[derive(Clone, Copy, Debug)]
pub struct ModelVertex {
    pub pos: Point,
    pub uv: [u32; 2],
    pub normal: Point,
}

} // verus!
