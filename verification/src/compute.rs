//! Arithmetic of the compute pass: the uniform block handed to the shader,
//! how many workgroups cover the image, and how large each buffer is.
use vstd::prelude::*;

verus! {

/// Side length, in pixels, of the square tile that one compute workgroup shades.
pub const WORKGROUP_SIZE: u32 = 16;

/// The uniform block that the compute shader reads: the image size and the
/// iteration budget of the distance estimator.
#[derive(Clone, Copy, Debug, PartialEq, Eq, Structural)]
pub struct GPUVars {
    pub width: u32,
    pub height: u32,
    pub max_iterations: u32,
}

impl GPUVars {
    /// The uniform block for an image of `width` x `height` pixels. The sizes
    /// are narrowed to the shader's 32-bit words, keeping their low 32 bits.
    pub fn new(width: usize, height: usize, max_iterations: u32) -> (vars: GPUVars)
        ensures
            vars.width == width as u32,
            vars.height == height as u32,
            vars.max_iterations == max_iterations,
    {
        GPUVars { width: width as u32, height: height as u32, max_iterations }
    }
}

/// Number of whole workgroup tiles along an axis `extent` pixels long, the
/// extent being first narrowed to 32 bits as the shader sees it.
pub open spec fn spec_workgroups(extent: usize) -> u32 {
    ((extent as u32) / WORKGROUP_SIZE) as u32
}

/// The three workgroup counts of the dispatch that shades a `width` x `height`
/// image: whole tiles along each axis, and a single layer.
pub fn workgroup_counts(width: usize, height: usize) -> (counts: (u32, u32, u32))
    ensures
        counts == (spec_workgroups(width), spec_workgroups(height), 1u32),
{
    ((width as u32) / WORKGROUP_SIZE, (height as u32) / WORKGROUP_SIZE, 1)
}

/// Byte size of a buffer holding one `element_size`-byte record per pixel of a
/// `width` x `height` image.
pub fn buffer_size(element_size: usize, width: usize, height: usize) -> (size: u64)
    requires
        element_size * width <= usize::MAX,
        element_size * width * height <= usize::MAX,
    ensures
        size == element_size * width * height,
{
    let per_row: usize = element_size * width;
    let total: usize = per_row * height;
    total as u64
}

/// The dispatch covers the image with whole tiles only: the tiles along an
/// axis never reach past its (32-bit) extent, and fewer than one tile's worth
/// of pixels is left over.
pub proof fn law_workgroups_tile_extent(extent: usize)
    ensures
        WORKGROUP_SIZE * spec_workgroups(extent) <= extent as u32,
        (extent as u32) < WORKGROUP_SIZE * (spec_workgroups(extent) + 1),
{
}

} // verus!
