//! The per-frame work: the compute dispatch grid, the ordered pass list of
//! one frame, and the layout of the camera parameter block.

use vstd::prelude::*;

verus! {

/// Size in threads of one side of the square tile the tracer is dispatched
/// in.
pub const TILE: u32 = 8;

/// Number of 32-bit words in the camera parameter block: two 4x4 matrices
/// of 16 words each, then 4 scalar words.
pub const CAMERA_BLOCK_WORDS: usize = 36;

/// Number of workgroups needed to cover `extent` pixels with tiles of
/// `TILE` pixels: the ceiling of `extent / TILE`.
pub open spec fn tile_count(extent: int) -> int {
    (extent + (TILE as int - 1)) / (TILE as int)
}

/// Workgroup count along one axis for an image extent of `extent` pixels:
/// the least count whose tiles cover the extent.  Over-dispatch past the
/// image edge is the kernel's to ignore; the extent is not rounded here.
pub fn axis_workgroups(extent: u32) -> (n: u32)
    ensures
        n == tile_count(extent as int),
        extent > 0 ==> 8 * n >= extent && 8 * (n - 1) < extent,
        extent == 0 ==> n == 0,
{
    let wide: u64 = (extent as u64 + 7) / 8;
    wide as u32
}

/// One recorded GPU pass of a frame.
#[derive(Clone, Copy, Debug, PartialEq, Eq, Structural)]
pub enum Pass {
    /// The tracer dispatch over the frame image, tiled `TILE` by `TILE`.
    Compute { workgroups_x: u32, workgroups_y: u32, workgroups_z: u32 },
    /// The full-surface triangle that samples the frame image into the
    /// presentation surface, after clearing it to black.
    Display { clear_black: bool, vertex_count: u32 },
}

/// The passes of one frame for an image of the given dimensions, in
/// submission order: the compute dispatch sized to the image, then the
/// display draw of a single triangle over a black-cleared surface.  Both are
/// submitted as one sequence on one queue, so the display pass observes the
/// compute pass's completed writes.
pub fn frame_passes(width: u32, height: u32) -> (passes: Vec<Pass>)
    ensures
        passes@.len() == 2,
        passes@[0] == (Pass::Compute {
            workgroups_x: axis_workgroup_count(width),
            workgroups_y: axis_workgroup_count(height),
            workgroups_z: 1u32,
        }),
        passes@[1] == (Pass::Display { clear_black: true, vertex_count: 3u32 }),
{
    let mut passes: Vec<Pass> = Vec::new();
    passes.push(Pass::Compute {
        workgroups_x: axis_workgroups(width),
        workgroups_y: axis_workgroups(height),
        workgroups_z: 1,
    });
    passes.push(Pass::Display { clear_black: true, vertex_count: 3 });
    passes
}

/// The workgroup count of `axis_workgroups`, as a `u32` value: the tile
/// count of the extent, which fits well below the type's range.
pub open spec fn axis_workgroup_count(extent: u32) -> u32 {
    tile_count(extent as int) as u32
}

/// The camera parameter block as 32-bit words, in upload order: the 16
/// words of the inverse view matrix, the 16 words of the inverse projection
/// matrix, then width, height, elapsed time and a zero reserved word.  At 4
/// bytes per word this is the 144-byte block the tracer consumes.
pub fn camera_block_words(
    view_inv: &Vec<u32>,
    proj_inv: &Vec<u32>,
    width_word: u32,
    height_word: u32,
    time_word: u32,
) -> (words: Vec<u32>)
    requires
        view_inv@.len() == 16,
        proj_inv@.len() == 16,
    ensures
        words@.len() == CAMERA_BLOCK_WORDS,
        words@.subrange(0, 16) =~= view_inv@,
        words@.subrange(16, 32) =~= proj_inv@,
        words@[32] == width_word,
        words@[33] == height_word,
        words@[34] == time_word,
        words@[35] == 0u32,
{
    let mut words: Vec<u32> = Vec::new();
    let mut i: usize = 0;
    while i < 16
        invariant
            view_inv@.len() == 16,
            i <= 16,
            words@.len() == i,
            forall|j: int| 0 <= j < i ==> words@[j] == view_inv@[j],
        decreases 16 - i,
    {
        words.push(view_inv[i]);
        i += 1;
    }
    let mut k: usize = 0;
    while k < 16
        invariant
            view_inv@.len() == 16,
            proj_inv@.len() == 16,
            k <= 16,
            words@.len() == 16 + k,
            forall|j: int| 0 <= j < 16 ==> words@[j] == view_inv@[j],
            forall|j: int| 16 <= j < 16 + k ==> words@[j] == proj_inv@[j - 16],
        decreases 16 - k,
    {
        words.push(proj_inv[k]);
        k += 1;
    }
    words.push(width_word);
    words.push(height_word);
    words.push(time_word);
    words.push(0);
    words
}

} // verus!
