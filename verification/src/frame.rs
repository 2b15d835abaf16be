//! What one frame asks of the GPU.

use vstd::prelude::*;
use crate::resources::BindGroupId;

verus! {

/// Side of the square tile that one workgroup of the compute program covers.
pub const TILE: u32 = 8;

/// Vertices of the one triangle that covers the whole surface.
pub const BLIT_VERTICES: u32 = 3;

/// Tiles needed to cover `extent` pixels: `extent` divided by the tile side,
/// rounded up.
pub open spec fn spec_tiles(extent: u32) -> int {
    (extent + TILE - 1) / (TILE as int)
}

/// Computes the number of tiles that cover `extent` pixels.
pub fn tiles(extent: u32) -> (n: u32)
    ensures
        n == spec_tiles(extent),
{
    if extent % TILE == 0 {
        extent / TILE
    } else {
        extent / TILE + 1
    }
}

/// The work of one frame, in the order in which it is recorded: a dispatch of
/// the compute program, then one draw of the render program.
#[derive(Clone, Copy, Debug, PartialEq, Eq, Structural)]
pub struct FramePlan {
    /// The binding set of the dispatch.
    pub compute: BindGroupId,
    pub groups_x: u32,
    pub groups_y: u32,
    pub groups_z: u32,
    /// The binding set of the draw.
    pub blit: BindGroupId,
    pub vertices: u32,
    pub instances: u32,
}

/// The tiles cover the extent, and none of them lies wholly beyond it.
pub proof fn lemma_tiles_cover(extent: u32)
    ensures
        spec_tiles(extent) * TILE >= extent,
        (spec_tiles(extent) - 1) * TILE < extent,
        extent >= 1 ==> spec_tiles(extent) >= 1,
{
}

} // verus!
