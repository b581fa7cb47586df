use vstd::prelude::*;

verus! {

/// Which layer of tiles a line is drawn from.
#[derive(Eq, PartialEq, Clone, Copy, Structural)]
pub enum TileRenderType {
    Background,
    Window,
}

/// The layer, the line of the display and the tile map and tile data addresses
/// (offsets into video RAM) to draw a line of tiles with.
#[derive(Eq, PartialEq, Clone, Copy, Structural)]
pub struct TileRenderOptions {
    pub render_type: TileRenderType,
    pub map_addr: usize,
    pub tile_base_addr: usize,
    pub line: usize,
}

impl TileRenderOptions {
    pub fn new(render_type: TileRenderType, line: usize, map_addr: usize, tile_base_addr: usize) -> (o:
        TileRenderOptions)
        ensures
            o == (TileRenderOptions { render_type, map_addr, tile_base_addr, line }),
    {
        TileRenderOptions {
            render_type: render_type,
            line: line,
            map_addr: map_addr,
            tile_base_addr: tile_base_addr,
        }
    }
}

} // verus!
