use vstd::prelude::*;

use crate::tile::{tile_code, tile_of_code, Tile};

verus! {

/// Side length of a chunk, in tiles.
pub const CHUNK_SIZE: u32 = 32;

/// Number of cells in a chunk's raster.
pub const CHUNK_CELLS: usize = 1024;

/// Raster offset of the tile at local `(x, y)`.
///
/// The raster is row-major with its first row at the top of the chunk, while
/// local `y` grows upwards as world `y` does: local row `y` is raster row
/// `CHUNK_SIZE - 1 - y`. Reads and writes both go through this offset.
pub open spec fn cell_index(x: int, y: int) -> int {
    (CHUNK_SIZE - 1 - y) * CHUNK_SIZE + x
}

/// Whether `(x, y)` is a local coordinate inside a chunk.
pub open spec fn in_chunk(x: int, y: int) -> bool {
    0 <= x < CHUNK_SIZE && 0 <= y < CHUNK_SIZE
}

/// The tile data of one chunk: one byte per cell, each the code of a tile.
pub struct Chunk {
    data: Vec<u8>,
}

impl View for Chunk {
    type V = Seq<u8>;

    closed spec fn view(&self) -> Seq<u8> {
        self.data@
    }
}

impl Chunk {
    /// A raster of the right size.
    pub open spec fn wf(&self) -> bool {
        self@.len() == CHUNK_CELLS
    }

    /// The tile at local `(x, y)` as the raster `r` holds it.
    pub open spec fn tile_in(r: Seq<u8>, x: int, y: int) -> Option<Tile> {
        if in_chunk(x, y) {
            tile_of_code(r[cell_index(x, y)])
        } else {
            None
        }
    }

    /// The raster `r` with `t` written at local `(x, y)`; unchanged outside the chunk.
    pub open spec fn with_tile(r: Seq<u8>, x: int, y: int, t: Tile) -> Seq<u8> {
        if in_chunk(x, y) {
            r.update(cell_index(x, y), tile_code(t))
        } else {
            r
        }
    }

    /// A new chunk whose every cell holds `Tile::Flat`.
    pub fn empty() -> (r: Chunk)
        ensures
            r.wf(),
            forall|i: int| 0 <= i < CHUNK_CELLS ==> r@[i] == tile_code(Tile::Flat),
    {
        let code = Tile::Flat.encode();
        let mut data: Vec<u8> = Vec::with_capacity(CHUNK_CELLS);
        let mut i: usize = 0;
        while i < CHUNK_CELLS
            invariant
                i <= CHUNK_CELLS,
                data@.len() == i,
                code == tile_code(Tile::Flat),
                forall|j: int| 0 <= j < i ==> data@[j] == code,
            decreases CHUNK_CELLS - i,
        {
            data.push(code);
            i = i + 1;
        }
        Chunk { data }
    }

    /// The tile at local `(x, y)`; `None` outside the chunk or where the byte
    /// is no tile's code.
    pub fn get_tile_at(&self, x: u32, y: u32) -> (r: Option<Tile>)
        requires
            self.wf(),
        ensures
            r == Chunk::tile_in(self@, x as int, y as int),
    {
        if x >= CHUNK_SIZE || y >= CHUNK_SIZE {
            return None;
        }
        let i = ((CHUNK_SIZE - 1 - y) * CHUNK_SIZE + x) as usize;
        match Tile::decode(self.data[i]) {
            Ok(t) => Some(t),
            Err(_) => None,
        }
    }

    /// Writes `tile` at local `(x, y)`; a coordinate outside the chunk changes nothing.
    pub fn set_tile_at(&mut self, x: u32, y: u32, tile: Tile)
        requires
            old(self).wf(),
        ensures
            final(self).wf(),
            final(self)@ == Chunk::with_tile(old(self)@, x as int, y as int, tile),
    {
        if x >= CHUNK_SIZE || y >= CHUNK_SIZE {
            return;
        }
        let i = ((CHUNK_SIZE - 1 - y) * CHUNK_SIZE + x) as usize;
        self.data.set(i, tile.encode());
    }

    /// The raster, row-major from the top row down, one byte per cell.
    pub fn as_bytes(&self) -> (r: &[u8])
        ensures
            r@ == self@,
    {
        self.data.as_slice()
    }
}

/// Writing a tile inside a chunk and reading the same cell gives that tile,
/// and every other cell reads as before.
pub proof fn lemma_set_then_get(c: Chunk, x: int, y: int, t: Tile, x2: int, y2: int)
    requires
        c.wf(),
        in_chunk(x, y),
    ensures
        Chunk::with_tile(c@, x, y, t).len() == CHUNK_CELLS,
        Chunk::tile_in(Chunk::with_tile(c@, x, y, t), x, y) == Some(t),
        (x2, y2) != (x, y) ==> Chunk::tile_in(Chunk::with_tile(c@, x, y, t), x2, y2)
            == Chunk::tile_in(c@, x2, y2),
{
    crate::tile::lemma_decode_encode(t);
    if (x2, y2) != (x, y) && in_chunk(x2, y2) {
        assert(cell_index(x2, y2) != cell_index(x, y));
    }
}

} // verus!
