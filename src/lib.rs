//! Chunked tile storage for a 2D tile editor: the tile codec, the per-chunk
//! raster, the index of chunks by chunk coordinate, the mapping from world
//! tile positions to chunk and local coordinates, and the editor's decision
//! of what a frame of pointer input does.
pub mod chunk;
pub mod chunk_index;
pub mod coords;
pub mod editor;
pub mod tile;
