use vstd::prelude::*;

use crate::chunk::CHUNK_SIZE;

verus! {

/// A chunk's position in chunk space: chunk `(x, y)` covers the world tiles
/// from `(x * CHUNK_SIZE, y * CHUNK_SIZE)` up to, not including, the next chunk's.
#[derive(Clone, Copy, Debug, PartialEq, Eq, Structural, Hash)]
pub struct ChunkPos {
    pub x: i32,
    pub y: i32,
}

/// A tile's position inside its chunk, each axis in `[0, CHUNK_SIZE)`.
#[derive(Clone, Copy, Debug, PartialEq, Eq, Structural, Hash)]
pub struct LocalPos {
    pub x: u32,
    pub y: u32,
}

impl From<(i32, i32)> for ChunkPos {
    fn from(value: (i32, i32)) -> (r: ChunkPos) {
        ChunkPos { x: value.0, y: value.1 }
    }
}

impl vstd::std_specs::convert::FromSpecImpl<(i32, i32)> for ChunkPos {
    open spec fn obeys_from_spec() -> bool {
        true
    }

    open spec fn from_spec(v: (i32, i32)) -> ChunkPos {
        ChunkPos { x: v.0, y: v.1 }
    }
}

/// The chunk that holds world tile coordinate `w` on one axis (floor division).
pub open spec fn chunk_of(w: int) -> int {
    w / (CHUNK_SIZE as int)
}

/// The offset of world tile coordinate `w` inside its chunk on one axis.
pub open spec fn local_of(w: int) -> int {
    w % (CHUNK_SIZE as int)
}

impl ChunkPos {
    /// World tile coordinates of this chunk's lower-left tile.
    pub fn origin(&self) -> (r: (i64, i64))
        ensures
            r.0 == self.x * CHUNK_SIZE,
            r.1 == self.y * CHUNK_SIZE,
    {
        (self.x as i64 * CHUNK_SIZE as i64, self.y as i64 * CHUNK_SIZE as i64)
    }
}

fn split_axis(w: i32) -> (r: (i32, u32))
    ensures
        r.0 == chunk_of(w as int),
        r.1 == local_of(w as int),
{
    let size = CHUNK_SIZE as i32;
    let chunk = w.checked_div_euclid(size).unwrap();
    let local = w.checked_rem_euclid(size).unwrap();
    (chunk, local as u32)
}

/// Splits the world tile position `(wx, wy)` into the chunk that holds it and
/// its place inside that chunk, by Euclidean division on each axis.
pub fn world_to_chunk_and_local(wx: i32, wy: i32) -> (r: (ChunkPos, LocalPos))
    ensures
        r.0.x == chunk_of(wx as int),
        r.0.y == chunk_of(wy as int),
        r.1.x == local_of(wx as int),
        r.1.y == local_of(wy as int),
{
    let (cx, lx) = split_axis(wx);
    let (cy, ly) = split_axis(wy);
    (ChunkPos { x: cx, y: cy }, LocalPos { x: lx, y: ly })
}

/// Local coordinates are inside the chunk on both axes, negative world
/// positions included.
pub proof fn lemma_local_in_chunk(wx: int, wy: int)
    ensures
        0 <= local_of(wx) < CHUNK_SIZE,
        0 <= local_of(wy) < CHUNK_SIZE,
{
}

/// A chunk's origin plus the local offset gives the world position back.
pub proof fn lemma_split_reassembles(wx: int, wy: int)
    ensures
        chunk_of(wx) * CHUNK_SIZE + local_of(wx) == wx,
        chunk_of(wy) * CHUNK_SIZE + local_of(wy) == wy,
{
}

/// Going one chunk to the left or below never raises the chunk coordinate:
/// chunk coordinates grow with the world position, across the origin too.
pub proof fn lemma_chunk_monotonic(a: int, b: int)
    requires
        a <= b,
    ensures
        chunk_of(a) <= chunk_of(b),
{
    vstd::arithmetic::div_mod::lemma_div_is_ordered(a, b, CHUNK_SIZE as int);
}

} // verus!
