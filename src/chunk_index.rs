use std::collections::HashMap;

use vstd::prelude::*;

use crate::chunk::Chunk;
use crate::coords::{ChunkPos, LocalPos};
use crate::tile::Tile;

verus! {

broadcast use vstd::std_specs::hash::group_hash_axioms;

/// Offset that moves an `i32` into `[0, 2^32)`.
const AXIS_OFFSET: i64 = 0x8000_0000;

/// The map key of a chunk position: each axis shifted into `[0, 2^32)`, `x`
/// in the high half and `y` in the low half.
spec fn pos_key(p: ChunkPos) -> u64 {
    ((p.x + AXIS_OFFSET) * 0x1_0000_0000 + (p.y + AXIS_OFFSET)) as u64
}

proof fn lemma_pos_key_injective(p: ChunkPos, q: ChunkPos)
    ensures
        pos_key(p) == pos_key(q) ==> p == q,
{
}

fn key_of(p: ChunkPos) -> (r: u64)
    ensures
        r == pos_key(p),
{
    let hi = (p.x as i64 + AXIS_OFFSET) as u64;
    let lo = (p.y as i64 + AXIS_OFFSET) as u64;
    hi * 0x1_0000_0000 + lo
}

/// The chunks of the world, at most one per chunk position.
pub struct Chunks {
    chunks: HashMap<u64, Chunk>,
}

impl View for Chunks {
    type V = Map<ChunkPos, Seq<u8>>;

    /// Each present chunk position with its chunk's raster.
    closed spec fn view(&self) -> Map<ChunkPos, Seq<u8>> {
        Map::new(
            |p: ChunkPos| self.chunks@.contains_key(pos_key(p)),
            |p: ChunkPos| self.chunks@[pos_key(p)]@,
        )
    }
}

impl Chunks {
    /// Every stored chunk has a raster of the right size.
    pub closed spec fn wf(&self) -> bool {
        forall|k: u64| #[trigger] self.chunks@.contains_key(k) ==> self.chunks@[k].wf()
    }

    /// An index with no chunk.
    pub fn new() -> (r: Chunks)
        ensures
            r.wf(),
            r@ == Map::<ChunkPos, Seq<u8>>::empty(),
    {
        let r = Chunks { chunks: HashMap::new() };
        assert(r@ =~= Map::<ChunkPos, Seq<u8>>::empty());
        r
    }

    /// The chunk at `pos`, if there is one.
    pub fn get(&self, pos: ChunkPos) -> (r: Option<&Chunk>)
        requires
            self.wf(),
        ensures
            r is Some <==> self@.contains_key(pos),
            r is Some ==> r.unwrap().wf() && r.unwrap()@ == self@[pos],
    {
        let k = key_of(pos);
        self.chunks.get(&k)
    }

    /// Puts `chunk` at `pos`, in place of any chunk that was there.
    pub fn insert(&mut self, pos: ChunkPos, chunk: Chunk)
        requires
            old(self).wf(),
            chunk.wf(),
        ensures
            final(self).wf(),
            final(self)@ == old(self)@.insert(pos, chunk@),
    {
        let ghost before = self@;
        let ghost c = chunk@;
        let k = key_of(pos);
        self.chunks.insert(k, chunk);
        assert forall|q: ChunkPos| #![auto] pos_key(q) == pos_key(pos) implies q == pos by {
            lemma_pos_key_injective(q, pos);
        }
        assert(self@ =~= before.insert(pos, c));
    }

    /// Writes `tile` at `local` in the chunk at `pos`. Where no chunk is at
    /// `pos` nothing changes and the result is `false`.
    pub fn set_tile(&mut self, pos: ChunkPos, local: LocalPos, tile: Tile) -> (r: bool)
        requires
            old(self).wf(),
        ensures
            final(self).wf(),
            r == old(self)@.contains_key(pos),
            r ==> final(self)@ == old(self)@.insert(
                pos,
                Chunk::with_tile(old(self)@[pos], local.x as int, local.y as int, tile),
            ),
            !r ==> final(self)@ == old(self)@,
    {
        let k = key_of(pos);
        match self.chunks.remove(&k) {
            None => false,
            Some(mut chunk) => {
                chunk.set_tile_at(local.x, local.y, tile);
                self.insert(pos, chunk);
                true
            },
        }
    }
}

} // verus!
