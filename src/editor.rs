use vstd::prelude::*;

use crate::chunk::{Chunk, CHUNK_CELLS, CHUNK_SIZE};
use crate::chunk_index::Chunks;
use crate::coords::{chunk_of, local_of, world_to_chunk_and_local, ChunkPos};
use crate::tile::{tile_code, Tile};

verus! {

/// Which screen the application shows.
#[derive(Clone, Copy, Debug, PartialEq, Eq, Structural, Hash)]
pub enum AppState {
    MainMenu,
    Editing,
}

/// What one frame of input says about the pointer and its buttons.
#[derive(Clone, Copy, Debug, PartialEq, Eq, Structural)]
pub struct PointerInput {
    /// The primary button went down this frame.
    pub primary_just_pressed: bool,
    /// The primary button is down.
    pub primary_held: bool,
    /// The cursor position was updated this frame.
    pub cursor_moved: bool,
    /// The modifier that turns a drag into a pan is down.
    pub pan_modifier_held: bool,
}

/// What the editor does with one frame of pointer input.
#[derive(Clone, Copy, Debug, PartialEq, Eq, Structural)]
pub enum EditorAction {
    /// Write a tile under the cursor.
    Paint,
    /// Drag the camera by the cursor's motion.
    Pan,
    /// Nothing.
    Idle,
}

/// Whether a paint fires: a fresh press, or a drag with the button held and
/// the cursor moved, and in either case without the pan modifier.
pub open spec fn paint_fires(i: PointerInput) -> bool {
    (i.primary_just_pressed || (i.primary_held && i.cursor_moved)) && !i.pan_modifier_held
}

/// Whether the camera pans: the button and the pan modifier are both down.
pub open spec fn pan_fires(i: PointerInput) -> bool {
    i.primary_held && i.pan_modifier_held
}

/// Decides what a frame of pointer input does. Only the editing screen
/// paints or pans.
pub fn pointer_action(state: AppState, input: PointerInput) -> (r: EditorAction)
    ensures
        r == (if state != AppState::Editing {
            EditorAction::Idle
        } else if paint_fires(input) {
            EditorAction::Paint
        } else if pan_fires(input) {
            EditorAction::Pan
        } else {
            EditorAction::Idle
        }),
{
    match state {
        AppState::MainMenu => EditorAction::Idle,
        AppState::Editing => {
            let drag = input.primary_held && input.cursor_moved;
            if (input.primary_just_pressed || drag) && !input.pan_modifier_held {
                EditorAction::Paint
            } else if input.primary_held && input.pan_modifier_held {
                EditorAction::Pan
            } else {
                EditorAction::Idle
            }
        },
    }
}

/// The cursor position for this frame: the last position reported this frame,
/// or `current` unchanged where none was reported.
pub fn latest_cursor_sample<T: Copy>(current: T, reported: &[T]) -> (r: T)
    ensures
        r == (if reported@.len() == 0 {
            current
        } else {
            reported@.last()
        }),
{
    let n = reported.len();
    if n == 0 {
        current
    } else {
        reported[n - 1]
    }
}

/// Paints `tile` at world tile position `(wx, wy)`. Where no chunk holds that
/// position the index is left as it was and the result is `false`; no chunk
/// is created by painting.
pub fn change_tile(chunks: &mut Chunks, wx: i32, wy: i32, tile: Tile) -> (r: bool)
    requires
        old(chunks).wf(),
    ensures
        final(chunks).wf(),
        ({
            let pos = ChunkPos { x: chunk_of(wx as int) as i32, y: chunk_of(wy as int) as i32 };
            &&& r == old(chunks)@.contains_key(pos)
            &&& r ==> final(chunks)@ == old(chunks)@.insert(
                pos,
                Chunk::with_tile(old(chunks)@[pos], local_of(wx as int), local_of(wy as int), tile),
            )
            &&& !r ==> final(chunks)@ == old(chunks)@
        }),
{
    let (pos, local) = world_to_chunk_and_local(wx, wy);
    chunks.set_tile(pos, local, tile)
}

/// Adds a chunk at `pos` with every cell `Tile::Flat`, in place of any chunk
/// that was there, and returns the world tile position of its lower-left
/// corner, where its quad is drawn from.
pub fn chunk_bundle(pos: ChunkPos, chunks: &mut Chunks) -> (r: (i64, i64))
    requires
        old(chunks).wf(),
    ensures
        final(chunks).wf(),
        final(chunks)@ == old(chunks)@.insert(pos, Seq::new(CHUNK_CELLS as nat, |i: int| tile_code(Tile::Flat))),
        r.0 == pos.x * CHUNK_SIZE,
        r.1 == pos.y * CHUNK_SIZE,
{
    let chunk = Chunk::empty();
    assert(chunk@ =~= Seq::new(CHUNK_CELLS as nat, |i: int| tile_code(Tile::Flat)));
    chunks.insert(pos, chunk);
    pos.origin()
}

} // verus!
