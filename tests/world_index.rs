use tilemap_editor::chunk::CHUNK_SIZE;
use tilemap_editor::chunk_index::Chunks;
use tilemap_editor::coords::{world_to_chunk_and_local, ChunkPos, LocalPos};
use tilemap_editor::editor::{change_tile, chunk_bundle, latest_cursor_sample, pointer_action, AppState, EditorAction, PointerInput};
use tilemap_editor::chunk::Chunk;
use tilemap_editor::tile::Tile;

fn pos(x: i32, y: i32) -> ChunkPos {
    ChunkPos { x, y }
}

#[test]
fn split_positive_world_position() {
    assert_eq!(
        world_to_chunk_and_local(33, 64),
        (pos(1, 2), LocalPos { x: 1, y: 0 })
    );
    assert_eq!(world_to_chunk_and_local(0, 31), (pos(0, 0), LocalPos { x: 0, y: 31 }));
}

#[test]
fn split_negative_world_position() {
    assert_eq!(world_to_chunk_and_local(-1, -32), (pos(-1, -1), LocalPos { x: 31, y: 0 }));
    assert_eq!(world_to_chunk_and_local(-33, -64), (pos(-2, -2), LocalPos { x: 31, y: 0 }));
}

#[test]
fn split_extremes() {
    assert_eq!(
        world_to_chunk_and_local(i32::MIN, i32::MAX),
        (pos(-67108864, 67108863), LocalPos { x: 0, y: 31 })
    );
}

#[test]
fn split_stays_in_chunk_and_reassembles() {
    for w in -200i32..200 {
        let (c, l) = world_to_chunk_and_local(w, -w);
        assert!(l.x < CHUNK_SIZE && l.y < CHUNK_SIZE);
        assert_eq!(c.origin().0 + l.x as i64, w as i64);
        assert_eq!(c.origin().1 + l.y as i64, -w as i64);
    }
}

#[test]
fn chunk_origin_is_scaled_position() {
    assert_eq!(pos(-2, 3).origin(), (-64, 96));
    assert_eq!(ChunkPos::from((7, -1)).origin(), (224, -32));
}

#[test]
fn new_index_is_empty() {
    let chunks = Chunks::new();
    assert!(chunks.get(pos(0, 0)).is_none());
}

#[test]
fn bundle_adds_flat_chunk() {
    let mut chunks = Chunks::new();
    assert_eq!(chunk_bundle(pos(-1, 2), &mut chunks), (-32, 64));
    let c = chunks.get(pos(-1, 2)).unwrap();
    assert_eq!(c.get_tile_at(10, 20), Some(Tile::Flat));
    assert!(chunks.get(pos(2, -1)).is_none());
}

#[test]
fn insert_replaces_chunk() {
    let mut chunks = Chunks::new();
    let mut c = Chunk::empty();
    c.set_tile_at(1, 1, Tile::Duplicate);
    chunks.insert(pos(4, 4), c);
    assert_eq!(chunks.get(pos(4, 4)).unwrap().get_tile_at(1, 1), Some(Tile::Duplicate));
    chunks.insert(pos(4, 4), Chunk::empty());
    assert_eq!(chunks.get(pos(4, 4)).unwrap().get_tile_at(1, 1), Some(Tile::Flat));
}

#[test]
fn painting_without_chunk_changes_nothing() {
    let mut chunks = Chunks::new();
    chunk_bundle(pos(0, 0), &mut chunks);
    let before = chunks.get(pos(0, 0)).unwrap().as_bytes().to_vec();
    assert!(!change_tile(&mut chunks, 40, 5, Tile::Block));
    assert!(!change_tile(&mut chunks, -1, 5, Tile::Block));
    assert!(chunks.get(pos(1, 0)).is_none());
    assert!(chunks.get(pos(-1, 0)).is_none());
    assert_eq!(chunks.get(pos(0, 0)).unwrap().as_bytes(), &before[..]);
}

#[test]
fn painting_writes_into_holding_chunk() {
    let mut chunks = Chunks::new();
    chunk_bundle(pos(-1, -1), &mut chunks);
    assert!(change_tile(&mut chunks, -1, -2, Tile::Block));
    let c = chunks.get(pos(-1, -1)).unwrap();
    assert_eq!(c.get_tile_at(31, 30), Some(Tile::Block));
    assert_eq!(c.get_tile_at(31, 31), Some(Tile::Flat));
}

#[test]
fn set_tile_through_index() {
    let mut chunks = Chunks::new();
    assert!(!chunks.set_tile(pos(0, 0), LocalPos { x: 1, y: 1 }, Tile::Right));
    chunk_bundle(pos(0, 0), &mut chunks);
    assert!(chunks.set_tile(pos(0, 0), LocalPos { x: 1, y: 1 }, Tile::Right));
    assert_eq!(chunks.get(pos(0, 0)).unwrap().get_tile_at(1, 1), Some(Tile::Right));
}

fn input(just: bool, held: bool, moved: bool, modifier: bool) -> PointerInput {
    PointerInput {
        primary_just_pressed: just,
        primary_held: held,
        cursor_moved: moved,
        pan_modifier_held: modifier,
    }
}

#[test]
fn press_paints() {
    assert_eq!(pointer_action(AppState::Editing, input(true, true, false, false)), EditorAction::Paint);
}

#[test]
fn drag_paints_only_when_moved() {
    assert_eq!(pointer_action(AppState::Editing, input(false, true, true, false)), EditorAction::Paint);
    assert_eq!(pointer_action(AppState::Editing, input(false, true, false, false)), EditorAction::Idle);
}

#[test]
fn modifier_pans_instead_of_painting() {
    assert_eq!(pointer_action(AppState::Editing, input(true, true, true, true)), EditorAction::Pan);
    assert_eq!(pointer_action(AppState::Editing, input(false, false, true, true)), EditorAction::Idle);
}

#[test]
fn main_menu_does_nothing() {
    assert_eq!(pointer_action(AppState::MainMenu, input(true, true, true, false)), EditorAction::Idle);
    assert_eq!(pointer_action(AppState::MainMenu, input(false, true, true, true)), EditorAction::Idle);
}

#[test]
fn cursor_sample_keeps_last_report() {
    assert_eq!(latest_cursor_sample((1, 2), &[]), (1, 2));
    assert_eq!(latest_cursor_sample((1, 2), &[(3, 4), (5, 6)]), (5, 6));
}
