//! The level-editing tool's map model and grid logic: the tile map being
//! edited, grid alignment of the cursor, camera dragging, the grid mesh, and
//! placing and erasing tiles.
//!
//! The editor views the world through a camera over a viewport that covers
//! the left four fifths of the window; the remaining fifth holds the tools.
//! Tiles are keyed by their whole-unit grid coordinate.

use std::collections::HashMap;

use vstd::prelude::*;

use crate::geom::Vec2;
use crate::level::GRID_LIMIT;
use crate::level::LevelAsset;
use crate::level::TileDescriptor;
use crate::level::TileType;
use crate::level::COORD_LIMIT;
use crate::text::dec_digits;
use crate::text::usize_to_string;

verus! {

broadcast use vstd::std_specs::hash::group_hash_axioms;

/// Asks the editor to rebuild the grid mesh.
#[derive(Clone, Copy, PartialEq, Eq, Structural, Debug)]
pub struct GridCreateEvent;

/// Asks the editor to rebuild the placed tiles from the level data.
#[derive(Clone, Copy, PartialEq, Eq, Structural, Debug)]
pub struct ParseTilesEvent;

/// Which rebuild a grid-extent change asks for.
#[derive(Clone, Copy, PartialEq, Eq, Structural, Debug)]
pub enum EditorRefresh {
    Grid(GridCreateEvent),
    Tiles(ParseTilesEvent),
}

/// What the editor cursor currently does: dragging the camera, or placing
/// the selected tile.
#[derive(Clone, Copy, PartialEq, Eq, Structural, Debug)]
pub enum EditorState {
    Tracking,
    Selected,
}

impl Default for EditorState {
    fn default() -> (r: Self)
        ensures
            r is Tracking,
    {
        EditorState::Tracking
    }
}

/// What is stored for one placed tile.
#[derive(Clone, Copy, PartialEq, Eq, Structural, Debug)]
pub struct TileData {
    pub typ: TileType,
    /// Rotation in millidegrees.
    pub rotation: i64,
}

/// The whole-unit coordinate of a milliunit coordinate, truncated toward
/// zero and saturated into the unsigned 32-bit range, as the tile keys of
/// the editor use it.
pub open spec fn unit_coord(c: i64) -> u64 {
    if c < 0 {
        0
    } else if c / 1000 > 0xFFFFFFFF {
        0xFFFFFFFF
    } else {
        (c / 1000) as u64
    }
}

/// The map key of a tile at the given position: its whole-unit x and y
/// coordinates packed into one integer.
pub open spec fn tile_key_spec(pos: Vec2) -> u64 {
    (unit_coord(pos.x) * 0x100000000 + unit_coord(pos.y)) as u64
}

/// Compute the map key of a tile position.
pub fn tile_key(pos: Vec2) -> (k: u64)
    ensures
        k == tile_key_spec(pos),
{
    let kx: u64 = unit_coord_exec(pos.x);
    let ky: u64 = unit_coord_exec(pos.y);
    kx * 0x100000000 + ky
}

fn unit_coord_exec(c: i64) -> (r: u64)
    ensures
        r == unit_coord(c),
{
    if c < 0 {
        0
    } else {
        let q = c / 1000;
        if q > 0xFFFFFFFF {
            0xFFFFFFFF
        } else {
            q as u64
        }
    }
}

/// The level file the editor works on, named by its id.
pub struct LevelDynamicResource;

impl LevelDynamicResource {
    /// The asset path of the editor's level file with the given id.
    pub fn asset_path(id: usize) -> (r: String)
        ensures
            r@ == "data/level"@ + dec_digits(id as nat) + ".sbc"@,
    {
        let mut s = String::from_str("data/level");
        let digits = usize_to_string(id);
        s.append(digits.as_str());
        s.append(".sbc");
        s
    }

    /// The same file's path on disk, under the asset root.
    pub fn data_path(id: usize) -> (r: String)
        ensures
            r@ == "assets/"@ + "data/level"@ + dec_digits(id as nat) + ".sbc"@,
    {
        let mut s = String::from_str("assets/");
        let rest = Self::asset_path(id);
        s.append(rest.as_str());
        proof {
            assert(s@ =~= "assets/"@ + "data/level"@ + dec_digits(id as nat) + ".sbc"@);
        }
        s
    }
}

/// The map being edited: its id, its grid extent, the placed tiles (keyed
/// by whole-unit grid coordinate, with the key list kept beside the table
/// to give saving a deterministic order), the entry point and the
/// next-level pointer.
pub struct MapData {
    pub id: usize,
    pub rows: usize,
    pub cols: usize,
    pub data: HashMap<u64, TileData>,
    pub keys: Vec<u64>,
    pub entry: Vec2,
    pub next: Option<usize>,
}

impl MapData {
    /// The extent stays within the grid bound and the key list mirrors the
    /// key set of the table, without duplicates.
    pub open spec fn wf(self) -> bool {
        &&& self.rows <= GRID_LIMIT
        &&& self.cols <= GRID_LIMIT
        &&& self.keys@.no_duplicates()
        &&& forall|k: u64| self.data@.contains_key(k) <==> self.keys@.contains(k)
    }

    /// An empty map: no extent, no tiles, no next level.
    pub fn new() -> (r: MapData)
        ensures
            r.id == 0,
            r.rows == 0,
            r.cols == 0,
            r.data@ == Map::<u64, TileData>::empty(),
            r.keys@.len() == 0,
            r.entry == (Vec2 { x: 0, y: 0 }),
            r.next is None,
            r.wf(),
    {
        let r = MapData {
            id: 0,
            rows: 0,
            cols: 0,
            data: HashMap::new(),
            keys: Vec::new(),
            entry: Vec2 { x: 0, y: 0 },
            next: None,
        };
        proof {
            assert(forall|k: u64| !r.data@.contains_key(k));
            assert(forall|k: u64| !r.keys@.contains(k));
        }
        r
    }

    /// Change the column count. Growing the grid only needs the grid mesh
    /// redrawn; shrinking it asks for a reparse so that tiles beyond the new
    /// edge are dropped. An unchanged count asks for nothing.
    pub fn set_cols(&mut self, cols: usize) -> (r: Option<EditorRefresh>)
        requires
            cols <= GRID_LIMIT,
    ensures
            *final(self) == (MapData { cols, ..*old(self) }),
            r == (if cols == old(self).cols {
                None::<EditorRefresh>
            } else if old(self).cols < cols {
                Some(EditorRefresh::Grid(GridCreateEvent))
            } else {
                Some(EditorRefresh::Tiles(ParseTilesEvent))
            }),
    {
        if cols == self.cols {
            return None;
        }
        let grew = self.cols < cols;
        self.cols = cols;
        if grew {
            Some(EditorRefresh::Grid(GridCreateEvent))
        } else {
            Some(EditorRefresh::Tiles(ParseTilesEvent))
        }
    }

    /// Change the row count, with the same rebuild rule as [`Self::set_cols`].
    pub fn set_rows(&mut self, rows: usize) -> (r: Option<EditorRefresh>)
        requires
            rows <= GRID_LIMIT,
    ensures
            *final(self) == (MapData { rows, ..*old(self) }),
            r == (if rows == old(self).rows {
                None::<EditorRefresh>
            } else if old(self).rows < rows {
                Some(EditorRefresh::Grid(GridCreateEvent))
            } else {
                Some(EditorRefresh::Tiles(ParseTilesEvent))
            }),
    {
        if rows == self.rows {
            return None;
        }
        let grew = self.rows < rows;
        self.rows = rows;
        if grew {
            Some(EditorRefresh::Grid(GridCreateEvent))
        } else {
            Some(EditorRefresh::Tiles(ParseTilesEvent))
        }
    }

    /// Set the next-level pointer, as entered in its text field (`None` for
    /// text that is not a number).
    pub fn set_next(&mut self, next: Option<usize>)
        ensures
            *final(self) == (MapData { next, ..*old(self) }),
    {
        self.next = next;
    }

    /// Collect the map back into a level description for saving: one
    /// descriptor per placed tile, in key-list order, the position taken
    /// from the whole-unit key.
    pub fn to_level_asset(&self) -> (r: LevelAsset)
        requires
            self.wf(),
        ensures
            r.rows == self.rows,
            r.cols == self.cols,
            r.entry == self.entry,
            r.next == self.next,
            r.data@.len() == self.keys@.len(),
            forall|i: int|
                0 <= i < r.data@.len() ==> #[trigger] r.data@[i] == descriptor_of(
                    self.keys@[i],
                    self.data@[self.keys@[i]],
                ),
    {
        let mut data: Vec<TileDescriptor> = Vec::new();
        let mut idx: usize = 0;
        while idx < self.keys.len()
            invariant
                self.wf(),
                idx <= self.keys@.len(),
                data@.len() == idx,
                forall|i: int|
                    0 <= i < idx ==> #[trigger] data@[i] == descriptor_of(
                        self.keys@[i],
                        self.data@[self.keys@[i]],
                    ),
            decreases self.keys@.len() - idx,
        {
            let k = self.keys[idx];
            proof {
                assert(self.keys@.contains(k));
                assert(self.data@.contains_key(k));
            }
            let td = match self.data.get(&k) {
                Some(td) => *td,
                None => {
                    proof {
                        assert(false);
                    }
                    TileData { typ: TileType::Wall, rotation: 0 }
                },
            };
            let kx = k / 0x100000000;
            let ky = k % 0x100000000;
            data.push(
                TileDescriptor {
                    tile_pos: Vec2 { x: (kx as i64) * 1000, y: (ky as i64) * 1000 },
                    tile_typ: td.typ,
                    rotation: td.rotation,
                },
            );
            idx = idx + 1;
        }
        LevelAsset {
            rows: self.rows,
            cols: self.cols,
            data,
            entry: self.entry,
            next: self.next,
        }
    }
}

/// The level descriptor saved for one stored tile: the position is the
/// whole-unit key scaled back to milliunits.
pub open spec fn descriptor_of(k: u64, td: TileData) -> TileDescriptor {
    TileDescriptor {
        tile_pos: Vec2 {
            x: ((k / 0x100000000) * 1000) as i64,
            y: ((k % 0x100000000) * 1000) as i64,
        },
        tile_typ: td.typ,
        rotation: td.rotation,
    }
}

/// Bound on window sizes, in milli-pixels.
pub const WINDOW_LIMIT: i64 = 100000000;

/// Bound on one drag step, in milli-pixels.
pub const DRAG_LIMIT: i64 = 1000000;

/// A coordinate snapped to the centre of its tile: truncated to whole
/// units, aligned down to the tile grid, and offset by half a tile.
/// Coordinates left of or below the grid snap to the first tile centre.
pub open spec fn align_coord(c: i64) -> i64 {
    (((unit_coord(c) / 32) * 32) * 1000 + 16000) as i64
}

/// A position snapped to the centre of its tile.
pub open spec fn align_spec(v: Vec2) -> Vec2 {
    Vec2 { x: align_coord(v.x), y: align_coord(v.y) }
}

/// The far corner of the tilemap viewport: the left four fifths of the
/// window, full height.
pub open spec fn viewport_max(window: Vec2) -> Vec2 {
    Vec2 { x: (window.x * 4 / 5) as i64, y: window.y }
}

/// Whether a screen position lies within the tilemap viewport.
pub open spec fn in_viewport(window: Vec2, p: Vec2) -> bool {
    0 <= p.x <= viewport_max(window).x && 0 <= p.y <= viewport_max(window).y
}

/// A screen distance scaled by the zoom percentage, truncating toward zero
/// as the original fractional scaling did.
pub open spec fn scale_by_pct(d: int, scale_pct: int) -> int {
    if d >= 0 {
        (d * scale_pct) / 100
    } else {
        -(((-d) * scale_pct) / 100)
    }
}

/// Where the cursor points in the world: the camera position plus the
/// cursor's offset from the viewport centre, scaled by the zoom (the screen
/// y axis points down, so the y offset is subtracted), snapped to a tile
/// centre. `None` when there is no cursor or it is outside the viewport.
pub open spec fn get_real_spec(
    cursor: Option<Vec2>,
    window: Vec2,
    camera: Vec2,
    scale_pct: i64,
) -> Option<Vec2> {
    match cursor {
        None => None,
        Some(c) => {
            if !in_viewport(window, c) {
                None
            } else {
                let cx = viewport_max(window).x / 2;
                let cy = viewport_max(window).y / 2;
                let world = Vec2 {
                    x: (camera.x + scale_by_pct(c.x - cx, scale_pct as int)) as i64,
                    y: (camera.y - scale_by_pct(c.y - cy, scale_pct as int)) as i64,
                };
                Some(align_spec(world))
            }
        },
    }
}

/// One camera drag step: a drag within the viewport moves the camera by the
/// negated horizontal delta and the vertical delta unchanged.
pub open spec fn track_step(cam: Vec2, window: Vec2, d: DragEvent) -> Vec2 {
    if in_viewport(window, d.position) && d.delta is Some {
        Vec2 { x: (cam.x - d.delta->0.x) as i64, y: (cam.y + d.delta->0.y) as i64 }
    } else {
        cam
    }
}

/// The camera after a sequence of drag steps.
pub open spec fn track_fold(cam: Vec2, window: Vec2, ds: Seq<DragEvent>) -> Vec2
    decreases ds.len(),
{
    if ds.len() == 0 {
        cam
    } else {
        track_fold(track_step(cam, window, ds[0]), window, ds.skip(1))
    }
}

/// One cursor-moved event: where the cursor is, and how far it moved.
#[derive(Clone, Copy, PartialEq, Eq, Debug)]
pub struct DragEvent {
    pub position: Vec2,
    pub delta: Option<Vec2>,
}

/// The tilemap pane of the editor.
pub struct TilesPlugin;

impl TilesPlugin {
    /// Snap a world position to the centre of the tile it falls in.
    pub fn align_and_offset(translation: Vec2) -> (r: Vec2)
        ensures
            r == align_spec(translation),
    {
        Vec2 { x: Self::align_coord_exec(translation.x), y: Self::align_coord_exec(translation.y) }
    }

    fn align_coord_exec(c: i64) -> (r: i64)
        ensures
            r == align_coord(c),
    {
        let u = unit_coord_exec(c);
        ((u / 32) * 32 * 1000 + 16000) as i64
    }

    /// The world tile position the cursor points at, if the cursor is
    /// inside the tilemap viewport: camera position plus the zoom-scaled
    /// cursor offset from the viewport centre, snapped to a tile centre.
    pub fn get_real_translation(
        cursor: Option<Vec2>,
        window: Vec2,
        camera: Vec2,
        scale_pct: i64,
    ) -> (r: Option<Vec2>)
        requires
            0 <= window.x <= WINDOW_LIMIT,
            0 <= window.y <= WINDOW_LIMIT,
            -COORD_LIMIT <= camera.x <= COORD_LIMIT,
            -COORD_LIMIT <= camera.y <= COORD_LIMIT,
            0 <= scale_pct <= 1000,
        ensures
            r == get_real_spec(cursor, window, camera, scale_pct),
    {
        let c = match cursor {
            None => {
                return None;
            },
            Some(c) => c,
        };
        let vmax_x = window.x * 4 / 5;
        let vmax_y = window.y;
        if !(c.x >= 0 && c.x <= vmax_x && c.y >= 0 && c.y <= vmax_y) {
            return None;
        }
        let dx = c.x - vmax_x / 2;
        let dy = c.y - vmax_y / 2;
        let world = Vec2 {
            x: camera.x + Self::scale_by_pct_exec(dx, scale_pct),
            y: camera.y - Self::scale_by_pct_exec(dy, scale_pct),
        };
        Some(Self::align_and_offset(world))
    }

    fn scale_by_pct_exec(d: i64, scale_pct: i64) -> (r: i64)
        requires
            -WINDOW_LIMIT <= d <= WINDOW_LIMIT,
            0 <= scale_pct <= 1000,
        ensures
            r == scale_by_pct(d as int, scale_pct as int),
            -WINDOW_LIMIT * 10 <= r <= WINDOW_LIMIT * 10,
    {
        if d >= 0 {
            proof {
                assert(0 <= d * scale_pct <= WINDOW_LIMIT * 1000) by (nonlinear_arith)
                    requires
                        0 <= d <= WINDOW_LIMIT,
                        0 <= scale_pct <= 1000,
                ;
                assert((d * scale_pct) / 100 <= WINDOW_LIMIT * 10);
            }
            (d * scale_pct) / 100
        } else {
            proof {
                assert(0 <= (-d) * scale_pct <= WINDOW_LIMIT * 1000) by (nonlinear_arith)
                    requires
                        -WINDOW_LIMIT <= d < 0,
                        0 <= scale_pct <= 1000,
                ;
                assert(((-d) * scale_pct) / 100 <= WINDOW_LIMIT * 10);
            }
            -(((-d) * scale_pct) / 100)
        }
    }

    /// Drag the camera with the held left mouse button: each cursor-moved
    /// event inside the viewport shifts the camera opposite the horizontal
    /// drag and along the vertical one. Nothing happens unless the left
    /// button, and only it, is pressed.
    pub fn tracking(
        camera: &mut Vec2,
        left_pressed: bool,
        pressed_count: usize,
        window: Vec2,
        drags: &Vec<DragEvent>,
    )
        requires
            -COORD_LIMIT <= old(camera).x <= COORD_LIMIT,
            -COORD_LIMIT <= old(camera).y <= COORD_LIMIT,
            0 <= window.x <= WINDOW_LIMIT,
            0 <= window.y <= WINDOW_LIMIT,
            drags@.len() <= 10000,
            forall|i: int|
                0 <= i < drags@.len() ==> ((#[trigger] drags@[i]).delta matches Some(d)
                    ==> -DRAG_LIMIT <= d.x <= DRAG_LIMIT && -DRAG_LIMIT <= d.y <= DRAG_LIMIT),
        ensures
            *final(camera) == (if left_pressed && pressed_count == 1 {
                track_fold(*old(camera), window, drags@)
            } else {
                *old(camera)
            }),
    {
        if !left_pressed || pressed_count != 1 {
            return ;
        }
        proof {
            assert(drags@.skip(0) =~= drags@);
        }
        let mut idx: usize = 0;
        while idx < drags.len()
            invariant
                idx <= drags@.len(),
                drags@.len() <= 10000,
                0 <= window.x <= WINDOW_LIMIT,
                0 <= window.y <= WINDOW_LIMIT,
                forall|i: int|
                    0 <= i < drags@.len() ==> ((#[trigger] drags@[i]).delta matches Some(d)
                        ==> -DRAG_LIMIT <= d.x <= DRAG_LIMIT && -DRAG_LIMIT <= d.y <= DRAG_LIMIT),
                -COORD_LIMIT - idx * DRAG_LIMIT <= camera.x <= COORD_LIMIT + idx * DRAG_LIMIT,
                -COORD_LIMIT - idx * DRAG_LIMIT <= camera.y <= COORD_LIMIT + idx * DRAG_LIMIT,
                track_fold(*old(camera), window, drags@) == track_fold(
                    *camera,
                    window,
                    drags@.skip(idx as int),
                ),
            decreases drags@.len() - idx,
        {
            let ghost cam0 = *camera;
            let ghost i0 = idx as int;
            let d = drags[idx];
            proof {
                assert(drags@.skip(i0)[0] == drags@[i0]);
                assert(drags@.skip(i0).skip(1) =~= drags@.skip(i0 + 1));
            }
            let within = d.position.x >= 0 && d.position.x <= window.x * 4 / 5 && d.position.y >= 0
                && d.position.y <= window.y;
            proof {
                assert(within == in_viewport(window, d.position));
            }
            if within {
                match d.delta {
                    Some(delta) => {
                        camera.x = camera.x - delta.x;
                        camera.y = camera.y + delta.y;
                    },
                    None => {},
                }
            }
            idx = idx + 1;
            proof {
                assert(*camera == track_step(cam0, window, drags@[i0]));
                assert(track_fold(cam0, window, drags@.skip(i0)) == track_fold(
                    *camera,
                    window,
                    drags@.skip(i0 + 1),
                ));
            }
        }
        proof {
            assert(drags@.skip(drags@.len() as int).len() == 0);
        }
    }

    /// The vertex list of the grid mesh: for each grid column a vertical
    /// line from the bottom to the top edge, then for each grid row a
    /// horizontal line from the left to the right edge; consecutive pairs
    /// of vertices form one line. An empty grid has no mesh.
    pub fn create_grid(cols: usize, rows: usize) -> (r: Vec<Vec2>)
        requires
            cols <= GRID_LIMIT,
            rows <= GRID_LIMIT,
        ensures
            (cols == 0 || rows == 0) ==> r@.len() == 0,
            cols > 0 && rows > 0 ==> r@.len() == 2 * (cols + 1) + 2 * (rows + 1),
            forall|k: int|
                0 <= k < r@.len() ==> #[trigger] r@[k] == grid_vertex_spec(
                    cols as int,
                    rows as int,
                    k,
                ),
    {
        let mut r: Vec<Vec2> = Vec::new();
        if cols == 0 || rows == 0 {
            return r;
        }
        let height = (rows as i64) * 32000;
        let width = (cols as i64) * 32000;
        let mut col: usize = 0;
        while col <= cols
            invariant
                cols <= GRID_LIMIT,
                rows <= GRID_LIMIT,
                col <= cols + 1,
                height == rows * 32000,
                width == cols * 32000,
                r@.len() == 2 * col,
                forall|k: int|
                    0 <= k < r@.len() ==> #[trigger] r@[k] == grid_vertex_spec(
                        cols as int,
                        rows as int,
                        k,
                    ),
            decreases cols + 1 - col,
        {
            let x = (col as i64) * 32000;
            let ghost k0 = r@.len() as int;
            r.push(Vec2 { x, y: 0 });
            r.push(Vec2 { x, y: height });
            proof {
                assert(k0 == 2 * col);
                assert(k0 / 2 == col && k0 % 2 == 0);
                assert((k0 + 1) / 2 == col && (k0 + 1) % 2 == 1);
                assert(r@[k0] == grid_vertex_spec(cols as int, rows as int, k0));
                assert(r@[k0 + 1] == grid_vertex_spec(cols as int, rows as int, k0 + 1));
            }
            col = col + 1;
        }
        let ghost base = r@.len() as int;
        let mut row: usize = 0;
        while row <= rows
            invariant
                cols <= GRID_LIMIT,
                rows <= GRID_LIMIT,
                row <= rows + 1,
                height == rows * 32000,
                width == cols * 32000,
                base == 2 * (cols + 1),
                r@.len() == base + 2 * row,
                forall|k: int|
                    0 <= k < r@.len() ==> #[trigger] r@[k] == grid_vertex_spec(
                        cols as int,
                        rows as int,
                        k,
                    ),
            decreases rows + 1 - row,
        {
            let y = (row as i64) * 32000;
            let ghost k0 = r@.len() as int;
            r.push(Vec2 { x: 0, y });
            r.push(Vec2 { x: width, y });
            proof {
                assert(k0 == base + 2 * row);
                assert((k0 - base) / 2 == row && k0 % 2 == 0) by {
                    assert(k0 == 2 * (cols + 1 + row));
                };
                assert((k0 + 1 - base) / 2 == row && (k0 + 1) % 2 == 1) by {
                    assert(k0 + 1 == 2 * (cols + 1 + row) + 1);
                };
                assert(r@[k0] == grid_vertex_spec(cols as int, rows as int, k0));
                assert(r@[k0 + 1] == grid_vertex_spec(cols as int, rows as int, k0 + 1));
            }
            row = row + 1;
        }
        r
    }
}

/// Whether a tile placement lies within the grid of the map being edited:
/// at most half a tile beyond the last tile centre on each axis.
pub open spec fn in_grid_limits(d: TileDescriptor, cols: int, rows: int) -> bool {
    d.tile_pos.x <= cols * 32000 - 16000 && d.tile_pos.y <= rows * 32000 - 16000
}

/// The tile table a level parses to: the placements within the grid limits,
/// in order, keyed by their grid coordinate — a later placement on the same
/// key replaces the earlier one.
pub open spec fn parse_map_spec(data: Seq<TileDescriptor>, cols: int, rows: int) -> Map<
    u64,
    TileData,
>
    decreases data.len(),
{
    if data.len() == 0 {
        Map::empty()
    } else {
        let prev = parse_map_spec(data.drop_last(), cols, rows);
        let d = data.last();
        if in_grid_limits(d, cols, rows) {
            prev.insert(tile_key_spec(d.tile_pos), TileData { typ: d.tile_typ, rotation: d.rotation })
        } else {
            prev
        }
    }
}

/// Whether a position lies within the edited map's world rectangle.
pub open spec fn in_map_rect(cols: int, rows: int, p: Vec2) -> bool {
    0 <= p.x <= cols * 32000 && 0 <= p.y <= rows * 32000
}

/// What placing the selected tile did.
#[derive(Clone, Copy, PartialEq, Eq, Structural, Debug)]
pub enum PlaceOutcome {
    /// The cursor was outside the map rectangle; nothing changed.
    Outside,
    /// The same tile with the same rotation was already there.
    Unchanged,
    /// The tile was stored; `replaced` says whether one made way for it.
    Placed { replaced: bool },
}

impl TilesPlugin {
    /// Rebuild the edited tiles from a level description: the map table is
    /// cleared and refilled with the level's placements, dropping those
    /// beyond the current grid extent (a placement later in the data wins
    /// its key). An empty grid keeps the table empty. The grid mesh is
    /// rebuilt either way.
    pub fn parse(map: &mut MapData, level: &LevelAsset) -> (r: GridCreateEvent)
        requires
            old(map).wf(),
        ensures
            map_fields_but_tiles_equal(*final(map), *old(map)),
            final(map).wf(),
            final(map).data@ == (if old(map).cols == 0 || old(map).rows == 0 {
                Map::<u64, TileData>::empty()
            } else {
                parse_map_spec(level.data@, old(map).cols as int, old(map).rows as int)
            }),
    {
        map.data.clear();
        map.keys.clear();
        proof {
            assert(forall|k: u64| !map.keys@.contains(k));
        }
        if map.cols == 0 || map.rows == 0 {
            return GridCreateEvent;
        }
        let limit_x = (map.cols as i64) * 32000 - 16000;
        let limit_y = (map.rows as i64) * 32000 - 16000;
        let ghost cols = map.cols as int;
        let ghost rows = map.rows as int;
        let mut idx: usize = 0;
        proof {
            assert(level.data@.take(0).len() == 0);
        }
        while idx < level.data.len()
            invariant
                idx <= level.data@.len(),
                limit_x == cols * 32000 - 16000,
                limit_y == rows * 32000 - 16000,
                cols == map.cols as int,
                rows == map.rows as int,
                map.wf(),
                map_fields_but_tiles_equal(*map, *old(map)),
                map.data@ == parse_map_spec(level.data@.take(idx as int), cols, rows),
            decreases level.data@.len() - idx,
        {
            let ghost i0 = idx as int;
            let d = level.data[idx];
            proof {
                assert(level.data@.take(i0 + 1).drop_last() =~= level.data@.take(i0));
                assert(level.data@.take(i0 + 1).last() == d);
            }
            if !(d.tile_pos.x > limit_x || d.tile_pos.y > limit_y) {
                let k = tile_key(d.tile_pos);
                let ghost keys0 = map.keys@;
                let ghost tiles0 = map.data@;
                let prev = map.data.insert(k, TileData { typ: d.tile_typ, rotation: d.rotation });
                if prev.is_none() {
                    map.keys.push(k);
                    proof {
                        lemma_key_list_after_insert(tiles0, keys0, map.data@, map.keys@, k);
                    }
                } else {
                    proof {
                        assert(forall|k2: u64|
                            map.data@.contains_key(k2) <==> tiles0.contains_key(k2));
                    }
                }
            }
            idx = idx + 1;
        }
        proof {
            assert(level.data@.take(level.data@.len() as int) =~= level.data@);
        }
        GridCreateEvent
    }

    /// Place the selected tile at the snapped cursor position: outside the
    /// map rectangle nothing happens; an identical tile is left alone;
    /// otherwise the tile is stored under its grid key, replacing whatever
    /// held the key.
    pub fn selected(map: &mut MapData, typ: TileType, rotation: i64, target: Vec2) -> (r:
        PlaceOutcome)
        requires
            old(map).wf(),
        ensures
            final(map).wf(),
            map_fields_but_tiles_equal(*final(map), *old(map)),
            !in_map_rect(old(map).cols as int, old(map).rows as int, target) ==> r is Outside
                && *final(map) == *old(map),
            in_map_rect(old(map).cols as int, old(map).rows as int, target) && old(
                map,
            ).data@.contains_key(tile_key_spec(target)) && old(map).data@[tile_key_spec(target)] == (
            TileData { typ, rotation }) ==> r is Unchanged && *final(map) == *old(map),
            in_map_rect(old(map).cols as int, old(map).rows as int, target) && !(old(
                map,
            ).data@.contains_key(tile_key_spec(target)) && old(map).data@[tile_key_spec(target)] == (
            TileData { typ, rotation })) ==> {
                &&& final(map).data@ == old(map).data@.insert(
                    tile_key_spec(target),
                    TileData { typ, rotation },
                )
                &&& r == (PlaceOutcome::Placed {
                    replaced: old(map).data@.contains_key(tile_key_spec(target)),
                })
            },
    {
        if !(target.x >= 0 && target.x <= (map.cols as i64) * 32000 && target.y >= 0 && target.y <= (
        map.rows as i64) * 32000) {
            return PlaceOutcome::Outside;
        }
        let k = tile_key(target);
        let replaced = match map.data.get(&k) {
            Some(td) => {
                if td.typ == typ && td.rotation == rotation {
                    return PlaceOutcome::Unchanged;
                }
                true
            },
            None => false,
        };
        let ghost keys0 = map.keys@;
        let ghost tiles0 = map.data@;
        let prev = map.data.insert(k, TileData { typ, rotation });
        if prev.is_none() {
            map.keys.push(k);
            proof {
                lemma_key_list_after_insert(tiles0, keys0, map.data@, map.keys@, k);
            }
        } else {
            proof {
                assert(forall|k2: u64| map.data@.contains_key(k2) <==> tiles0.contains_key(k2));
            }
        }
        PlaceOutcome::Placed { replaced }
    }

    /// Erase the tile at the snapped cursor position, if one is stored
    /// there.
    pub fn earse(map: &mut MapData, target: Vec2) -> (removed: bool)
        requires
            old(map).wf(),
        ensures
            final(map).wf(),
            map_fields_but_tiles_equal(*final(map), *old(map)),
            removed == old(map).data@.contains_key(tile_key_spec(target)),
            removed ==> final(map).data@ == old(map).data@.remove(tile_key_spec(target)),
            !removed ==> final(map).data@ == old(map).data@ && final(map).keys@ == old(map).keys@,
    {
        let k = tile_key(target);
        let ghost keys0 = map.keys@;
        let ghost tiles0 = map.data@;
        match map.data.remove(&k) {
            None => {
                proof {
                    assert(map.data@ =~= tiles0);
                }
                false
            },
            Some(_) => {
                proof {
                    assert(tiles0.contains_key(k));
                    assert(keys0.contains(k));
                }
                let j = Self::find_key_index(&map.keys, k);
                map.keys.remove(j);
                proof {
                    lemma_key_list_after_remove(tiles0, keys0, map.data@, map.keys@, k, j as int);
                }
                true
            },
        }
    }

    /// Zoom the tilemap view with the wheel while the control key is held:
    /// each wheel notch up zooms in (a smaller scale percentage), each
    /// notch down zooms out, clamped to the zoom range.
    pub fn scale(current_pct: i64, ctrl_held: bool, wheel: &Vec<i64>) -> (r: i64)
        requires
            0 <= current_pct <= 1000,
        ensures
            r == (if ctrl_held {
                scale_fold(current_pct as int, wheel@)
            } else {
                current_pct as int
            }),
    {
        if !ctrl_held {
            return current_pct;
        }
        proof {
            assert(wheel@.skip(0) =~= wheel@);
        }
        let mut cur = current_pct;
        let mut idx: usize = 0;
        while idx < wheel.len()
            invariant
                idx <= wheel@.len(),
                0 <= cur <= 1005,
                scale_fold(current_pct as int, wheel@) == scale_fold(
                    cur as int,
                    wheel@.skip(idx as int),
                ),
            decreases wheel@.len() - idx,
        {
            let ghost i0 = idx as int;
            let ghost cur0 = cur as int;
            let y = wheel[idx];
            proof {
                assert(wheel@.skip(i0)[0] == wheel@[i0]);
                assert(wheel@.skip(i0).skip(1) =~= wheel@.skip(i0 + 1));
            }
            if y > 0 && cur > TILEMAP_SCALE_MIN {
                cur = cur - 5;
            } else if y < 0 && cur < TILEMAP_SCALE_MAX {
                cur = cur + 5;
            }
            proof {
                assert(cur as int == scale_step(cur0, wheel@[i0] as int));
            }
            idx = idx + 1;
        }
        proof {
            assert(wheel@.skip(wheel@.len() as int).len() == 0);
        }
        cur
    }

    fn find_key_index(keys: &Vec<u64>, k: u64) -> (idx: usize)
        requires
            keys@.contains(k),
        ensures
            idx < keys@.len(),
            keys@[idx as int] == k,
    {
        let mut j: usize = 0;
        while j < keys.len()
            invariant
                j <= keys@.len(),
                keys@.contains(k),
                forall|i: int| 0 <= i < j ==> keys@[i] != k,
            decreases keys@.len() - j,
        {
            if keys[j] == k {
                return j;
            }
            j = j + 1;
        }
        proof {
            let w = choose|w: int| 0 <= w < keys@.len() && keys@[w] == k;
            assert(false);
        }
        0
    }
}

/// The closest the tilemap view zooms in, in percent.
pub const TILEMAP_SCALE_MIN: i64 = 65;

/// The farthest the tilemap view zooms out, in percent.
pub const TILEMAP_SCALE_MAX: i64 = 150;

/// One wheel notch applied to the zoom percentage: up zooms in by five
/// points while above the minimum, down zooms out by five while below the
/// maximum.
pub open spec fn scale_step(cur: int, wheel_y: int) -> int {
    if wheel_y > 0 && cur > TILEMAP_SCALE_MIN {
        cur - 5
    } else if wheel_y < 0 && cur < TILEMAP_SCALE_MAX {
        cur + 5
    } else {
        cur
    }
}

/// The zoom percentage after a sequence of wheel notches.
pub open spec fn scale_fold(cur: int, wheel: Seq<i64>) -> int
    decreases wheel.len(),
{
    if wheel.len() == 0 {
        cur
    } else {
        scale_fold(scale_step(cur, wheel[0] as int), wheel.skip(1))
    }
}

/// Everything of a map but its tile storage is unchanged.
pub open spec fn map_fields_but_tiles_equal(a: MapData, b: MapData) -> bool {
    a.id == b.id && a.rows == b.rows && a.cols == b.cols && a.entry == b.entry && a.next == b.next
}

/// Pushing a fresh key keeps the key list mirroring the table.
proof fn lemma_key_list_after_insert(
    tiles0: Map<u64, TileData>,
    keys0: Seq<u64>,
    tiles1: Map<u64, TileData>,
    keys1: Seq<u64>,
    k: u64,
)
    requires
        keys0.no_duplicates(),
        forall|k2: u64| tiles0.contains_key(k2) <==> keys0.contains(k2),
        !tiles0.contains_key(k),
        forall|k2: u64| tiles1.contains_key(k2) <==> (k2 == k || tiles0.contains_key(k2)),
        keys1 == keys0.push(k),
    ensures
        keys1.no_duplicates(),
        forall|k2: u64| tiles1.contains_key(k2) <==> keys1.contains(k2),
{
    assert(forall|i: int| 0 <= i < keys0.len() ==> keys1[i] == keys0[i]);
    assert(keys1[keys0.len() as int] == k);
    assert forall|i: int| 0 <= i < keys0.len() implies keys0[i] != k by {
        if keys0[i] == k {
            assert(keys0.contains(k));
        }
    }
    assert forall|k2: u64| tiles1.contains_key(k2) implies keys1.contains(k2) by {
        if k2 == k {
            assert(keys1[keys0.len() as int] == k2);
        } else {
            assert(tiles0.contains_key(k2));
            assert(keys0.contains(k2));
            let w = choose|w: int| 0 <= w < keys0.len() && keys0[w] == k2;
            assert(keys1[w] == k2);
        }
    }
    assert forall|k2: u64| keys1.contains(k2) implies tiles1.contains_key(k2) by {
        let w = choose|w: int| 0 <= w < keys1.len() && keys1[w] == k2;
        if w < keys0.len() {
            assert(keys0[w] == k2);
            assert(keys0.contains(k2));
            assert(tiles0.contains_key(k2));
        } else {
            assert(k2 == k);
        }
    }
}

/// Removing a key's one occurrence keeps the key list mirroring the table.
proof fn lemma_key_list_after_remove(
    tiles0: Map<u64, TileData>,
    keys0: Seq<u64>,
    tiles1: Map<u64, TileData>,
    keys1: Seq<u64>,
    k: u64,
    j: int,
)
    requires
        keys0.no_duplicates(),
        forall|k2: u64| tiles0.contains_key(k2) <==> keys0.contains(k2),
        0 <= j < keys0.len(),
        keys0[j] == k,
        tiles1 == tiles0.remove(k),
        keys1 == keys0.remove(j),
    ensures
        keys1.no_duplicates(),
        forall|k2: u64| tiles1.contains_key(k2) <==> keys1.contains(k2),
{
    assert(keys1.len() == keys0.len() - 1);
    assert(forall|i: int| 0 <= i < j ==> keys1[i] == keys0[i]);
    assert(forall|i: int| j <= i < keys1.len() ==> keys1[i] == keys0[i + 1]);
    assert forall|p: int, q: int| 0 <= p < keys1.len() && 0 <= q < keys1.len() && p != q
        implies keys1[p] != keys1[q] by {
        let p0 = if p < j {
            p
        } else {
            p + 1
        };
        let q0 = if q < j {
            q
        } else {
            q + 1
        };
        assert(keys1[p] == keys0[p0] && keys1[q] == keys0[q0] && p0 != q0);
    }
    assert forall|k2: u64| tiles1.contains_key(k2) implies keys1.contains(k2) by {
        assert(k2 != k && tiles0.contains_key(k2));
        assert(keys0.contains(k2));
        let w = choose|w: int| 0 <= w < keys0.len() && keys0[w] == k2;
        if w < j {
            assert(keys1[w] == k2);
        } else {
            assert(w != j);
            assert(keys1[w - 1] == k2);
        }
    }
    assert forall|k2: u64| keys1.contains(k2) implies tiles1.contains_key(k2) by {
        let w = choose|w: int| 0 <= w < keys1.len() && keys1[w] == k2;
        let w0 = if w < j {
            w
        } else {
            w + 1
        };
        assert(keys0[w0] == k2);
        assert(keys0.contains(k2));
        assert(w0 != j);
        assert(k2 != k);
    }
}

/// The vertex at position `k` of the grid mesh of a `cols` by `rows` grid:
/// the first `2 * (cols + 1)` vertices alternate between the bottom and the
/// top end of the vertical line of each grid column, the rest between the
/// left and the right end of the horizontal line of each grid row.
pub open spec fn grid_vertex_spec(cols: int, rows: int, k: int) -> Vec2 {
    if k < 2 * (cols + 1) {
        let i = k / 2;
        if k % 2 == 0 {
            Vec2 { x: (i * 32000) as i64, y: 0 }
        } else {
            Vec2 { x: (i * 32000) as i64, y: (rows * 32000) as i64 }
        }
    } else {
        let j = (k - 2 * (cols + 1)) / 2;
        if k % 2 == 0 {
            Vec2 { x: 0, y: (j * 32000) as i64 }
        } else {
            Vec2 { x: (cols * 32000) as i64, y: (j * 32000) as i64 }
        }
    }
}

} // verus!
