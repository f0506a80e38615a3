//! The in-memory level description and the signals of a level run.
//!
//! The level file format is produced and consumed by an external loader; this
//! library receives the level as already-parsed data. Tile positions are in
//! milliunits and tile rotations in millidegrees, so a level is plain integer
//! data throughout.

use vstd::prelude::*;

use crate::geom::Vec2;
use crate::text::dec_digits;
use crate::text::usize_to_string;

verus! {

/// Raised once when a run starts, carrying the id of the level to load.
#[derive(Clone, Copy, PartialEq, Eq, Structural, Debug)]
pub struct LevelInit(pub usize);

/// The terminal outcome signal of a level attempt: `LevelPass(true)` is the
/// succeeded outcome, `LevelPass(false)` the failed one.
#[derive(Clone, Copy, PartialEq, Eq, Structural, Debug)]
pub struct LevelPass(pub bool);

/// The kind of a tile placement.
#[derive(Clone, Copy, PartialEq, Eq, Structural, Debug)]
pub enum TileType {
    /// Solid environment geometry.
    Wall,
    /// A non-solid trigger volume whose touch advances or ends the level.
    Pass,
    /// A non-solid hazard volume whose touch damages the player.
    Trap,
}

impl TileType {
    /// Index of the tile's texture in the shared atlas.
    pub fn texture_atlas_index(&self) -> (r: usize)
        ensures
            r == self.texture_atlas_index_spec(),
    {
        match self {
            TileType::Wall => 36,
            TileType::Trap => 194,
            TileType::Pass => 0,
        }
    }

    pub open spec fn texture_atlas_index_spec(self) -> usize {
        match self {
            TileType::Wall => 36,
            TileType::Trap => 194,
            TileType::Pass => 0,
        }
    }
}

/// One tile placement of a level: where it sits, what it is, and how it is
/// rotated (in millidegrees, counter-clockwise).
#[derive(Clone, Copy, PartialEq, Eq, Structural, Debug)]
pub struct TileDescriptor {
    pub tile_pos: Vec2,
    pub tile_typ: TileType,
    pub rotation: i64,
}

/// Side length of a tile in world units.
pub const TILE_SIZE: u32 = 32;

/// Rows of the shared tile texture atlas.
pub const TILE_ROWS: u32 = 16;

/// Columns of the shared tile texture atlas.
pub const TILE_COLS: u32 = 16;

/// Upper bound on the rows and columns of a level grid: the editor keys
/// tiles by their whole-unit coordinate in 32 bits, so a grid can span at
/// most `2^32 / 32` tiles per axis.
pub const GRID_LIMIT: usize = 134217728;

/// Bound on the coordinates a level may place tiles at, milliunits.
pub const COORD_LIMIT: i64 = 0x100000000000;

/// A parsed level: the grid extent, the tile placements, the entry point of
/// the player, and the id of the next level, if any.
pub struct LevelAsset {
    pub rows: usize,
    pub cols: usize,
    pub data: Vec<TileDescriptor>,
    pub entry: Vec2,
    pub next: Option<usize>,
}

impl LevelAsset {
    /// A well-formed level keeps its extent and its tile coordinates within
    /// the machine bounds the editor and the tilemap arithmetic rely on.
    pub open spec fn wf(self) -> bool {
        &&& self.rows <= GRID_LIMIT
        &&& self.cols <= GRID_LIMIT
        &&& forall|i: int|
            0 <= i < self.data@.len() ==> {
                &&& -COORD_LIMIT <= (#[trigger] self.data@[i]).tile_pos.x <= COORD_LIMIT
                &&& -COORD_LIMIT <= self.data@[i].tile_pos.y <= COORD_LIMIT
            }
    }
}

/// The shared handle of the level run: which level is currently being
/// played. The level-transition protocol advances it.
#[derive(Clone, Copy, PartialEq, Eq, Structural, Debug)]
pub struct LevelResource {
    pub id: usize,
}

impl LevelResource {
    /// The asset path of the level data file with the given id.
    pub fn data_path(id: usize) -> (r: String)
        ensures
            r@ == "data/level"@ + dec_digits(id as nat) + ".m"@,
    {
        let mut s = String::from_str("data/level");
        let digits = usize_to_string(id);
        s.append(digits.as_str());
        s.append(".m");
        s
    }
}

} // verus!
