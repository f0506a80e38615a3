//! Environment sensing: the fixed set of short-range proximity probes
//! attached to the player body, and the per-tick readings derived from them.
//!
//! Each probe is a short ray cast performed by the physics collaborator
//! against solid environment geometry only (hazard and trigger volumes are
//! excluded by the collision filter). A probe group reports contact if any
//! probe in the group hits; this OR semantics avoids false negatives when the
//! player straddles a tile boundary. Readings are instantaneous and
//! recomputed from scratch every tick.
//!
//! Ground contact comes from the probe groups alone — two parallel downward
//! rays combined by OR — not from a contact-normal angle filter; the two
//! strategies must never be mixed, or grounding would be counted twice.

use vstd::prelude::*;

use crate::geom::Direction;
use crate::geom::Vec2;

verus! {

/// Collision layers of the game world. Proximity probes filter on
/// `Enviroment` so that only solid geometry counts as contact.
#[derive(Clone, Copy, PartialEq, Eq, Structural, Debug)]
pub enum GameCollisionLayers {
    Default,
    Enviroment,
    Operation,
    Player,
    Hit,
}

/// Which of the six probes a specification describes.
#[derive(Clone, Copy, PartialEq, Eq, Structural, Debug)]
pub enum ProbeKind {
    FloorChecker1,
    FloorChecker2,
    FrontChecker1,
    FrontChecker2,
    BackChecker1,
    BackChecker2,
}

/// One proximity probe: a ray cast from a fixed offset on the player body.
#[derive(Clone, Copy, PartialEq, Eq, Structural, Debug)]
pub struct ProbeSpec {
    pub kind: ProbeKind,
    /// Ray origin, relative to the player body centre, in milliunits.
    pub origin: Vec2,
    pub direction: Direction,
    /// Maximum cast distance in milliunits.
    pub max_distance: i64,
    /// At most this many hits are reported.
    pub max_hits: u32,
    /// Only volumes on this collision layer are hit.
    pub mask: GameCollisionLayers,
}

/// Horizontal offset of every probe pair from the body centre, milliunits.
pub const CHECKER_X: i64 = 4600;

/// Vertical offset of the two ground probes, milliunits.
pub const FLOOR_CHECKER_Y: i64 = -15750;

/// Maximum cast distance of the ground probes, milliunits.
pub const FLOOR_CHECKER_MAX_DISTANCE: i64 = 16000;

/// Vertical offset of the lower wall probes, milliunits; the upper wall
/// probes sit at the negated offset.
pub const WALL_CHECKER_Y: i64 = -16800;

/// Maximum cast distance of the wall probes, milliunits.
pub const WALL_CHECKER_MAX_DISTANCE: i64 = 6000;

/// The set of probes attached to the player at spawn.
pub struct PlayerCheckers;

/// The fixed probe layout: two downward ground probes offset left and right
/// of centre, and a pair of probes at two heights on each side for the walls.
pub open spec fn probe_layout() -> Seq<ProbeSpec> {
    seq![
        ProbeSpec {
            kind: ProbeKind::FloorChecker1,
            origin: Vec2 { x: CHECKER_X as i64, y: FLOOR_CHECKER_Y as i64 },
            direction: Direction::Down,
            max_distance: FLOOR_CHECKER_MAX_DISTANCE as i64,
            max_hits: 1,
            mask: GameCollisionLayers::Enviroment,
        },
        ProbeSpec {
            kind: ProbeKind::FloorChecker2,
            origin: Vec2 { x: (-CHECKER_X) as i64, y: FLOOR_CHECKER_Y as i64 },
            direction: Direction::Down,
            max_distance: FLOOR_CHECKER_MAX_DISTANCE as i64,
            max_hits: 1,
            mask: GameCollisionLayers::Enviroment,
        },
        ProbeSpec {
            kind: ProbeKind::FrontChecker1,
            origin: Vec2 { x: CHECKER_X as i64, y: WALL_CHECKER_Y as i64 },
            direction: Direction::Right,
            max_distance: WALL_CHECKER_MAX_DISTANCE as i64,
            max_hits: 1,
            mask: GameCollisionLayers::Enviroment,
        },
        ProbeSpec {
            kind: ProbeKind::FrontChecker2,
            origin: Vec2 { x: CHECKER_X as i64, y: (-WALL_CHECKER_Y) as i64 },
            direction: Direction::Right,
            max_distance: WALL_CHECKER_MAX_DISTANCE as i64,
            max_hits: 1,
            mask: GameCollisionLayers::Enviroment,
        },
        ProbeSpec {
            kind: ProbeKind::BackChecker1,
            origin: Vec2 { x: (-CHECKER_X) as i64, y: WALL_CHECKER_Y as i64 },
            direction: Direction::Left,
            max_distance: WALL_CHECKER_MAX_DISTANCE as i64,
            max_hits: 1,
            mask: GameCollisionLayers::Enviroment,
        },
        ProbeSpec {
            kind: ProbeKind::BackChecker2,
            origin: Vec2 { x: (-CHECKER_X) as i64, y: (-WALL_CHECKER_Y) as i64 },
            direction: Direction::Left,
            max_distance: WALL_CHECKER_MAX_DISTANCE as i64,
            max_hits: 1,
            mask: GameCollisionLayers::Enviroment,
        },
    ]
}

impl PlayerCheckers {
    /// The probes to attach to a freshly spawned player body, in the order
    /// the physics collaborator should create them.
    pub fn add_to() -> (r: Vec<ProbeSpec>)
        ensures
            r@ == probe_layout(),
    {
        let mut r: Vec<ProbeSpec> = Vec::new();
        r.push(ProbeSpec {
            kind: ProbeKind::FloorChecker1,
            origin: Vec2 { x: CHECKER_X, y: FLOOR_CHECKER_Y },
            direction: Direction::Down,
            max_distance: FLOOR_CHECKER_MAX_DISTANCE,
            max_hits: 1,
            mask: GameCollisionLayers::Enviroment,
        });
        r.push(ProbeSpec {
            kind: ProbeKind::FloorChecker2,
            origin: Vec2 { x: -CHECKER_X, y: FLOOR_CHECKER_Y },
            direction: Direction::Down,
            max_distance: FLOOR_CHECKER_MAX_DISTANCE,
            max_hits: 1,
            mask: GameCollisionLayers::Enviroment,
        });
        r.push(ProbeSpec {
            kind: ProbeKind::FrontChecker1,
            origin: Vec2 { x: CHECKER_X, y: WALL_CHECKER_Y },
            direction: Direction::Right,
            max_distance: WALL_CHECKER_MAX_DISTANCE,
            max_hits: 1,
            mask: GameCollisionLayers::Enviroment,
        });
        r.push(ProbeSpec {
            kind: ProbeKind::FrontChecker2,
            origin: Vec2 { x: CHECKER_X, y: -WALL_CHECKER_Y },
            direction: Direction::Right,
            max_distance: WALL_CHECKER_MAX_DISTANCE,
            max_hits: 1,
            mask: GameCollisionLayers::Enviroment,
        });
        r.push(ProbeSpec {
            kind: ProbeKind::BackChecker1,
            origin: Vec2 { x: -CHECKER_X, y: WALL_CHECKER_Y },
            direction: Direction::Left,
            max_distance: WALL_CHECKER_MAX_DISTANCE,
            max_hits: 1,
            mask: GameCollisionLayers::Enviroment,
        });
        r.push(ProbeSpec {
            kind: ProbeKind::BackChecker2,
            origin: Vec2 { x: -CHECKER_X, y: -WALL_CHECKER_Y },
            direction: Direction::Left,
            max_distance: WALL_CHECKER_MAX_DISTANCE,
            max_hits: 1,
            mask: GameCollisionLayers::Enviroment,
        });
        proof {
            assert(r@ =~= probe_layout());
        }
        r
    }
}

/// Per-tick snapshot of the three probe groups.
#[derive(Clone, Copy, PartialEq, Eq, Structural, Debug)]
pub struct SensorReadings {
    /// Some ground probe hit solid geometry below the player.
    pub ground: bool,
    /// Some wall probe on the right-hand (front) side hit.
    pub wall_front: bool,
    /// Some wall probe on the left-hand (back) side hit.
    pub wall_back: bool,
}

impl SensorReadings {
    /// Combine the raw hit flags of the six probes into group readings.
    /// A group reports contact if any of its probes hit.
    pub fn from_probes(
        floor1: bool,
        floor2: bool,
        front1: bool,
        front2: bool,
        back1: bool,
        back2: bool,
    ) -> (r: SensorReadings)
        ensures
            r.ground == (floor1 || floor2),
            r.wall_front == (front1 || front2),
            r.wall_back == (back1 || back2),
    {
        SensorReadings {
            ground: floor1 || floor2,
            wall_front: front1 || front2,
            wall_back: back1 || back2,
        }
    }
}

} // verus!
