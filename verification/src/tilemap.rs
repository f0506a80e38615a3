//! The tilemap of a level run and the level-transition protocol.
//!
//! When a level becomes ready its tile placements are turned into spawn
//! orders for the engine; a pass-zone tile additionally gets the pass
//! observer attached. A pass-zone contact then either advances the shared
//! current-level id and asks for a reload, or — when there is no next level
//! — raises the succeeded outcome. Exactly one of the two happens per
//! contact.

use vstd::prelude::*;

use crate::geom::Vec2;
use crate::level::LevelAsset;
use crate::level::LevelPass;
use crate::level::LevelResource;
use crate::level::TileDescriptor;
use crate::level::TileType;
use crate::player::PlayerState;
use crate::scene::GameScene;
use crate::scene::InGameState;

verus! {

/// Lifecycle of the level within the in-game scene.
#[derive(Clone, Copy, PartialEq, Eq, Structural, Debug)]
pub enum LevelState {
    Prepare,
    Loading,
    Running,
}

impl Default for LevelState {
    fn default() -> (r: Self)
        ensures
            r is Prepare,
    {
        LevelState::Prepare
    }
}

/// The level-run controller.
pub struct Level;

impl Level {
    /// Entering the in-game scene starts loading the level data.
    pub fn init() -> (r: LevelState)
        ensures
            r is Loading,
    {
        LevelState::Loading
    }

    /// Once the loader reports the level data ready, the level starts
    /// running; until then nothing changes.
    pub fn ready(loaded: bool) -> (r: Option<LevelState>)
        ensures
            loaded ==> r == Some(LevelState::Running),
            !loaded ==> r is None,
    {
        if loaded {
            Some(LevelState::Running)
        } else {
            None
        }
    }

    /// The per-tick level systems run only while both the scene and the
    /// level itself are running.
    pub fn is_runnable(in_game: InGameState, level: LevelState) -> (r: bool)
        ensures
            r == (in_game is Running && level is Running),
    {
        matches!(in_game, InGameState::Running) && matches!(level, LevelState::Running)
    }
}

/// One tile the engine should create for the running level. A `Pass` tile
/// gets the pass observer attached; a `Trap` tile is the hazard volume the
/// hurt observer listens for; a `Wall` is solid environment geometry.
#[derive(Clone, Copy, PartialEq, Eq, Structural, Debug)]
pub struct TileSpawn {
    pub tile_typ: TileType,
    pub tile_pos: Vec2,
    /// Rotation in millidegrees.
    pub rotation: i64,
}

/// The spawn order of one tile placement.
pub open spec fn tile_spawn_spec(d: TileDescriptor) -> TileSpawn {
    TileSpawn { tile_typ: d.tile_typ, tile_pos: d.tile_pos, rotation: d.rotation }
}

/// What the protocol answers to one pass-zone contact.
#[derive(Clone, Copy, PartialEq, Eq, Structural, Debug)]
pub struct PassResponse {
    /// Reload the level (now pointed at by the shared id) and respawn.
    pub reload: bool,
    /// The succeeded outcome, when there is no next level.
    pub signal: Option<LevelPass>,
    /// Scene to switch to, when the run ends here.
    pub next_scene: Option<GameScene>,
}

/// How a pass-zone contact changes the shared current-level id: a contact by
/// the player advances it to the next level, if there is one.
pub open spec fn pass_resource_spec(
    resource: LevelResource,
    next: Option<usize>,
    collider_is_player: bool,
) -> LevelResource {
    if collider_is_player && next is Some {
        LevelResource { id: next->0 }
    } else {
        resource
    }
}

/// The response to a pass-zone contact: reload on an advance, the succeeded
/// outcome and the game-over scene on a finished run, nothing for a contact
/// by anything but the player.
pub open spec fn pass_response_spec(next: Option<usize>, collider_is_player: bool) -> PassResponse {
    if !collider_is_player {
        PassResponse { reload: false, signal: None, next_scene: None }
    } else if next is Some {
        PassResponse { reload: true, signal: None, next_scene: None }
    } else {
        PassResponse { reload: false, signal: Some(LevelPass(true)), next_scene: Some(
            GameScene::GameOver,
        ) }
    }
}

/// The tilemap of the running level.
pub struct TileMap;

impl TileMap {
    /// Turn the placements of a ready level into spawn orders, one per
    /// descriptor in order. The caller then moves the player lifecycle to
    /// Loading and starts the animation system.
    pub fn parse(level: &LevelAsset) -> (r: Vec<TileSpawn>)
        ensures
            r@.len() == level.data@.len(),
            forall|i: int|
                0 <= i < r@.len() ==> #[trigger] r@[i] == tile_spawn_spec(level.data@[i]),
    {
        let mut out: Vec<TileSpawn> = Vec::new();
        let mut idx: usize = 0;
        while idx < level.data.len()
            invariant
                idx <= level.data@.len(),
                out@.len() == idx,
                forall|i: int|
                    0 <= i < idx ==> #[trigger] out@[i] == tile_spawn_spec(level.data@[i]),
            decreases level.data@.len() - idx,
        {
            let d = level.data[idx];
            out.push(TileSpawn { tile_typ: d.tile_typ, tile_pos: d.tile_pos, rotation: d.rotation });
            idx = idx + 1;
        }
        out
    }

    /// Handle one pass-zone collision-start contact. The contact source is
    /// debounced by construction: one start-of-contact notification per
    /// physical touch. `next` is the next-level pointer of the current
    /// level; the shared current-level id is advanced on it.
    pub fn pass(
        resource: &mut LevelResource,
        next: Option<usize>,
        collider_is_player: bool,
    ) -> (r: PassResponse)
        ensures
            *final(resource) == pass_resource_spec(*old(resource), next, collider_is_player),
            r == pass_response_spec(next, collider_is_player),
    {
        if !collider_is_player {
            return PassResponse { reload: false, signal: None, next_scene: None };
        }
        match next {
            Some(next_id) => {
                resource.id = next_id;
                PassResponse { reload: true, signal: None, next_scene: None }
            },
            None => PassResponse {
                reload: false,
                signal: Some(LevelPass(true)),
                next_scene: Some(GameScene::GameOver),
            },
        }
    }

    /// The lifecycle changes a reload asks of the engine: discard the level
    /// and the player and load the level the shared id now names.
    pub fn reload_targets() -> (r: (LevelState, PlayerState))
        ensures
            r.0 is Loading,
            r.1 is Prepare,
    {
        (LevelState::Loading, PlayerState::Prepare)
    }

    /// The pause signal toggles every tile animation of the map.
    pub fn pause(playings: &mut Vec<bool>)
        ensures
            final(playings)@.len() == old(playings)@.len(),
            forall|i: int|
                0 <= i < final(playings)@.len() ==> #[trigger] final(playings)@[i] == !old(
                    playings,
                )@[i],
    {
        let mut idx: usize = 0;
        while idx < playings.len()
            invariant
                idx <= playings@.len(),
                playings@.len() == old(playings)@.len(),
                forall|i: int|
                    0 <= i < idx ==> #[trigger] playings@[i] == !old(playings)@[i],
                forall|i: int|
                    idx <= i < playings@.len() ==> #[trigger] playings@[i] == old(playings)@[i],
            decreases playings@.len() - idx,
        {
            let v = playings[idx];
            playings.set(idx, !v);
            idx = idx + 1;
        }
    }
}

/// Exactly one of the two protocol outcomes happens per pass-zone contact by
/// the player: either the shared id advances to the next level and a reload
/// is requested with no outcome signal, or — with no next level — the
/// succeeded outcome is raised with no reload and the id stays.
pub proof fn lemma_pass_protocol(resource: LevelResource, next: Option<usize>)
    ensures
        next matches Some(n) ==> pass_resource_spec(resource, next, true).id == n
            && pass_response_spec(next, true).reload && pass_response_spec(next, true).signal
            is None,
        next is None ==> pass_resource_spec(resource, next, true) == resource && !pass_response_spec(
            next,
            true,
        ).reload && pass_response_spec(next, true).signal == Some(LevelPass(true)),
        pass_response_spec(next, true).reload <==> pass_response_spec(next, true).signal is None,
{
}

} // verus!
