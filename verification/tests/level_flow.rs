use sara_core::geom::Vec2;
use sara_core::level::LevelAsset;
use sara_core::level::LevelPass;
use sara_core::level::LevelResource;
use sara_core::level::TileDescriptor;
use sara_core::level::TileType;
use sara_core::player::PlayerState;
use sara_core::scene::GameOverScene;
use sara_core::scene::GameScene;
use sara_core::scene::InGameState;
use sara_core::scene::InGmaeScene;
use sara_core::scene::Paused;
use sara_core::scene::StartScene;
use sara_core::text::usize_to_string;
use sara_core::tilemap::Level;
use sara_core::tilemap::LevelState;
use sara_core::tilemap::TileMap;

#[test]
fn pass_zone_advances_to_next_level() {
    let mut resource = LevelResource { id: 0 };
    let r = TileMap::pass(&mut resource, Some(3), true);
    assert_eq!(resource.id, 3);
    assert!(r.reload);
    assert_eq!(r.signal, None);
    assert_eq!(r.next_scene, None);
}

#[test]
fn pass_zone_without_next_level_succeeds() {
    let mut resource = LevelResource { id: 7 };
    let r = TileMap::pass(&mut resource, None, true);
    assert_eq!(resource.id, 7);
    assert!(!r.reload);
    assert_eq!(r.signal, Some(LevelPass(true)));
    assert_eq!(r.next_scene, Some(GameScene::GameOver));
}

#[test]
fn pass_zone_ignores_other_colliders() {
    let mut resource = LevelResource { id: 7 };
    let r = TileMap::pass(&mut resource, Some(3), false);
    assert_eq!(resource.id, 7);
    assert!(!r.reload);
    assert_eq!(r.signal, None);
}

#[test]
fn reload_discards_level_and_player() {
    let (level, player) = TileMap::reload_targets();
    assert_eq!(level, LevelState::Loading);
    assert_eq!(player, PlayerState::Prepare);
}

#[test]
fn tilemap_parse_spawns_every_placement() {
    let level = LevelAsset {
        rows: 2,
        cols: 3,
        data: vec![
            TileDescriptor {
                tile_pos: Vec2 { x: 16000, y: 16000 },
                tile_typ: TileType::Wall,
                rotation: 0,
            },
            TileDescriptor {
                tile_pos: Vec2 { x: 48000, y: 16000 },
                tile_typ: TileType::Trap,
                rotation: 90000,
            },
            TileDescriptor {
                tile_pos: Vec2 { x: 80000, y: 16000 },
                tile_typ: TileType::Pass,
                rotation: 0,
            },
        ],
        entry: Vec2 { x: 16000, y: 48000 },
        next: None,
    };
    let spawns = TileMap::parse(&level);
    assert_eq!(spawns.len(), 3);
    assert_eq!(spawns[0].tile_typ, TileType::Wall);
    assert_eq!(spawns[0].tile_pos, Vec2 { x: 16000, y: 16000 });
    assert_eq!(spawns[1].tile_typ, TileType::Trap);
    assert_eq!(spawns[1].rotation, 90000);
    assert_eq!(spawns[2].tile_typ, TileType::Pass);
}

#[test]
fn level_ready_waits_for_the_loader() {
    assert_eq!(Level::ready(false), None);
    assert_eq!(Level::ready(true), Some(LevelState::Running));
    assert_eq!(Level::init(), LevelState::Loading);
    assert!(Level::is_runnable(InGameState::Running, LevelState::Running));
    assert!(!Level::is_runnable(InGameState::Paused, LevelState::Running));
    assert!(!Level::is_runnable(InGameState::Running, LevelState::Loading));
}

#[test]
fn texture_atlas_indices() {
    assert_eq!(TileType::Wall.texture_atlas_index(), 36);
    assert_eq!(TileType::Trap.texture_atlas_index(), 194);
    assert_eq!(TileType::Pass.texture_atlas_index(), 0);
}

#[test]
fn data_path_names_the_level_file() {
    assert_eq!(LevelResource::data_path(0), "data/level0.m");
    assert_eq!(LevelResource::data_path(3), "data/level3.m");
    assert_eq!(LevelResource::data_path(42), "data/level42.m");
}

#[test]
fn decimal_rendering_is_exact() {
    assert_eq!(usize_to_string(0), "0");
    assert_eq!(usize_to_string(7), "7");
    assert_eq!(usize_to_string(120), "120");
    assert_eq!(usize_to_string(65536), "65536");
    assert_eq!(usize_to_string(1000000), "1000000");
}

#[test]
fn scene_cycle() {
    assert_eq!(GameScene::Start.next(), GameScene::InGame);
    assert_eq!(GameScene::InGame.next(), GameScene::GameOver);
    assert_eq!(GameScene::GameOver.next(), GameScene::Start);
    assert_eq!(InGameState::Running.next(), InGameState::Paused);
    assert_eq!(InGameState::Paused.next(), InGameState::Running);
}

#[test]
fn pause_toggle_decisions() {
    assert_eq!(InGmaeScene::update(true, InGameState::Running), Some(InGameState::Paused));
    assert_eq!(InGmaeScene::update(true, InGameState::Paused), Some(InGameState::Running));
    assert_eq!(InGmaeScene::update(false, InGameState::Running), None);
    assert_eq!(Paused::update(true, InGameState::Paused), Some(InGameState::Running));
    assert_eq!(Paused::update(false, InGameState::Paused), None);
}

#[test]
fn game_over_presentation() {
    assert_eq!(GameOverScene::message(LevelPass(true)), "you win");
    assert_eq!(GameOverScene::message(LevelPass(false)), "game over");
    assert_eq!(GameOverScene::update(true), Some(GameScene::Start));
    assert_eq!(GameOverScene::update(false), None);
}

#[test]
fn start_menu_decisions() {
    let r = StartScene::update(true, false);
    assert_eq!(r.level_init.map(|e| e.0), Some(0));
    assert_eq!(r.next_scene, Some(GameScene::InGame));
    assert!(!r.exit);
    let idle = StartScene::update(false, true);
    assert_eq!(idle.level_init, None);
    assert_eq!(idle.next_scene, None);
    assert!(idle.exit);
}

#[test]
fn tilemap_pause_toggles_animations() {
    let mut playing = vec![true, false, true];
    TileMap::pause(&mut playing);
    assert_eq!(playing, vec![false, true, false]);
}
