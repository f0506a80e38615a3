use sara_core::geom::Direction;
use sara_core::geom::Rgb;
use sara_core::geom::Vec2;
use sara_core::input::InputSnapshot;
use sara_core::level::LevelPass;
use sara_core::player::GridLayout;
use sara_core::player::PlayerResource;
use sara_core::player::HP;
use sara_core::player::MarginSetting;
use sara_core::player::PlayerAsepriteType;
use sara_core::player::PlayerManager;
use sara_core::player::PlayerRunningState;
use sara_core::player::RayState;
use sara_core::player::TimerSetting;
use sara_core::player::JUMP_SPEED;
use sara_core::player::MAX_HP;
use sara_core::player::VELOCITY_SPEED;
use sara_core::sensors::PlayerCheckers;
use sara_core::sensors::SensorReadings;

fn no_input() -> InputSnapshot {
    InputSnapshot { left: false, right: false, jump_held: false, jump_just_pressed: false }
}

fn open_ground() -> SensorReadings {
    SensorReadings { ground: true, wall_front: false, wall_back: false }
}

fn airborne() -> SensorReadings {
    SensorReadings { ground: false, wall_front: false, wall_back: false }
}

#[test]
fn spawn_starts_falling_at_entry() {
    let m = PlayerManager::init(Vec2::new(100000, 200000));
    assert_eq!(m.pos, Vec2 { x: 100000, y: 200000 });
    assert_eq!(m.vel, Vec2 { x: 0, y: 0 });
    assert!(m.facing_right);
    assert_eq!(m.state, PlayerRunningState::Fall);
    assert_eq!(m.hp, HP(MAX_HP));
    assert!(!m.waiting);
}

#[test]
fn falling_integrates_gravity_each_tick() {
    let mut m = PlayerManager::init(Vec2::new(0, 0));
    m.advance(airborne(), no_input(), 16);
    assert_eq!(m.vel.y, -4800);
    assert_eq!(m.state, PlayerRunningState::Fall);
    m.advance(airborne(), no_input(), 16);
    assert_eq!(m.vel.y, -9600);
    m.advance(airborne(), no_input(), 20);
    assert_eq!(m.vel.y, -15600);
    assert_eq!(m.state, PlayerRunningState::Fall);
}

#[test]
fn fall_corrects_to_idle_on_ground() {
    let mut m = PlayerManager::init(Vec2::new(100000, 200000));
    let anim = m.advance(open_ground(), no_input(), 16);
    assert_eq!(m.state, PlayerRunningState::Idle);
    let cmd = anim.expect("entering Idle must switch the animation");
    assert_eq!(cmd.mode, PlayerAsepriteType::Idle);
    assert!(!cmd.playing);
}

#[test]
fn jump_enterable_only_from_idle_and_walk() {
    let jump_tap = InputSnapshot {
        left: false,
        right: false,
        jump_held: true,
        jump_just_pressed: true,
    };

    // From Idle.
    let mut idle = PlayerManager::init(Vec2::new(0, 0));
    idle.advance(open_ground(), no_input(), 16);
    assert_eq!(idle.state, PlayerRunningState::Idle);
    idle.advance(open_ground(), jump_tap, 16);
    assert_eq!(idle.state, PlayerRunningState::Jump);
    assert_eq!(idle.vel.y, JUMP_SPEED);

    // From Fall: the input changes nothing about the state.
    let mut fall = PlayerManager::init(Vec2::new(0, 0));
    fall.advance(airborne(), jump_tap, 16);
    assert_eq!(fall.state, PlayerRunningState::Fall);
    assert_eq!(fall.vel.y, -4800);

    // From Jump: no double jump.
    let mut jumper = PlayerManager::init(Vec2::new(0, 0));
    jumper.advance(open_ground(), no_input(), 16);
    jumper.advance(open_ground(), jump_tap, 16);
    assert_eq!(jumper.state, PlayerRunningState::Jump);
    let vy = jumper.vel.y;
    jumper.advance(airborne(), jump_tap, 16);
    assert_eq!(jumper.state, PlayerRunningState::Jump);
    assert_eq!(jumper.vel.y, vy);
}

#[test]
fn releasing_jump_mid_ascent_truncates() {
    let mut m = PlayerManager::init(Vec2::new(0, 0));
    m.advance(open_ground(), no_input(), 16);
    let jump_tap = InputSnapshot {
        left: false,
        right: false,
        jump_held: true,
        jump_just_pressed: true,
    };
    m.advance(open_ground(), jump_tap, 16);
    assert_eq!(m.state, PlayerRunningState::Jump);
    assert!(m.vel.y > 0);
    let released = InputSnapshot {
        left: false,
        right: false,
        jump_held: false,
        jump_just_pressed: false,
    };
    let anim = m.advance(airborne(), released, 16);
    assert_eq!(m.vel.y, 0);
    assert_eq!(m.state, PlayerRunningState::Fall);
    let cmd = anim.expect("entering Fall must switch the animation");
    assert_eq!(cmd.mode, PlayerAsepriteType::Fall);
    assert_eq!(cmd.margin, Some(MarginSetting::Unbounded));
}

#[test]
fn horizontal_velocity_rederived_each_tick() {
    let mut m = PlayerManager::init(Vec2::new(0, 0));
    m.advance(open_ground(), no_input(), 16);

    let right = InputSnapshot { left: false, right: true, jump_held: false, jump_just_pressed: false };
    m.advance(open_ground(), right, 16);
    assert_eq!(m.vel.x, VELOCITY_SPEED);
    assert!(m.facing_right);

    // Nothing held: the speed does not persist.
    m.advance(open_ground(), no_input(), 16);
    assert_eq!(m.vel.x, 0);

    // Both directions held: left is checked first and wins.
    let both = InputSnapshot { left: true, right: true, jump_held: false, jump_just_pressed: false };
    m.advance(open_ground(), both, 16);
    assert_eq!(m.vel.x, -VELOCITY_SPEED);
    assert!(!m.facing_right);
}

#[test]
fn walking_into_wall_keeps_velocity_zero() {
    let mut m = PlayerManager::init(Vec2::new(0, 0));
    m.advance(open_ground(), no_input(), 16);
    assert_eq!(m.state, PlayerRunningState::Idle);
    let right = InputSnapshot { left: false, right: true, jump_held: false, jump_just_pressed: false };
    let walled = SensorReadings { ground: true, wall_front: true, wall_back: false };
    m.advance(walled, right, 16);
    assert_eq!(m.vel.x, 0);
    assert_eq!(m.state, PlayerRunningState::Idle);

    // The opposite side is not blocked.
    let left = InputSnapshot { left: true, right: false, jump_held: false, jump_just_pressed: false };
    m.advance(walled, left, 16);
    assert_eq!(m.vel.x, -VELOCITY_SPEED);
}

#[test]
fn full_run_scenario() {
    // Spawn on solid ground at the entry point.
    let mut m = PlayerManager::init(Vec2::new(100000, 200000));
    assert_eq!(m.state, PlayerRunningState::Fall);

    // One tick of sensing corrects the spawn state to Idle.
    m.advance(open_ground(), no_input(), 16);
    assert_eq!(m.state, PlayerRunningState::Idle);

    // Hold right with no wall ahead: walk speed, facing right, Walk.
    let right = InputSnapshot { left: false, right: true, jump_held: false, jump_just_pressed: false };
    let anim = m.advance(open_ground(), right, 16);
    assert_eq!(m.vel.x, VELOCITY_SPEED);
    assert!(m.facing_right);
    assert_eq!(m.state, PlayerRunningState::Walk);
    let cmd = anim.expect("entering Walk must switch the animation");
    assert_eq!(cmd.mode, PlayerAsepriteType::Walk);
    assert!(cmd.playing);
    assert_eq!(cmd.indices, Some((0, 2)));
    assert_eq!(cmd.timer, Some(TimerSetting { millis: 100, repeating: true }));
    assert_eq!(cmd.margin, Some(MarginSetting::Zero));

    // Press jump: upward impulse, Jump.
    let jump = InputSnapshot { left: false, right: true, jump_held: true, jump_just_pressed: true };
    let anim = m.advance(open_ground(), jump, 16);
    assert_eq!(m.vel.y, JUMP_SPEED);
    assert!(JUMP_SPEED >= 233000 && JUMP_SPEED <= 250000);
    assert_eq!(m.state, PlayerRunningState::Jump);
    assert_eq!(anim.expect("entering Jump").mode, PlayerAsepriteType::Jump);

    // Release jump mid-ascent: velocity snaps to zero, Fall.
    let released = InputSnapshot { left: false, right: true, jump_held: false, jump_just_pressed: false };
    m.advance(airborne(), released, 16);
    assert_eq!(m.vel.y, 0);
    assert_eq!(m.state, PlayerRunningState::Fall);

    // Ground regained: Idle.
    m.advance(open_ground(), no_input(), 16);
    assert_eq!(m.state, PlayerRunningState::Idle);
}

#[test]
fn hazard_contact_chain() {
    let mut m = PlayerManager::init(Vec2::new(0, 0));
    assert_eq!(m.hp, HP(2));

    // No contact: nothing happens.
    assert_eq!(m.hurt(false), None);
    assert_eq!(m.hp, HP(2));

    // First hit: one point lost, no outcome signal.
    assert_eq!(m.hurt(true), None);
    assert_eq!(m.hp, HP(1));

    // Last point: the failed outcome, and hit points never reach zero.
    assert_eq!(m.hurt(true), Some(LevelPass(false)));
    assert_eq!(m.hp, HP(1));
}

#[test]
fn pause_freezes_the_tick() {
    let mut m = PlayerManager::init(Vec2::new(0, 0));
    let playing = m.pause();
    assert!(!playing);
    assert!(m.waiting);
    let before = m;
    m.advance(airborne(), no_input(), 16);
    assert_eq!(m, before);
    let playing = m.pause();
    assert!(playing);
    assert!(!m.waiting);
}

#[test]
fn probe_layout_matches_the_body() {
    let probes = PlayerCheckers::add_to();
    assert_eq!(probes.len(), 6);
    assert_eq!(probes[0].origin, Vec2 { x: 4600, y: -15750 });
    assert_eq!(probes[0].direction, Direction::Down);
    assert_eq!(probes[0].max_distance, 16000);
    assert_eq!(probes[1].origin, Vec2 { x: -4600, y: -15750 });
    assert_eq!(probes[2].origin, Vec2 { x: 4600, y: -16800 });
    assert_eq!(probes[2].direction, Direction::Right);
    assert_eq!(probes[2].max_distance, 6000);
    assert_eq!(probes[3].origin, Vec2 { x: 4600, y: 16800 });
    assert_eq!(probes[4].origin, Vec2 { x: -4600, y: -16800 });
    assert_eq!(probes[4].direction, Direction::Left);
    assert_eq!(probes[5].origin, Vec2 { x: -4600, y: 16800 });
    for p in &probes {
        assert_eq!(p.max_hits, 1);
    }
}

#[test]
fn sensor_groups_use_or_semantics() {
    let r = SensorReadings::from_probes(false, true, false, false, true, false);
    assert!(r.ground);
    assert!(!r.wall_front);
    assert!(r.wall_back);
    let none = SensorReadings::from_probes(false, false, false, false, false, false);
    assert!(!none.ground && !none.wall_front && !none.wall_back);
}

#[test]
fn render_rays_draws_hits_green() {
    let rays = vec![
        RayState {
            origin: Vec2 { x: 1000, y: 2000 },
            direction: Direction::Down,
            max_distance: 16000,
            hit: true,
        },
        RayState {
            origin: Vec2 { x: -500, y: 0 },
            direction: Direction::Right,
            max_distance: 6000,
            hit: false,
        },
    ];
    let lines = PlayerManager::render_rays(&rays);
    assert_eq!(lines.len(), 2);
    assert_eq!(lines[0].start, Vec2 { x: 1000, y: 2000 });
    assert_eq!(lines[0].end, Vec2 { x: 1000, y: -14000 });
    assert_eq!(lines[0].color, Rgb { r: 0, g: 200, b: 0 });
    assert_eq!(lines[1].end, Vec2 { x: 5500, y: 0 });
    assert_eq!(lines[1].color, Rgb { r: 200, g: 0, b: 0 });
}

#[test]
fn aseprite_names_and_frames() {
    assert_eq!(PlayerAsepriteType::Jump.name(), "jump");
    assert_eq!(PlayerAsepriteType::Walk.name(), "walk");
    assert_eq!(PlayerAsepriteType::Idle.name(), "idle");
    assert_eq!(PlayerAsepriteType::Fall.name(), "fall");
    assert_eq!(PlayerAsepriteType::Jump.frame_count(), 3);
    assert_eq!(PlayerAsepriteType::Walk.frame_count(), 3);
    assert_eq!(PlayerAsepriteType::Idle.frame_count(), 1);
    assert_eq!(PlayerAsepriteType::Fall.frame_count(), 1);
    let layout = PlayerAsepriteType::Walk.layout();
    assert_eq!(layout, GridLayout { tile_w: 48, tile_h: 48, cols: 3, rows: 1 });
    assert_eq!(PlayerResource::texture_path("walk"), "images/sara/walk.png");
}
