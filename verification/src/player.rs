//! The player: locomotion state machine, hazard/health model, spawn rules
//! and the debug-ray overlay.
//!
//! Each simulation tick the engine samples the sensors and the input, then
//! calls [`PlayerManager::advance`], which resolves horizontal movement from
//! the input, runs the per-state update of the current locomotion state, and
//! reports the animation switch of the state entered, if any. Hazard and
//! pass-zone contacts are delivered separately as collision-start events.

use vstd::prelude::*;

use crate::geom::Direction;
use crate::geom::Rgb;
use crate::geom::Vec2;
use crate::input::InputSnapshot;
use crate::level::LevelPass;
use crate::sensors::SensorReadings;

verus! {

/// Walk speed, milliunits per second (120 units/s).
pub const VELOCITY_SPEED: i64 = 120000;

/// Upward velocity impulse applied on entering Jump, milliunits per second
/// (250 units/s).
pub const JUMP_SPEED: i64 = 250000;

/// Downward gravity per millisecond of fall, in milliunits per second
/// (300 units/s^2).
pub const GRAVITY_PER_MS: i64 = 300;

/// Vertical speeds strictly below this magnitude count as "at rest" when
/// Idle decides to start walking (1 unit/s).
pub const IDLE_VERTICAL_EPS: i64 = 1000;

/// Hit points a player spawns with.
pub const MAX_HP: usize = 2;

/// Remaining hit points. While the player is alive this stays between 1 and
/// [`MAX_HP`]: the last point of damage triggers defeat directly instead of
/// ever showing zero.
#[derive(Clone, Copy, PartialEq, Eq, Structural, Debug)]
pub struct HP(pub usize);

impl Default for HP {
    fn default() -> (r: Self)
        ensures
            r.0 == MAX_HP,
    {
        HP(MAX_HP)
    }
}

/// Lifecycle of the player within one level run.
#[derive(Clone, Copy, PartialEq, Eq, Structural, Debug)]
pub enum PlayerState {
    Prepare,
    Loading,
    Running,
}

impl Default for PlayerState {
    fn default() -> (r: Self)
        ensures
            r is Prepare,
    {
        PlayerState::Prepare
    }
}

/// The locomotion state: exactly one of the four movement modes is active
/// at a time. A fresh spawn starts in Fall and lets one tick of ground
/// sensing correct it to Idle.
#[derive(Clone, Copy, PartialEq, Eq, Structural, Debug)]
pub enum PlayerRunningState {
    Fall,
    Jump,
    Walk,
    Idle,
}

impl Default for PlayerRunningState {
    fn default() -> (r: Self)
        ensures
            r is Fall,
    {
        PlayerRunningState::Fall
    }
}

/// The sprite sequence of each locomotion state.
#[derive(Clone, Copy, PartialEq, Eq, Structural, Debug, Hash)]
pub enum PlayerAsepriteType {
    Jump,
    Walk,
    Idle,
    Fall,
}

impl PlayerAsepriteType {
    /// Name of the sprite sheet, as used in its asset path.
    pub fn name(&self) -> (r: &'static str)
        ensures
            self is Jump ==> r@ == "jump"@,
            self is Walk ==> r@ == "walk"@,
            self is Idle ==> r@ == "idle"@,
            self is Fall ==> r@ == "fall"@,
    {
        match self {
            PlayerAsepriteType::Jump => "jump",
            PlayerAsepriteType::Walk => "walk",
            PlayerAsepriteType::Idle => "idle",
            PlayerAsepriteType::Fall => "fall",
        }
    }

    pub open spec fn frame_count_spec(self) -> usize {
        match self {
            PlayerAsepriteType::Jump => 3,
            PlayerAsepriteType::Walk => 3,
            PlayerAsepriteType::Idle => 1,
            PlayerAsepriteType::Fall => 1,
        }
    }

    /// Number of frames in the sprite sequence.
    pub fn frame_count(&self) -> (r: usize)
        ensures
            r == self.frame_count_spec(),
            r >= 1,
    {
        match self {
            PlayerAsepriteType::Jump => 3,
            PlayerAsepriteType::Walk => 3,
            PlayerAsepriteType::Idle => 1,
            PlayerAsepriteType::Fall => 1,
        }
    }

    /// The frame grid of the sprite sheet: one row of square frames, one
    /// column per frame.
    pub fn layout(&self) -> (r: GridLayout)
        ensures
            r.tile_w == PLAYER_TEXTURE_SIZE,
            r.tile_h == PLAYER_TEXTURE_SIZE,
            r.cols == self.frame_count_spec(),
            r.rows == 1,
    {
        let cols = match self {
            PlayerAsepriteType::Jump => 3,
            PlayerAsepriteType::Walk => 3,
            PlayerAsepriteType::Idle => 1,
            PlayerAsepriteType::Fall => 1,
        };
        GridLayout { tile_w: PLAYER_TEXTURE_SIZE, tile_h: PLAYER_TEXTURE_SIZE, cols, rows: 1 }
    }
}

/// Side length of one player sprite frame, in pixels.
pub const PLAYER_TEXTURE_SIZE: u32 = 48;

/// The frame grid of one sprite sheet.
#[derive(Clone, Copy, PartialEq, Eq, Structural, Debug)]
pub struct GridLayout {
    pub tile_w: u32,
    pub tile_h: u32,
    pub cols: u32,
    pub rows: u32,
}

/// The player's sprite sheets, one per locomotion state, named after it.
pub struct PlayerResource;

impl PlayerResource {
    /// The asset path of a sprite sheet with the given name.
    pub fn texture_path(texture_name: &str) -> (r: String)
        ensures
            r@ == "images/sara/"@ + texture_name@ + ".png"@,
    {
        let mut s = String::from_str("images/sara/");
        s.append(texture_name);
        s.append(".png");
        s
    }
}

/// How the animation timer of an entered state is configured.
#[derive(Clone, Copy, PartialEq, Eq, Structural, Debug)]
pub struct TimerSetting {
    pub millis: u64,
    pub repeating: bool,
}

/// The speculative contact margin requested of the physics collaborator.
#[derive(Clone, Copy, PartialEq, Eq, Structural, Debug)]
pub enum MarginSetting {
    Unbounded,
    Zero,
}

/// The animation switch emitted when a locomotion state is entered: which
/// sprite sequence to show, whether it plays, and — where the state sets
/// them — the frame range, the frame timer and the contact margin.
#[derive(Clone, Copy, PartialEq, Eq, Debug)]
pub struct AnimationCommand {
    pub mode: PlayerAsepriteType,
    pub playing: bool,
    pub indices: Option<(usize, usize)>,
    pub timer: Option<TimerSetting>,
    pub margin: Option<MarginSetting>,
}

/// The per-run player state owned by this core: body position and velocity,
/// facing, locomotion state, hit points, and the pause flag.
///
/// Positions are milliunits; velocities milliunits per second. The facing
/// flag mirrors the sprite flip: true when the player faces right.
#[derive(Clone, Copy, PartialEq, Eq, Structural, Debug)]
pub struct PlayerManager {
    pub pos: Vec2,
    pub vel: Vec2,
    pub facing_right: bool,
    pub state: PlayerRunningState,
    pub hp: HP,
    pub waiting: bool,
}

/// The animation switch performed on entering a state.
pub open spec fn enter_command_spec(state: PlayerRunningState) -> AnimationCommand {
    match state {
        PlayerRunningState::Fall => AnimationCommand {
            mode: PlayerAsepriteType::Fall,
            playing: false,
            indices: None,
            timer: None,
            margin: Some(MarginSetting::Unbounded),
        },
        PlayerRunningState::Idle => AnimationCommand {
            mode: PlayerAsepriteType::Idle,
            playing: false,
            indices: None,
            timer: None,
            margin: None,
        },
        PlayerRunningState::Jump => AnimationCommand {
            mode: PlayerAsepriteType::Jump,
            playing: true,
            indices: Some((0, 2)),
            timer: Some(TimerSetting { millis: 100, repeating: false }),
            margin: None,
        },
        PlayerRunningState::Walk => AnimationCommand {
            mode: PlayerAsepriteType::Walk,
            playing: true,
            indices: Some((0, 2)),
            timer: Some(TimerSetting { millis: 100, repeating: true }),
            margin: Some(MarginSetting::Zero),
        },
    }
}

/// Horizontal input resolution and the jump impulse, run first each tick.
///
/// Horizontal velocity is reset and re-derived from the held inputs: the
/// left input is checked first and returns early, so when both directions
/// are held, left wins. A held direction is ignored while the wall sensor on
/// that side reports contact, which keeps velocity from pinning the player
/// against a wall. The jump impulse is applied only from Idle or Walk, on
/// the tick the jump input goes down.
pub open spec fn handle_input_spec(
    m: PlayerManager,
    input: InputSnapshot,
    sensors: SensorReadings,
) -> PlayerManager {
    let jumped = (m.state is Idle || m.state is Walk) && input.jump_just_pressed;
    let vy = if jumped {
        JUMP_SPEED
    } else {
        m.vel.y
    };
    let state = if jumped {
        PlayerRunningState::Jump
    } else {
        m.state
    };
    if input.left && !sensors.wall_back {
        PlayerManager {
            state,
            vel: Vec2 { x: ((-VELOCITY_SPEED) as i64), y: vy },
            facing_right: false,
            ..m
        }
    } else if input.right && !sensors.wall_front {
        PlayerManager { state, vel: Vec2 { x: VELOCITY_SPEED, y: vy }, facing_right: true, ..m }
    } else {
        PlayerManager { state, vel: Vec2 { x: 0, y: vy }, ..m }
    }
}

/// Per-tick update while falling: regaining ground contact transitions to
/// Idle, otherwise gravity is integrated into the vertical velocity.
pub open spec fn on_fall_spec(m: PlayerManager, ground: bool, dt_ms: u32) -> PlayerManager {
    if ground {
        PlayerManager { state: PlayerRunningState::Idle, ..m }
    } else {
        PlayerManager {
            vel: Vec2 {
                x: m.vel.x,
                y: (m.vel.y - (GRAVITY_PER_MS as int) * (dt_ms as int)) as i64,
            },
            ..m
        }
    }
}

/// Per-tick update while idle: walking starts once horizontal speed has
/// reached the walk speed and the body is vertically at rest.
pub open spec fn on_idle_spec(m: PlayerManager) -> PlayerManager {
    if (m.vel.x == VELOCITY_SPEED || m.vel.x == -VELOCITY_SPEED) && -IDLE_VERTICAL_EPS < m.vel.y
        < IDLE_VERTICAL_EPS {
        PlayerManager { state: PlayerRunningState::Walk, ..m }
    } else {
        m
    }
}

/// Per-tick update while jumping: releasing the jump input while still
/// ascending zeroes the vertical velocity (variable jump height), and once
/// the vertical velocity is no longer positive the state falls.
pub open spec fn on_jump_spec(m: PlayerManager, jump_held: bool) -> PlayerManager {
    let vy: i64 = if !jump_held && m.vel.y > 0 {
        0
    } else {
        m.vel.y
    };
    if vy <= 0 {
        PlayerManager { state: PlayerRunningState::Fall, vel: Vec2 { x: m.vel.x, y: vy }, ..m }
    } else {
        PlayerManager { vel: Vec2 { x: m.vel.x, y: vy }, ..m }
    }
}

/// Per-tick update while walking: losing ground contact falls, and a stop
/// (horizontal velocity zero) returns to Idle.
pub open spec fn on_walk_spec(m: PlayerManager, ground: bool) -> PlayerManager {
    if !ground {
        PlayerManager { state: PlayerRunningState::Fall, ..m }
    } else if m.vel.x == 0 {
        PlayerManager { state: PlayerRunningState::Idle, ..m }
    } else {
        m
    }
}

/// One full tick of the locomotion state machine: input resolution first,
/// then the per-state update of the current state. A jump triggered by the
/// input pre-empts the per-state transition of the state it left.
/// While the player is waiting (paused), the tick does nothing.
pub open spec fn advance_spec(
    m: PlayerManager,
    sensors: SensorReadings,
    input: InputSnapshot,
    dt_ms: u32,
) -> PlayerManager {
    if m.waiting {
        m
    } else {
        let m1 = handle_input_spec(m, input, sensors);
        if m1.state != m.state {
            m1
        } else {
            match m.state {
                PlayerRunningState::Fall => on_fall_spec(m1, sensors.ground, dt_ms),
                PlayerRunningState::Jump => on_jump_spec(m1, input.jump_held),
                PlayerRunningState::Walk => on_walk_spec(m1, sensors.ground),
                PlayerRunningState::Idle => on_idle_spec(m1),
            }
        }
    }
}

/// How the player reacts to one hazard contact: above one hit point the
/// contact costs a point; on the last point nothing is deducted and the
/// failed outcome is raised instead.
pub open spec fn hurt_spec(m: PlayerManager, hazard_contact: bool) -> PlayerManager {
    if hazard_contact && m.hp.0 > 1 {
        PlayerManager { hp: HP((m.hp.0 - 1) as usize), ..m }
    } else {
        m
    }
}

/// The outcome signal of one hazard contact: `LevelPass(false)` exactly when
/// the contact hits the last hit point.
pub open spec fn hurt_signal_spec(m: PlayerManager, hazard_contact: bool) -> Option<LevelPass> {
    if hazard_contact && m.hp.0 == 1 {
        Some(LevelPass(false))
    } else {
        None
    }
}

impl PlayerManager {
    /// Health stays in range while the player is alive.
    pub open spec fn wf(self) -> bool {
        1 <= self.hp.0 <= MAX_HP
    }

    /// Spawn the player at the level's entry point: at rest, facing right,
    /// full health, in Fall (one tick of ground sensing corrects a grounded
    /// spawn to Idle), not paused.
    pub fn init(entry: Vec2) -> (r: PlayerManager)
        ensures
            r.pos == entry,
            r.vel == (Vec2 { x: 0, y: 0 }),
            r.facing_right,
            r.state is Fall,
            r.hp.0 == MAX_HP,
            !r.waiting,
            r.wf(),
    {
        PlayerManager {
            pos: entry,
            vel: Vec2 { x: 0, y: 0 },
            facing_right: true,
            state: PlayerRunningState::default(),
            hp: HP::default(),
            waiting: false,
        }
    }

    /// Resolve the held inputs into horizontal velocity and facing, and
    /// apply the jump impulse where allowed. See [`handle_input_spec`].
    pub fn handle_input(&mut self, input: InputSnapshot, sensors: SensorReadings)
        ensures
            *final(self) == handle_input_spec(*old(self), input, sensors),
    {
        self.vel.x = 0;
        if (matches!(self.state, PlayerRunningState::Walk)
            || matches!(self.state, PlayerRunningState::Idle)) && input.jump_just_pressed {
            self.vel.y = JUMP_SPEED;
            self.state = PlayerRunningState::Jump;
        }
        if input.left && !sensors.wall_back {
            self.facing_right = false;
            self.vel.x = -VELOCITY_SPEED;
            return ;
        }
        if input.right && !sensors.wall_front {
            self.facing_right = true;
            self.vel.x = VELOCITY_SPEED;
        }
    }

    /// Per-tick update of the Fall state. See [`on_fall_spec`].
    pub fn on_fall(&mut self, ground: bool, dt_ms: u32)
        requires
            !ground ==> old(self).vel.y - (GRAVITY_PER_MS as int) * (dt_ms as int) >= i64::MIN,
        ensures
            *final(self) == on_fall_spec(*old(self), ground, dt_ms),
    {
        if ground {
            self.state = PlayerRunningState::Idle;
            return ;
        }
        self.vel.y = self.vel.y - GRAVITY_PER_MS * (dt_ms as i64);
    }

    /// Per-tick update of the Idle state. See [`on_idle_spec`].
    pub fn on_idle(&mut self)
        ensures
            *final(self) == on_idle_spec(*old(self)),
    {
        if (self.vel.x == VELOCITY_SPEED || self.vel.x == -VELOCITY_SPEED) && self.vel.y
            > -IDLE_VERTICAL_EPS && self.vel.y < IDLE_VERTICAL_EPS {
            self.state = PlayerRunningState::Walk;
        }
    }

    /// Per-tick update of the Jump state. See [`on_jump_spec`].
    pub fn on_jump(&mut self, jump_held: bool)
        ensures
            *final(self) == on_jump_spec(*old(self), jump_held),
    {
        if !jump_held && self.vel.y > 0 {
            self.vel.y = 0;
        }
        if self.vel.y <= 0 {
            self.state = PlayerRunningState::Fall;
        }
    }

    /// Per-tick update of the Walk state. See [`on_walk_spec`].
    pub fn on_walk(&mut self, ground: bool)
        ensures
            *final(self) == on_walk_spec(*old(self), ground),
    {
        if !ground {
            self.state = PlayerRunningState::Fall;
            return ;
        }
        if self.vel.x == 0 {
            self.state = PlayerRunningState::Idle;
        }
    }

    /// Animation switch on entering Fall.
    pub fn enter_fall() -> (r: AnimationCommand)
        ensures
            r == enter_command_spec(PlayerRunningState::Fall),
    {
        AnimationCommand {
            mode: PlayerAsepriteType::Fall,
            playing: false,
            indices: None,
            timer: None,
            margin: Some(MarginSetting::Unbounded),
        }
    }

    /// Animation switch on entering Idle.
    pub fn enter_idle() -> (r: AnimationCommand)
        ensures
            r == enter_command_spec(PlayerRunningState::Idle),
    {
        AnimationCommand {
            mode: PlayerAsepriteType::Idle,
            playing: false,
            indices: None,
            timer: None,
            margin: None,
        }
    }

    /// Animation switch on entering Jump: the one-shot jump sequence.
    pub fn enter_jump() -> (r: AnimationCommand)
        ensures
            r == enter_command_spec(PlayerRunningState::Jump),
    {
        AnimationCommand {
            mode: PlayerAsepriteType::Jump,
            playing: true,
            indices: Some((0, 2)),
            timer: Some(TimerSetting { millis: 100, repeating: false }),
            margin: None,
        }
    }

    /// Animation switch on entering Walk: the looping walk cycle.
    pub fn enter_walk() -> (r: AnimationCommand)
        ensures
            r == enter_command_spec(PlayerRunningState::Walk),
    {
        AnimationCommand {
            mode: PlayerAsepriteType::Walk,
            playing: true,
            indices: Some((0, 2)),
            timer: Some(TimerSetting { millis: 100, repeating: true }),
            margin: Some(MarginSetting::Zero),
        }
    }

    /// One full simulation tick of the locomotion state machine, using this
    /// tick's sensor readings and input snapshot. Returns the animation
    /// switch of the state entered, or `None` when the state is unchanged.
    pub fn advance(
        &mut self,
        sensors: SensorReadings,
        input: InputSnapshot,
        dt_ms: u32,
    ) -> (anim: Option<AnimationCommand>)
        requires
            old(self).state is Fall && !old(self).waiting && !sensors.ground ==> old(self).vel.y - (
            GRAVITY_PER_MS as int) * (dt_ms as int) >= i64::MIN,
        ensures
            *final(self) == advance_spec(*old(self), sensors, input, dt_ms),
            anim == (if final(self).state != old(self).state {
                Some(enter_command_spec(final(self).state))
            } else {
                None::<AnimationCommand>
            }),
    {
        if self.waiting {
            return None;
        }
        let entered_from = self.state;
        self.handle_input(input, sensors);
        if self.state == entered_from {
            match entered_from {
                PlayerRunningState::Fall => self.on_fall(sensors.ground, dt_ms),
                PlayerRunningState::Jump => self.on_jump(input.jump_held),
                PlayerRunningState::Walk => self.on_walk(sensors.ground),
                PlayerRunningState::Idle => self.on_idle(),
            }
        }
        if self.state != entered_from {
            match self.state {
                PlayerRunningState::Fall => Some(Self::enter_fall()),
                PlayerRunningState::Jump => Some(Self::enter_jump()),
                PlayerRunningState::Walk => Some(Self::enter_walk()),
                PlayerRunningState::Idle => Some(Self::enter_idle()),
            }
        } else {
            None
        }
    }

    /// React to one hazard contact (a collision-start event against a
    /// hazard volume). Returns the failed outcome signal when the last hit
    /// point is struck; hit points are never reported as zero.
    pub fn hurt(&mut self, hazard_contact: bool) -> (signal: Option<LevelPass>)
        requires
            old(self).wf(),
        ensures
            *final(self) == hurt_spec(*old(self), hazard_contact),
            signal == hurt_signal_spec(*old(self), hazard_contact),
            final(self).wf(),
    {
        if hazard_contact {
            if self.hp.0 == 1 {
                return Some(LevelPass(false));
            }
            self.hp.0 = self.hp.0 - 1;
        }
        None
    }

    /// Toggle the wait (pause) mode. Returns whether the player animation
    /// should be playing afterwards: false when entering the wait, true when
    /// resuming.
    pub fn pause(&mut self) -> (playing: bool)
        ensures
            final(self).waiting == !old(self).waiting,
            final(self).pos == old(self).pos,
            final(self).vel == old(self).vel,
            final(self).facing_right == old(self).facing_right,
            final(self).state == old(self).state,
            final(self).hp == old(self).hp,
            playing == !final(self).waiting,
    {
        self.waiting = !self.waiting;
        !self.waiting
    }

    /// Compute the debug overlay of the proximity probes: one line per ray,
    /// green where the ray hit, red where it did not.
    pub fn render_rays(rays: &Vec<RayState>) -> (r: Vec<DebugLine>)
        requires
            forall|i: int| 0 <= i < rays@.len() ==> (#[trigger] rays@[i]).wf(),
        ensures
            r@.len() == rays@.len(),
            forall|i: int| 0 <= i < r@.len() ==> #[trigger] r@[i] == debug_line_spec(rays@[i]),
    {
        let mut out: Vec<DebugLine> = Vec::new();
        let mut idx: usize = 0;
        while idx < rays.len()
            invariant
                idx <= rays@.len(),
                out@.len() == idx,
                forall|i: int| 0 <= i < rays@.len() ==> (#[trigger] rays@[i]).wf(),
                forall|i: int| 0 <= i < idx ==> #[trigger] out@[i] == debug_line_spec(rays@[i]),
            decreases rays@.len() - idx,
        {
            let ray = rays[idx];
            let end = match ray.direction {
                Direction::Left => Vec2 { x: ray.origin.x - ray.max_distance, y: ray.origin.y },
                Direction::Right => Vec2 { x: ray.origin.x + ray.max_distance, y: ray.origin.y },
                Direction::Down => Vec2 { x: ray.origin.x, y: ray.origin.y - ray.max_distance },
                Direction::Up => Vec2 { x: ray.origin.x, y: ray.origin.y + ray.max_distance },
            };
            let color = if ray.hit {
                Rgb { r: 0, g: 200, b: 0 }
            } else {
                Rgb { r: 200, g: 0, b: 0 }
            };
            proof {
                match ray.direction {
                    Direction::Left => assert(ray.direction.dx_spec() == -1),
                    Direction::Right => assert(ray.direction.dx_spec() == 1),
                    Direction::Down => assert(ray.direction.dy_spec() == -1),
                    Direction::Up => assert(ray.direction.dy_spec() == 1),
                }
                assert(debug_line_spec(ray) == (DebugLine { start: ray.origin, end, color }));
            }
            out.push(DebugLine { start: ray.origin, end, color });
            idx = idx + 1;
        }
        out
    }
}

/// What the physics collaborator reports of one probe ray: its placement and
/// whether it currently hits.
#[derive(Clone, Copy, PartialEq, Eq, Structural, Debug)]
pub struct RayState {
    pub origin: Vec2,
    pub direction: Direction,
    /// Cast length in milliunits.
    pub max_distance: i64,
    pub hit: bool,
}

/// Bound on the debug-overlay coordinates, milliunits.
pub const RAY_COORD_LIMIT: i64 = 0x200000000000;

impl RayState {
    pub open spec fn wf(self) -> bool {
        &&& -RAY_COORD_LIMIT <= self.origin.x <= RAY_COORD_LIMIT
        &&& -RAY_COORD_LIMIT <= self.origin.y <= RAY_COORD_LIMIT
        &&& 0 <= self.max_distance <= RAY_COORD_LIMIT
    }
}

/// One line of the debug overlay.
#[derive(Clone, Copy, PartialEq, Eq, Structural, Debug)]
pub struct DebugLine {
    pub start: Vec2,
    pub end: Vec2,
    pub color: Rgb,
}

/// In every tick spent in Fall with no ground contact, the vertical
/// velocity decreases by exactly gravity times the time step — strictly,
/// whenever the step is not empty. (Stated away from the `i64` underflow
/// bound, which a session cannot reach.)
pub proof fn lemma_fall_gravity(
    m: PlayerManager,
    sensors: SensorReadings,
    input: InputSnapshot,
    dt_ms: u32,
)
    requires
        m.state is Fall,
        !m.waiting,
        !sensors.ground,
        m.vel.y - (GRAVITY_PER_MS as int) * (dt_ms as int) >= i64::MIN,
    ensures
        advance_spec(m, sensors, input, dt_ms).vel.y == m.vel.y - (GRAVITY_PER_MS as int) * (
        dt_ms as int),
        dt_ms > 0 ==> advance_spec(m, sensors, input, dt_ms).vel.y < m.vel.y,
        advance_spec(m, sensors, input, dt_ms).state is Fall,
{
}

/// Jump is entered only from Idle or Walk, and only on a tick whose input
/// snapshot reports the jump key going down.
pub proof fn lemma_jump_only_from_ground(
    m: PlayerManager,
    sensors: SensorReadings,
    input: InputSnapshot,
    dt_ms: u32,
)
    requires
        !(m.state is Jump),
        advance_spec(m, sensors, input, dt_ms).state is Jump,
    ensures
        m.state is Idle || m.state is Walk,
        input.jump_just_pressed,
        !m.waiting,
{
}

/// A jump attempt while airborne has no effect: in Jump or Fall, two ticks
/// whose inputs differ only in the jump-pressed edge leave the player in the
/// same state (and with the same velocity).
pub proof fn lemma_jump_input_ignored_airborne(
    m: PlayerManager,
    sensors: SensorReadings,
    input_a: InputSnapshot,
    input_b: InputSnapshot,
    dt_ms: u32,
)
    requires
        m.state is Jump || m.state is Fall,
        input_a.left == input_b.left,
        input_a.right == input_b.right,
        input_a.jump_held == input_b.jump_held,
    ensures
        advance_spec(m, sensors, input_a, dt_ms) == advance_spec(m, sensors, input_b, dt_ms),
{
}

/// Releasing the jump input while still ascending zeroes the vertical
/// velocity at once, and the same evaluation already transitions to Fall.
pub proof fn lemma_jump_release_truncates(
    m: PlayerManager,
    sensors: SensorReadings,
    input: InputSnapshot,
    dt_ms: u32,
)
    requires
        m.state is Jump,
        !m.waiting,
        m.vel.y > 0,
        !input.jump_held,
    ensures
        advance_spec(m, sensors, input, dt_ms).vel.y == 0,
        advance_spec(m, sensors, input, dt_ms).state is Fall,
{
}

/// Horizontal velocity is re-derived from the input every tick, whatever it
/// was before: left (checked first, winning when both directions are held)
/// gives the negative walk speed unless the left wall sensor objects, right
/// gives the positive walk speed unless the right wall sensor objects, and
/// otherwise it is zero.
pub proof fn lemma_horizontal_rederived(
    m: PlayerManager,
    sensors: SensorReadings,
    input: InputSnapshot,
    dt_ms: u32,
)
    requires
        !m.waiting,
    ensures
        advance_spec(m, sensors, input, dt_ms).vel.x == (if input.left && !sensors.wall_back {
            -(VELOCITY_SPEED as int)
        } else if input.right && !sensors.wall_front {
            VELOCITY_SPEED as int
        } else {
            0
        }),
{
}

/// The locomotion tick only moves: it never touches the hit points, the
/// position (the physics collaborator integrates that), or the pause flag.
pub proof fn lemma_advance_touches_only_motion(
    m: PlayerManager,
    sensors: SensorReadings,
    input: InputSnapshot,
    dt_ms: u32,
)
    ensures
        advance_spec(m, sensors, input, dt_ms).hp == m.hp,
        advance_spec(m, sensors, input, dt_ms).pos == m.pos,
        advance_spec(m, sensors, input, dt_ms).waiting == m.waiting,
{
}

/// Hazard contact on the last hit point raises the failed outcome and does
/// not deduct; above it, the contact costs exactly one point and raises
/// nothing. Hit points never reach zero.
pub proof fn lemma_health_floor(m: PlayerManager, hazard_contact: bool)
    requires
        m.wf(),
    ensures
        hurt_spec(m, hazard_contact).wf(),
        hurt_spec(m, hazard_contact).hp.0 >= 1,
        hazard_contact && m.hp.0 == 1 ==> hurt_signal_spec(m, hazard_contact) == Some(
            LevelPass(false),
        ) && hurt_spec(m, hazard_contact).hp == m.hp,
        hazard_contact && m.hp.0 > 1 ==> hurt_spec(m, hazard_contact).hp.0 == m.hp.0 - 1
            && hurt_signal_spec(m, hazard_contact) is None,
        !hazard_contact ==> hurt_spec(m, hazard_contact) == m && hurt_signal_spec(
            m,
            hazard_contact,
        ) is None,
{
}

/// The line drawn for one probe ray: from the ray origin along its direction
/// for its full cast distance, green on a hit and red otherwise.
pub open spec fn debug_line_spec(ray: RayState) -> DebugLine {
    DebugLine {
        start: ray.origin,
        end: Vec2 {
            x: (ray.origin.x + ray.direction.dx_spec() * ray.max_distance) as i64,
            y: (ray.origin.y + ray.direction.dy_spec() * ray.max_distance) as i64,
        },
        color: if ray.hit {
            Rgb { r: 0, g: 200, b: 0 }
        } else {
            Rgb { r: 200, g: 0, b: 0 }
        },
    }
}

} // verus!
