//! The game aggregate and its per-frame step.
//!
//! `App` owns the mutable game data: the lifecycle phase, the rocket's
//! position and velocity, the viewport and rocket extents, the two
//! periodic timers, the sampled FPS, and the two wall-clock timestamps
//! the logic reads. `dispatch` performs one frame of the state machine and
//! physics, exactly as [`step_spec`] describes; a host crate polls the
//! keyboard, clock and window once per frame, packs them into a
//! [`FrameInput`], and draws from the getters afterwards.
//!
//! All geometry is in fixed-point hundredths of a pixel, all times in
//! nanoseconds.

use vstd::prelude::*;

use crate::periodic_timer::PeriodicTimer;
use crate::periodic_timer::TimerView;
use crate::periodic_timer::timer_after;
use crate::state::State;

verus! {

/// Fixed-point units per pixel: all positions, sizes and per-frame
/// velocities are in hundredths of a pixel.
pub const FX_PER_PIXEL: i64 = 100;

/// Downward acceleration applied every playing frame (0.05 px/frame).
pub const GRAVITY_FX: i64 = 5;

/// Velocity change per frame while a directional key is held (0.2 px/frame).
pub const THRUST_FX: i64 = 20;

/// Horizontal velocity lost per decay tick (0.2 px/frame).
pub const DECAY_STEP_FX: i64 = 20;

/// Rocket sprite width (100 px).
pub const ROCKET_WIDTH_FX: i64 = 10000;

/// Rocket sprite height (200 px).
pub const ROCKET_HEIGHT_FX: i64 = 20000;

/// Offset used to centre the rocket at start-up (50 px).
pub const SPAWN_OFFSET_FX: i64 = 5000;

/// How far above the rocket's anchor the fire trail is emitted (10 px).
pub const EMITTER_RAISE_FX: i64 = 1000;

/// Largest viewport or rocket extent the physics accepts: 10^7 pixels,
/// far beyond any real window, small enough that every intermediate sum
/// fits an `i64` with room to spare.
pub const MAX_DIM_FX: i64 = 1_000_000_000;

/// Period of the HUD refresh timer: one second.
pub const TIMER_1_HZ_PERIOD_NS: u64 = 1_000_000_000;

/// Period of the input-decay gate timer: a tenth of a second.
pub const TIMER_10_HZ_PERIOD_NS: u64 = 100_000_000;

/// Horizontal velocity starts decaying once this much time has passed
/// since the last key press: one second.
pub const DECAY_DELAY_NS: u64 = 1_000_000_000;

/// A 2D vector in fixed-point hundredths of a pixel.
#[derive(Debug, Clone, Copy, PartialEq, Eq, Structural)]
pub struct Vec2Fx {
    pub x: i64,
    pub y: i64,
}

/// Everything the step reads from the outside world, sampled by the host
/// once per frame: the monotonic clock, the FPS counter, the live window
/// size, and whether each key the game reacts to is currently held.
#[derive(Debug, Clone, Copy)]
pub struct FrameInput {
    pub now_ns: u64,
    pub fps_sample: i32,
    pub screen: Vec2Fx,
    pub space_down: bool,
    pub enter_down: bool,
    pub tab_down: bool,
    pub up_down: bool,
    pub down_down: bool,
    pub left_down: bool,
    pub right_down: bool,
}

/// Mathematical state of an [`App`]. Geometry in fixed-point hundredths
/// of a pixel, times in nanoseconds.
pub struct AppView {
    pub state: State,
    pub position_x: int,
    pub position_y: int,
    pub velocity_x: int,
    pub velocity_y: int,
    pub screen_x: int,
    pub screen_y: int,
    pub rocket_x: int,
    pub rocket_y: int,
    pub timer_1_hz: TimerView,
    pub timer_10_hz: TimerView,
    pub last_play_time: Option<int>,
    pub last_key_pressed_time: Option<int>,
    pub fps: int,
    pub fire_emitting: bool,
}

/// Position and velocity together, as the boundary clamp sees them.
pub struct PhysView {
    pub position_x: int,
    pub position_y: int,
    pub velocity_x: int,
    pub velocity_y: int,
}

/// Bounds under which the physics arithmetic cannot overflow and which
/// every constructor establishes and [`step_spec`] preserves: the
/// viewport and rocket extents are at most [`MAX_DIM_FX`], the position
/// stays within one extent of the origin, and the velocity within two
/// (a frame can move the rocket at most from one edge to the other).
pub open spec fn wf(a: AppView) -> bool {
    &&& 0 <= a.screen_x <= MAX_DIM_FX as int
    &&& 0 <= a.screen_y <= MAX_DIM_FX as int
    &&& 0 <= a.rocket_x <= MAX_DIM_FX as int
    &&& 0 <= a.rocket_y <= MAX_DIM_FX as int
    &&& -(MAX_DIM_FX as int) <= a.position_x <= MAX_DIM_FX as int
    &&& -(MAX_DIM_FX as int) <= a.position_y <= MAX_DIM_FX as int
    &&& -2 * (MAX_DIM_FX as int) <= a.velocity_x <= 2 * (MAX_DIM_FX as int)
    &&& -2 * (MAX_DIM_FX as int) <= a.velocity_y <= 2 * (MAX_DIM_FX as int)
}

/// The host's frame snapshot is acceptable when the window it reports
/// fits the physics bounds.
pub open spec fn input_wf(i: FrameInput) -> bool {
    &&& 0 <= i.screen.x <= MAX_DIM_FX
    &&& 0 <= i.screen.y <= MAX_DIM_FX
}

/// The clock reading of the frame is no earlier than the timestamps the
/// game has stored: the host samples a monotonic clock.
pub open spec fn time_consistent(a: AppView, i: FrameInput) -> bool {
    &&& (a.last_play_time matches Some(t) ==> t <= i.now_ns as int)
    &&& (a.last_key_pressed_time matches Some(t) ==> t <= i.now_ns as int)
}

/// One decay tick on the horizontal velocity: one step of
/// [`DECAY_STEP_FX`] toward zero, clamping exactly to zero rather than
/// overshooting past it.
pub open spec fn decayed_vx(vx: int) -> int {
    if vx < 0 {
        if (vx + DECAY_STEP_FX as int) < 0 { vx + DECAY_STEP_FX as int } else { 0 }
    } else if vx > 0 {
        if (vx - DECAY_STEP_FX as int) > 0 { vx - DECAY_STEP_FX as int } else { 0 }
    } else {
        vx
    }
}

/// Whether a frame at time `now` decays the horizontal velocity: more
/// than [`DECAY_DELAY_NS`] has passed since the last key press and the
/// decay gate timer fired this frame.
pub open spec fn decay_due(last_key: Option<int>, now: int, gate_fired: bool) -> bool {
    &&& last_key matches Some(t) && now - t > (DECAY_DELAY_NS as int)
    &&& gate_fired
}

/// The axis-independent boundary clamp, applied after integration:
/// `position_x` is clamped to `[0, screen - rocket width]` and
/// `position_y` to `[rocket height, screen height]`, zeroing the velocity
/// on each axis that was clamped. The vertical bounds are deliberately
/// asymmetric: the rocket's visual anchor is its bottom edge.
pub open spec fn clamp_step(p: PhysView, sw: int, sh: int, rw: int, rh: int) -> PhysView {
    let p1 = if p.position_x < 0 {
        (PhysView { position_x: 0, velocity_x: 0, ..p })
    } else {
        p
    };
    let p2 = if p1.position_x > sw - rw {
        (PhysView { position_x: sw - rw, velocity_x: 0, ..p1 })
    } else {
        p1
    };
    let p3 = if p2.position_y < rh {
        (PhysView { position_y: rh, velocity_y: 0, ..p2 })
    } else {
        p2
    };
    if p3.position_y > sh {
        (PhysView { position_y: sh, velocity_y: 0, ..p3 })
    } else {
        p3
    }
}

/// The frame bookkeeping that runs before the state branch: the stored
/// window size is refreshed from the snapshot; once a previous frame has
/// completed, both timers accumulate the wall-clock delta since it; and
/// the FPS display value is resampled whenever the one-second timer fires.
pub open spec fn frame_stage(a: AppView, i: FrameInput) -> AppView {
    let a1 = AppView { screen_x: i.screen.x as int, screen_y: i.screen.y as int, ..a };
    let a2 = match a1.last_play_time {
        Some(t) => {
            let dt = i.now_ns as int - t;
            AppView {
                timer_1_hz: timer_after(a1.timer_1_hz, dt),
                timer_10_hz: timer_after(a1.timer_10_hz, dt),
                ..a1
            }
        },
        None => a1,
    };
    if a2.timer_1_hz.triggered {
        AppView { fps: i.fps_sample as int, ..a2 }
    } else {
        a2
    }
}

/// One playing frame, after the frame bookkeeping: the fire trail is
/// switched on; the pause key moves the phase to `Paused` (physics still
/// runs this frame); gravity is applied unconditionally; each held
/// directional key adds one thrust increment on its axis and refreshes
/// the key timestamp (the pause and help keys refresh it too); if no key
/// has been pressed for over a second and the decay gate fired, the
/// horizontal velocity takes one decay tick; the velocity is integrated
/// into the position once; and the boundary clamp runs.
pub open spec fn playing_step(a: AppView, i: FrameInput) -> AppView {
    let now = i.now_ns as int;
    let next_state = if i.enter_down { State::Paused } else { State::Playing };
    let any_key = i.enter_down || i.tab_down || i.up_down || i.down_down || i.left_down
        || i.right_down;
    let last_key = if any_key { Some(now) } else { a.last_key_pressed_time };
    let vy = a.velocity_y + GRAVITY_FX as int + (if i.up_down { -(THRUST_FX as int) } else { 0 })
        + (if i.down_down { THRUST_FX as int } else { 0 });
    let vx0 = a.velocity_x + (if i.left_down { -(THRUST_FX as int) } else { 0 })
        + (if i.right_down { THRUST_FX as int } else { 0 });
    let vx = if decay_due(last_key, now, a.timer_10_hz.triggered) { decayed_vx(vx0) } else { vx0 };
    let phys = clamp_step(
        (PhysView {
            position_x: a.position_x + vx,
            position_y: a.position_y + vy,
            velocity_x: vx,
            velocity_y: vy,
        }),
        a.screen_x,
        a.screen_y,
        a.rocket_x,
        a.rocket_y,
    );
    AppView {
        state: next_state,
        last_key_pressed_time: last_key,
        fire_emitting: true,
        position_x: phys.position_x,
        position_y: phys.position_y,
        velocity_x: phys.velocity_x,
        velocity_y: phys.velocity_y,
        ..a
    }
}

/// One whole frame: the frame bookkeeping, then a single state-machine
/// step — `Init` bootstraps to `Idle`; `Idle` and `Paused` wait for the
/// play key and record its timestamp; `Playing` runs the physics — and
/// finally the frame's completion time is recorded. The fire-trail
/// effect is on exactly for frames that run in the `Playing` phase:
/// every other frame switches it off.
pub open spec fn step_spec(a: AppView, i: FrameInput) -> AppView {
    let now = i.now_ns as int;
    let a1 = frame_stage(a, i);
    let a2 = match a1.state {
        State::Init => AppView { state: State::Idle, fire_emitting: false, ..a1 },
        State::Idle => {
            if i.space_down {
                AppView {
                    state: State::Playing,
                    last_key_pressed_time: Some(now),
                    fire_emitting: false,
                    ..a1
                }
            } else {
                AppView { fire_emitting: false, ..a1 }
            }
        },
        State::Playing => playing_step(a1, i),
        State::Paused => {
            if i.space_down {
                AppView {
                    state: State::Playing,
                    last_key_pressed_time: Some(now),
                    fire_emitting: false,
                    ..a1
                }
            } else {
                AppView { fire_emitting: false, ..a1 }
            }
        },
    };
    AppView { last_play_time: Some(now), ..a2 }
}

/// The state a freshly constructed game has on a viewport of the given
/// extent: bootstrap phase, rocket centred near the bottom of the screen,
/// at rest, timers fresh, no timestamps recorded, fire trail off.
pub open spec fn initial_view(screen_x: int, screen_y: int, fps: int) -> AppView {
    AppView {
        state: State::Init,
        position_x: screen_x / 2 - SPAWN_OFFSET_FX as int,
        position_y: screen_y - SPAWN_OFFSET_FX as int,
        velocity_x: 0,
        velocity_y: 0,
        screen_x: screen_x,
        screen_y: screen_y,
        rocket_x: ROCKET_WIDTH_FX as int,
        rocket_y: ROCKET_HEIGHT_FX as int,
        timer_1_hz: TimerView {
            period: TIMER_1_HZ_PERIOD_NS as int,
            accumulated: 0,
            triggered: false,
        },
        timer_10_hz: TimerView {
            period: TIMER_10_HZ_PERIOD_NS as int,
            accumulated: 0,
            triggered: false,
        },
        last_play_time: None,
        last_key_pressed_time: None,
        fps: fps,
        fire_emitting: false,
    }
}

/// The game aggregate: one instance owns all mutable game data for the
/// life of the process.
pub struct App {
    state: State,
    position: Vec2Fx,
    velocity: Vec2Fx,
    screen_size: Vec2Fx,
    rocket_size: Vec2Fx,
    timer_1_hz: PeriodicTimer,
    timer_10_hz: PeriodicTimer,
    last_play_time: Option<u64>,
    last_key_pressed_time: Option<u64>,
    fps: i32,
    fire_emitting: bool,
}

impl View for App {
    type V = AppView;

    closed spec fn view(&self) -> AppView {
        AppView {
            state: self.state,
            position_x: self.position.x as int,
            position_y: self.position.y as int,
            velocity_x: self.velocity.x as int,
            velocity_y: self.velocity.y as int,
            screen_x: self.screen_size.x as int,
            screen_y: self.screen_size.y as int,
            rocket_x: self.rocket_size.x as int,
            rocket_y: self.rocket_size.y as int,
            timer_1_hz: self.timer_1_hz@,
            timer_10_hz: self.timer_10_hz@,
            last_play_time: match self.last_play_time {
                Some(t) => Some(t as int),
                None => None,
            },
            last_key_pressed_time: match self.last_key_pressed_time {
                Some(t) => Some(t as int),
                None => None,
            },
            fps: self.fps as int,
            fire_emitting: self.fire_emitting,
        }
    }
}

impl App {
    /// A fresh game on a viewport of the given extent, with the given
    /// initial FPS reading: exactly [`initial_view`].
    pub fn new(screen: Vec2Fx, fps: i32) -> (app: App)
        requires
            0 <= screen.x <= MAX_DIM_FX,
            0 <= screen.y <= MAX_DIM_FX,
        ensures
            app@ == initial_view(screen.x as int, screen.y as int, fps as int),
            wf(app@),
    {
        App {
            state: State::Init,
            position: Vec2Fx { x: screen.x / 2 - SPAWN_OFFSET_FX, y: screen.y - SPAWN_OFFSET_FX },
            velocity: Vec2Fx { x: 0, y: 0 },
            screen_size: screen,
            rocket_size: Vec2Fx { x: ROCKET_WIDTH_FX, y: ROCKET_HEIGHT_FX },
            timer_1_hz: PeriodicTimer::new(TIMER_1_HZ_PERIOD_NS),
            timer_10_hz: PeriodicTimer::new(TIMER_10_HZ_PERIOD_NS),
            last_play_time: None,
            last_key_pressed_time: None,
            fps: fps,
            fire_emitting: false,
        }
    }

    /// One frame of the game, exactly as [`step_spec`] describes: frame
    /// bookkeeping, one state-machine step (with physics, integration and
    /// boundary clamp while playing), then the frame's completion time is
    /// recorded. Requires a window within the physics bounds and a
    /// monotonic clock; preserves well-formedness.
    #[verifier::rlimit(100)]
    pub fn dispatch(&mut self, input: &FrameInput)
        requires
            wf(old(self)@),
            input_wf(*input),
            time_consistent(old(self)@, *input),
        ensures
            final(self)@ == step_spec(old(self)@, *input),
            wf(final(self)@),
    {
        self.screen_size = input.screen;

        if let Some(last_play_time) = self.last_play_time {
            let dt: u64 = input.now_ns - last_play_time;
            self.timer_1_hz.update(dt);
            self.timer_10_hz.update(dt);
        }

        if self.timer_1_hz.triggered() {
            self.fps = input.fps_sample;
        }

        match self.state {
            State::Init => {
                self.state = State::Idle;
                self.fire_emitting = false;
            },
            State::Idle => {
                self.fire_emitting = false;

                if input.space_down {
                    self.state = State::Playing;
                    self.last_key_pressed_time = Some(input.now_ns);
                }
            },
            State::Playing => {
                self.fire_emitting = true;

                if input.enter_down {
                    self.state = State::Paused;
                    self.last_key_pressed_time = Some(input.now_ns);
                }

                if input.tab_down {
                    self.last_key_pressed_time = Some(input.now_ns);
                }

                // Gravity applies unconditionally while playing.
                self.velocity.y = self.velocity.y + GRAVITY_FX;

                if input.up_down {
                    self.velocity.y = self.velocity.y - THRUST_FX;
                    self.last_key_pressed_time = Some(input.now_ns);
                }
                if input.down_down {
                    self.velocity.y = self.velocity.y + THRUST_FX;
                    self.last_key_pressed_time = Some(input.now_ns);
                }
                if input.left_down {
                    self.velocity.x = self.velocity.x - THRUST_FX;
                    self.last_key_pressed_time = Some(input.now_ns);
                }
                if input.right_down {
                    self.velocity.x = self.velocity.x + THRUST_FX;
                    self.last_key_pressed_time = Some(input.now_ns);
                }

                if let Some(last_key) = self.last_key_pressed_time {
                    if input.now_ns - last_key > DECAY_DELAY_NS && self.timer_10_hz.triggered() {
                        if self.velocity.x < 0 {
                            let raised: i64 = self.velocity.x + DECAY_STEP_FX;
                            self.velocity.x = if raised < 0 { raised } else { 0 };
                        } else if self.velocity.x > 0 {
                            let lowered: i64 = self.velocity.x - DECAY_STEP_FX;
                            self.velocity.x = if lowered > 0 { lowered } else { 0 };
                        }
                    }
                }

                self.position.x = self.position.x + self.velocity.x;
                self.position.y = self.position.y + self.velocity.y;

                if self.position.x < 0 {
                    self.position.x = 0;
                    self.velocity.x = 0;
                }
                if self.position.x > self.screen_size.x - self.rocket_size.x {
                    self.position.x = self.screen_size.x - self.rocket_size.x;
                    self.velocity.x = 0;
                }
                if self.position.y < self.rocket_size.y {
                    self.position.y = self.rocket_size.y;
                    self.velocity.y = 0;
                }
                if self.position.y > self.screen_size.y {
                    self.position.y = self.screen_size.y;
                    self.velocity.y = 0;
                }
            },
            State::Paused => {
                self.fire_emitting = false;

                if input.space_down {
                    self.state = State::Playing;
                    self.last_key_pressed_time = Some(input.now_ns);
                }
            },
        }

        self.last_play_time = Some(input.now_ns);
    }

    /// The current lifecycle phase.
    pub fn state(&self) -> (r: State)
        ensures
            r == self@.state,
    {
        self.state
    }

    /// The rocket's anchor position (its bottom-left corner), fixed-point.
    pub fn position(&self) -> (r: Vec2Fx)
        ensures
            r.x as int == self@.position_x,
            r.y as int == self@.position_y,
    {
        self.position
    }

    /// The rocket's per-frame velocity, fixed-point.
    pub fn velocity(&self) -> (r: Vec2Fx)
        ensures
            r.x as int == self@.velocity_x,
            r.y as int == self@.velocity_y,
    {
        self.velocity
    }

    /// The viewport extent the last frame saw, fixed-point.
    pub fn screen_size(&self) -> (r: Vec2Fx)
        ensures
            r.x as int == self@.screen_x,
            r.y as int == self@.screen_y,
    {
        self.screen_size
    }

    /// The rocket sprite's extent, fixed-point.
    pub fn rocket_size(&self) -> (r: Vec2Fx)
        ensures
            r.x as int == self@.rocket_x,
            r.y as int == self@.rocket_y,
    {
        self.rocket_size
    }

    /// The FPS reading shown on the HUD, resampled at one hertz.
    pub fn fps(&self) -> (r: i32)
        ensures
            r as int == self@.fps,
    {
        self.fps
    }

    /// Whether the fire-trail effect is on: true exactly when the most
    /// recent frame ran in the `Playing` phase.
    pub fn fire_emitting(&self) -> (r: bool)
        ensures
            r == self@.fire_emitting,
    {
        self.fire_emitting
    }

    /// When the last frame completed, if one has.
    pub fn last_play_time(&self) -> (r: Option<u64>)
        ensures
            r matches Some(t) ==> self@.last_play_time == Some(t as int),
            r is None <==> self@.last_play_time is None,
    {
        self.last_play_time
    }

    /// When a key the game reacts to was last seen held, if ever.
    pub fn last_key_pressed_time(&self) -> (r: Option<u64>)
        ensures
            r matches Some(t) ==> self@.last_key_pressed_time == Some(t as int),
            r is None <==> self@.last_key_pressed_time is None,
    {
        self.last_key_pressed_time
    }

    /// Where the fire trail is emitted: horizontally centred under the
    /// rocket, a little above its anchor.
    pub fn emitter_anchor(&self) -> (r: Vec2Fx)
        requires
            wf(self@),
        ensures
            r.x as int == self@.position_x + self@.rocket_x / 2,
            r.y as int == self@.position_y - EMITTER_RAISE_FX,
    {
        Vec2Fx { x: self.position.x + self.rocket_size.x / 2, y: self.position.y - EMITTER_RAISE_FX }
    }

    /// The top-left corner at which the rocket sprite is drawn: the
    /// stored position is the sprite's bottom-left corner.
    pub fn rocket_draw_origin(&self) -> (r: Vec2Fx)
        requires
            wf(self@),
        ensures
            r.x as int == self@.position_x,
            r.y as int == self@.position_y - self@.rocket_y,
    {
        Vec2Fx { x: self.position.x, y: self.position.y - self.rocket_size.y }
    }

    /// Moves the rocket, leaving everything else unchanged. Lets a host
    /// place the rocket before play begins.
    pub fn set_position(&mut self, p: Vec2Fx)
        requires
            -MAX_DIM_FX <= p.x <= MAX_DIM_FX,
            -MAX_DIM_FX <= p.y <= MAX_DIM_FX,
        ensures
            final(self)@ == (AppView {
                position_x: p.x as int,
                position_y: p.y as int,
                ..old(self)@
            }),
    {
        self.position = p;
    }

    /// Sets the rocket's velocity, leaving everything else unchanged.
    pub fn set_velocity(&mut self, v: Vec2Fx)
        requires
            -2 * MAX_DIM_FX <= v.x <= 2 * MAX_DIM_FX,
            -2 * MAX_DIM_FX <= v.y <= 2 * MAX_DIM_FX,
        ensures
            final(self)@ == (AppView {
                velocity_x: v.x as int,
                velocity_y: v.y as int,
                ..old(self)@
            }),
    {
        self.velocity = v;
    }
}

/// The transition table of the state machine, for every input snapshot:
/// from each phase, only the documented key causes a transition — `Init`
/// always bootstraps to `Idle`, `Idle` and `Paused` move to `Playing`
/// exactly on the play key, `Playing` moves to `Paused` exactly on the
/// pause key — and every other input leaves the phase unchanged.
pub proof fn lemma_state_transition_table(a: AppView, i: FrameInput)
    ensures
        a.state == State::Init ==> step_spec(a, i).state == State::Idle,
        a.state == State::Idle ==> step_spec(a, i).state == (if i.space_down {
            State::Playing
        } else {
            State::Idle
        }),
        a.state == State::Playing ==> step_spec(a, i).state == (if i.enter_down {
            State::Paused
        } else {
            State::Playing
        }),
        a.state == State::Paused ==> step_spec(a, i).state == (if i.space_down {
            State::Playing
        } else {
            State::Paused
        }),
{
}

/// The boundary clamp is idempotent: applying it twice in a row gives
/// exactly the result of applying it once — an already-clamped position
/// is left identical, with zero velocity kept on each clamped axis.
pub proof fn lemma_clamp_idempotent(p: PhysView, sw: int, sh: int, rw: int, rh: int)
    ensures
        clamp_step(clamp_step(p, sw, sh, rw, rh), sw, sh, rw, rh) == clamp_step(
            p,
            sw,
            sh,
            rw,
            rh,
        ),
{
}

/// One decay tick moves the horizontal velocity strictly toward zero and
/// never across it: a negative velocity rises but stays at most zero, a
/// positive one falls but stays at least zero, and zero is a fixed point.
/// Repeated gated ticks therefore drift the velocity monotonically to an
/// exact stop.
pub proof fn lemma_decay_moves_toward_zero(vx: int)
    ensures
        vx < 0 ==> vx < decayed_vx(vx) <= 0,
        vx > 0 ==> 0 <= decayed_vx(vx) < vx,
        vx == 0 ==> decayed_vx(vx) == 0,
        -(DECAY_STEP_FX as int) <= vx <= DECAY_STEP_FX as int ==> decayed_vx(vx) == 0,
{
}

} // verus!
