use uju::app::App;
use uju::app::FrameInput;
use uju::app::Vec2Fx;
use uju::state::State;

// A 400x600-pixel window, in fixed-point hundredths of a pixel.
const SCREEN: Vec2Fx = Vec2Fx { x: 40000, y: 60000 };

fn quiet(now_ns: u64) -> FrameInput {
    FrameInput {
        now_ns,
        fps_sample: 0,
        screen: SCREEN,
        space_down: false,
        enter_down: false,
        tab_down: false,
        up_down: false,
        down_down: false,
        left_down: false,
        right_down: false,
    }
}

fn with_space(now_ns: u64) -> FrameInput {
    FrameInput { space_down: true, ..quiet(now_ns) }
}

/// A game that has bootstrapped and started playing: one quiet frame at
/// t=0, then the play key at t=0.1s.
fn playing_app() -> App {
    let mut app = App::new(SCREEN, 0);
    app.dispatch(&quiet(0));
    app.dispatch(&with_space(100_000_000));
    assert_eq!(app.state(), State::Playing);
    app
}

#[test]
fn new_centres_rocket_near_bottom() {
    let app = App::new(SCREEN, 7);
    assert_eq!(app.state(), State::Init);
    assert_eq!(app.position(), Vec2Fx { x: 15000, y: 55000 });
    assert_eq!(app.velocity(), Vec2Fx { x: 0, y: 0 });
    assert_eq!(app.rocket_size(), Vec2Fx { x: 10000, y: 20000 });
    assert_eq!(app.fps(), 7);
    assert!(!app.fire_emitting());
    assert_eq!(app.last_play_time(), None);
    assert_eq!(app.last_key_pressed_time(), None);
}

#[test]
fn first_dispatch_bootstraps_to_idle() {
    let mut app = App::new(SCREEN, 0);
    app.dispatch(&quiet(5));
    assert_eq!(app.state(), State::Idle);
    assert_eq!(app.last_play_time(), Some(5));
}

#[test]
fn idle_ignores_undocumented_keys() {
    let mut app = App::new(SCREEN, 0);
    app.dispatch(&quiet(0));
    let everything_but_space = FrameInput {
        enter_down: true,
        tab_down: true,
        up_down: true,
        down_down: true,
        left_down: true,
        right_down: true,
        ..quiet(10)
    };
    app.dispatch(&everything_but_space);
    assert_eq!(app.state(), State::Idle);
    // No physics either: the rocket has not moved.
    assert_eq!(app.position(), Vec2Fx { x: 15000, y: 55000 });
    assert_eq!(app.velocity(), Vec2Fx { x: 0, y: 0 });
}

#[test]
fn idle_space_starts_playing() {
    let mut app = App::new(SCREEN, 0);
    app.dispatch(&quiet(0));
    app.dispatch(&with_space(40));
    assert_eq!(app.state(), State::Playing);
    assert_eq!(app.last_key_pressed_time(), Some(40));
}

#[test]
fn playing_applies_gravity_every_frame() {
    let mut app = playing_app();
    app.dispatch(&quiet(200_000_000));
    assert_eq!(app.velocity().y, 5);
    assert_eq!(app.position().y, 55005);
    app.dispatch(&quiet(300_000_000));
    assert_eq!(app.velocity().y, 10);
    assert_eq!(app.position().y, 55015);
}

#[test]
fn playing_space_is_a_noop_on_state() {
    let mut app = playing_app();
    app.dispatch(&with_space(200_000_000));
    assert_eq!(app.state(), State::Playing);
}

#[test]
fn enter_pauses_but_physics_still_runs_that_frame() {
    let mut app = playing_app();
    let pause = FrameInput { enter_down: true, ..quiet(200_000_000) };
    app.dispatch(&pause);
    assert_eq!(app.state(), State::Paused);
    assert_eq!(app.last_key_pressed_time(), Some(200_000_000));
    // Gravity and integration still happened on the pausing frame.
    assert_eq!(app.velocity().y, 5);
    assert_eq!(app.position().y, 55005);
}

#[test]
fn paused_freezes_physics_and_ignores_undocumented_keys() {
    let mut app = playing_app();
    app.dispatch(&FrameInput { enter_down: true, ..quiet(200_000_000) });
    let frozen_position = app.position();
    let frozen_velocity = app.velocity();
    let everything_but_space = FrameInput {
        enter_down: true,
        tab_down: true,
        up_down: true,
        down_down: true,
        left_down: true,
        right_down: true,
        ..quiet(300_000_000)
    };
    app.dispatch(&everything_but_space);
    assert_eq!(app.state(), State::Paused);
    assert_eq!(app.position(), frozen_position);
    assert_eq!(app.velocity(), frozen_velocity);
}

#[test]
fn paused_space_resumes() {
    let mut app = playing_app();
    app.dispatch(&FrameInput { enter_down: true, ..quiet(200_000_000) });
    app.dispatch(&with_space(300_000_000));
    assert_eq!(app.state(), State::Playing);
    assert_eq!(app.last_key_pressed_time(), Some(300_000_000));
}

#[test]
fn tab_refreshes_key_timestamp_without_transition() {
    let mut app = playing_app();
    app.dispatch(&FrameInput { tab_down: true, ..quiet(200_000_000) });
    assert_eq!(app.state(), State::Playing);
    assert_eq!(app.last_key_pressed_time(), Some(200_000_000));
}

#[test]
fn bottom_clamp_is_stable_across_frames() {
    let mut app = playing_app();
    app.set_position(Vec2Fx { x: 15000, y: 60000 });
    app.dispatch(&quiet(200_000_000));
    // Gravity pushed the rocket past the bottom edge; the clamp pinned it
    // back and zeroed the vertical velocity.
    assert_eq!(app.position(), Vec2Fx { x: 15000, y: 60000 });
    assert_eq!(app.velocity().y, 0);
    // A second frame from the already-clamped state changes nothing.
    app.dispatch(&quiet(300_000_000));
    assert_eq!(app.position(), Vec2Fx { x: 15000, y: 60000 });
    assert_eq!(app.velocity().y, 0);
}

#[test]
fn top_clamp_floors_at_rocket_height() {
    let mut app = playing_app();
    app.set_position(Vec2Fx { x: 15000, y: 20050 });
    app.set_velocity(Vec2Fx { x: 0, y: -100 });
    app.dispatch(&quiet(200_000_000));
    // 20050 + (-100 + 5) would be 19955, below the rocket-height floor.
    assert_eq!(app.position().y, 20000);
    assert_eq!(app.velocity().y, 0);
}

#[test]
fn left_clamp_zeroes_horizontal_velocity() {
    let mut app = playing_app();
    app.set_position(Vec2Fx { x: 50, y: 30000 });
    app.set_velocity(Vec2Fx { x: -100, y: 0 });
    app.dispatch(&quiet(200_000_000));
    assert_eq!(app.position().x, 0);
    assert_eq!(app.velocity().x, 0);
}

#[test]
fn right_clamp_pins_to_screen_minus_rocket_width() {
    let mut app = playing_app();
    app.set_position(Vec2Fx { x: 29950, y: 30000 });
    app.set_velocity(Vec2Fx { x: 100, y: 0 });
    app.dispatch(&quiet(200_000_000));
    assert_eq!(app.position().x, 30000);
    assert_eq!(app.velocity().x, 0);
}

#[test]
fn decay_drifts_horizontal_velocity_to_an_exact_stop() {
    let mut app = playing_app();
    app.set_position(Vec2Fx { x: 15000, y: 30000 });
    app.set_velocity(Vec2Fx { x: -100, y: 0 });
    // Frames 0.1s apart, each firing the 10 Hz gate, all more than one
    // second after the last key press: one decay tick per frame.
    let mut now: u64 = 1_200_000_000;
    let mut expected: i64 = -100;
    for _ in 0..6 {
        app.dispatch(&quiet(now));
        expected = if expected + 20 < 0 { expected + 20 } else { 0 };
        assert_eq!(app.velocity().x, expected);
        // Never overshoots past zero.
        assert!(app.velocity().x <= 0);
        now += 100_000_000;
    }
    assert_eq!(app.velocity().x, 0);
}

#[test]
fn positive_velocity_decays_downward() {
    let mut app = playing_app();
    app.set_position(Vec2Fx { x: 15000, y: 30000 });
    app.set_velocity(Vec2Fx { x: 100, y: 0 });
    app.dispatch(&quiet(1_200_000_000));
    assert_eq!(app.velocity().x, 80);
}

#[test]
fn no_decay_within_a_second_of_a_key_press() {
    let mut app = playing_app();
    app.set_position(Vec2Fx { x: 15000, y: 30000 });
    app.set_velocity(Vec2Fx { x: -100, y: 0 });
    // 0.9s after the key press: the 10 Hz gate fires but the grace period
    // has not elapsed.
    app.dispatch(&quiet(1_000_000_000));
    assert_eq!(app.velocity().x, -100);
}

#[test]
fn no_decay_when_the_gate_timer_has_not_fired() {
    let mut app = playing_app();
    app.set_position(Vec2Fx { x: 15000, y: 30000 });
    app.set_velocity(Vec2Fx { x: -100, y: 0 });
    app.dispatch(&quiet(1_200_000_000));
    assert_eq!(app.velocity().x, -80);
    // Only 0.04s later: the 10 Hz gate has not fired again, so no tick.
    app.dispatch(&quiet(1_240_000_000));
    assert_eq!(app.velocity().x, -80);
}

#[test]
fn fps_is_resampled_at_one_hertz() {
    let mut app = App::new(SCREEN, 7);
    app.dispatch(&quiet(0));
    assert_eq!(app.fps(), 7);
    app.dispatch(&FrameInput { fps_sample: 50, ..quiet(500_000_000) });
    // Half a second accumulated: the 1 Hz timer has not fired yet.
    assert_eq!(app.fps(), 7);
    app.dispatch(&FrameInput { fps_sample: 99, ..quiet(1_500_000_000) });
    assert_eq!(app.fps(), 99);
}

#[test]
fn fire_trail_is_on_exactly_while_playing() {
    let mut app = App::new(SCREEN, 0);
    app.dispatch(&quiet(0));
    assert!(!app.fire_emitting());
    // The frame that starts the game still runs in Idle: no trail yet.
    app.dispatch(&with_space(100_000_000));
    assert!(!app.fire_emitting());
    app.dispatch(&quiet(200_000_000));
    assert!(app.fire_emitting());
    // The pausing frame still runs its physics in Playing: trail on.
    app.dispatch(&FrameInput { enter_down: true, ..quiet(300_000_000) });
    assert!(app.fire_emitting());
    // Pausing switches the effect off for as long as the pause lasts.
    app.dispatch(&quiet(400_000_000));
    assert!(!app.fire_emitting());
    // The resuming frame still runs in Paused; the next one plays again.
    app.dispatch(&with_space(500_000_000));
    assert!(!app.fire_emitting());
    app.dispatch(&quiet(600_000_000));
    assert!(app.fire_emitting());
}

#[test]
fn screen_size_is_refreshed_every_frame() {
    let mut app = App::new(SCREEN, 0);
    let wider = Vec2Fx { x: 80000, y: 60000 };
    app.dispatch(&FrameInput { screen: wider, ..quiet(0) });
    assert_eq!(app.screen_size(), wider);
}

#[test]
fn draw_anchors_follow_the_position() {
    let app = App::new(SCREEN, 0);
    // Position (150, 550) px, rocket 100x200 px: the trail is emitted at
    // (200, 540) px and the sprite is drawn from (150, 350) px.
    assert_eq!(app.emitter_anchor(), Vec2Fx { x: 20000, y: 54000 });
    assert_eq!(app.rocket_draw_origin(), Vec2Fx { x: 15000, y: 35000 });
}

#[test]
fn end_to_end_scenario() {
    // A 400x600 screen, rocket 100x200, starting at (195, 550) at rest.
    let mut app = App::new(SCREEN, 0);
    app.set_position(Vec2Fx { x: 19500, y: 55000 });
    assert_eq!(app.state(), State::Init);

    // One dispatch bootstraps to Idle.
    app.dispatch(&quiet(0));
    assert_eq!(app.state(), State::Idle);

    // The play key starts the game and records its timestamp.
    app.dispatch(&with_space(100_000_000));
    assert_eq!(app.state(), State::Playing);
    assert_eq!(app.last_key_pressed_time(), Some(100_000_000));

    // Holding Up for one frame: thrust (-0.2) then gravity (+0.05), a net
    // -0.15 px on the vertical velocity, integrated into the position.
    app.dispatch(&FrameInput { up_down: true, ..quiet(200_000_000) });
    assert_eq!(app.velocity().y, -15);
    assert_eq!(app.position(), Vec2Fx { x: 19500, y: 54985 });

    // The position never goes above the rocket-height floor: a burst of
    // upward thrust is clamped at 200 px.
    app.set_velocity(Vec2Fx { x: 0, y: -40000 });
    app.dispatch(&quiet(300_000_000));
    assert_eq!(app.position().y, 20000);
    assert_eq!(app.velocity().y, 0);
}
