use uju::state::State;

#[test]
fn names_are_stable_lowercase() {
    assert_eq!(State::Init.name(), "init");
    assert_eq!(State::Idle.name(), "idle");
    assert_eq!(State::Playing.name(), "playing");
    assert_eq!(State::Paused.name(), "paused");
}

#[test]
fn default_is_init() {
    assert_eq!(State::default(), State::Init);
}
