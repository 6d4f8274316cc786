use rust_core::character_core::CharacterFields;
use rust_core::hook_state::HookState;

#[test]
fn default_hook_state_is_idle() {
    assert_eq!(CharacterFields::new().hook_state, HookState::Idle);
}

#[test]
fn default_hooked_player_is_sentinel() {
    assert_eq!(CharacterFields::new().hooked_player, -1);
}

#[test]
fn default_triggered_events_is_empty() {
    assert!(CharacterFields::new().triggered_events.is_empty());
}

#[test]
fn hook_state_from_i32_roundtrip() {
    assert_eq!(HookState::from_i32(-1), Some(HookState::Retracted));
    assert_eq!(HookState::from_i32(0), Some(HookState::Idle));
    assert_eq!(HookState::from_i32(1), Some(HookState::RetractStart));
    assert_eq!(HookState::from_i32(3), Some(HookState::RetractEnd));
    assert_eq!(HookState::from_i32(4), Some(HookState::Flying));
    assert_eq!(HookState::from_i32(5), Some(HookState::Grabbed));
}

#[test]
fn hook_state_gap_and_invalid_return_none() {
    assert_eq!(HookState::from_i32(2), None);
    assert_eq!(HookState::from_i32(99), None);
}

#[test]
fn reset_preserves_direction_and_input() {
    let mut c = CharacterFields::new();
    c.direction = 1;
    c.angle = 42;
    c.input.jump = 1;

    c.reset();

    assert_eq!(c.direction, 1);
    assert_eq!(c.angle, 42);
    assert_eq!(c.input.jump, 1);
}

#[test]
fn reset_clears_physics_state() {
    let mut c = CharacterFields::new();
    c.hook_state = HookState::Flying;
    c.hooked_player = 3;
    c.jumped = 2;
    c.death = true;

    c.reset();

    assert_eq!(c.hook_state, HookState::Idle);
    assert_eq!(c.hooked_player, -1);
    assert_eq!(c.jumped, 0);
    assert_eq!(c.death, false);
    assert!(c.triggered_events.is_empty());
}

#[test]
fn hook_state_to_i32_inverts_from_i32() {
    let all = [
        HookState::Retracted,
        HookState::Idle,
        HookState::RetractStart,
        HookState::RetractEnd,
        HookState::Flying,
        HookState::Grabbed,
    ];
    for s in all {
        assert_eq!(HookState::from_i32(s.to_i32()), Some(s));
    }
    assert_eq!(HookState::Grabbed.to_i32(), 5);
    assert_eq!(HookState::Retracted.to_i32(), -1);
    assert_eq!(HookState::default(), HookState::Idle);
    assert_eq!(HookState::from_i32(-2), None);
    assert_eq!(HookState::from_i32(6), None);
}
