use rust_core::c_api::CNetObjPlayerInput;
use rust_core::character_state::CharacterState;
use rust_core::collision::{classify_line_hit, LineHit, COLFLAG_DEATH, COLFLAG_NOHOOK, COLFLAG_SOLID};
use rust_core::constants::{
    COREEVENTFLAG_AIR_JUMP, COREEVENTFLAG_GROUND_JUMP, COREEVENTFLAG_HOOK_ATTACH_GROUND,
    COREEVENTFLAG_HOOK_ATTACH_PLAYER, COREEVENTFLAG_HOOK_HIT_NOHOOK, HOOK_FLYING, HOOK_GRABBED,
    HOOK_IDLE, HOOK_RETRACTED, HOOK_RETRACT_END, HOOK_RETRACT_START,
};
use rust_core::hook::{
    hook_advance, hook_input, FlightReport, hook_timeout, resolve_flight, track_hooked_player, HookPlacement,
    HookStatus,
};
use rust_core::hook::{flight_or_advance, hook_phase};
use rust_core::jump::{apply_jump_input, land, JumpImpulse};
use rust_core::net_obj::CharacterCoreNet;

fn status(state: i32, hooked_player: i32, tick: i32) -> HookStatus {
    HookStatus { state, hooked_player, tick }
}

#[test]
fn ground_jump_then_held_key_does_nothing() {
    let r = apply_jump_input(0, true, true);
    assert_eq!(r.impulse, JumpImpulse::Ground);
    assert_eq!(r.jumped, 1);
    assert_eq!(r.events, COREEVENTFLAG_GROUND_JUMP);
    let again = apply_jump_input(r.jumped, true, false);
    assert_eq!(again.impulse, JumpImpulse::NoJump);
    assert_eq!(again.jumped, 1);
    assert_eq!(again.events, 0);
}

#[test]
fn one_air_jump_until_landing() {
    let air = apply_jump_input(0, true, false);
    assert_eq!(air.impulse, JumpImpulse::Air);
    assert_eq!(air.jumped, 3);
    assert_eq!(air.events, COREEVENTFLAG_AIR_JUMP);
    let released = apply_jump_input(air.jumped, false, false);
    assert_eq!(released.jumped, 2);
    assert_eq!(land(released.jumped, false), 2);
    let second = apply_jump_input(2, true, false);
    assert_eq!(second.impulse, JumpImpulse::NoJump);
    assert_eq!(second.jumped, 2);
    assert_eq!(land(2, true), 0);
    assert_eq!(land(3, true), 1);
    let after_landing = apply_jump_input(0, true, false);
    assert_eq!(after_landing.impulse, JumpImpulse::Air);
}

#[test]
fn ground_jump_keeps_spent_air_jump_bit() {
    let r = apply_jump_input(2, true, true);
    assert_eq!(r.impulse, JumpImpulse::Ground);
    assert_eq!(r.jumped, 3);
}

#[test]
fn hook_key_fires_only_from_idle() {
    let fired = hook_input(status(HOOK_IDLE, -1, 9), true);
    assert_eq!(fired.hook, status(HOOK_FLYING, -1, 0));
    assert_eq!(fired.placement, HookPlacement::Launch);
    let busy = hook_input(status(HOOK_RETRACTED, -1, 4), true);
    assert_eq!(busy.hook, status(HOOK_RETRACTED, -1, 4));
    assert_eq!(busy.placement, HookPlacement::Keep);
    let released = hook_input(status(HOOK_GRABBED, 7, 12), false);
    assert_eq!(released.hook, status(HOOK_IDLE, -1, 12));
    assert_eq!(released.placement, HookPlacement::AtCharacter);
}

#[test]
fn retract_animation_runs_three_ticks() {
    let a = hook_advance(status(HOOK_RETRACT_START, -1, 0));
    assert_eq!(a.hook.state, 2);
    let b = hook_advance(a.hook);
    assert_eq!(b.hook.state, HOOK_RETRACT_END);
    let c = hook_advance(b.hook);
    assert_eq!(c.hook.state, HOOK_RETRACTED);
    let d = hook_advance(c.hook);
    assert_eq!(d.hook.state, HOOK_RETRACTED);
    let idle = hook_advance(status(HOOK_IDLE, 3, 2));
    assert_eq!(idle.hook, status(HOOK_IDLE, -1, 2));
    assert_eq!(idle.placement, HookPlacement::AtCharacter);
}

#[test]
fn flight_outcomes() {
    let flying = status(HOOK_FLYING, -1, 0);
    let none = LineHit { hit_solid: false, hit_nohook: false };
    let solid = LineHit { hit_solid: true, hit_nohook: false };
    let nohook = LineHit { hit_solid: false, hit_nohook: true };

    let player = resolve_flight(flying, FlightReport { out_of_range: true, line: solid, hit_player: Some(5) });
    assert_eq!(player.hook, status(HOOK_GRABBED, 5, 0));
    assert_eq!(player.events, COREEVENTFLAG_HOOK_ATTACH_PLAYER);
    assert_eq!(player.placement, HookPlacement::Keep);

    let too_far = resolve_flight(flying, FlightReport { out_of_range: true, line: solid, hit_player: None });
    assert_eq!(too_far.hook.state, HOOK_RETRACT_START);
    assert_eq!(too_far.events, 0);
    assert_eq!(too_far.placement, HookPlacement::Keep);

    let ground = resolve_flight(flying, FlightReport { out_of_range: false, line: solid, hit_player: None });
    assert_eq!(ground.hook.state, HOOK_GRABBED);
    assert_eq!(ground.events, COREEVENTFLAG_HOOK_ATTACH_GROUND);
    assert_eq!(ground.placement, HookPlacement::AtFlightEnd);

    let bounced = resolve_flight(flying, FlightReport { out_of_range: false, line: nohook, hit_player: None });
    assert_eq!(bounced.hook.state, HOOK_RETRACT_START);
    assert_eq!(bounced.events, COREEVENTFLAG_HOOK_HIT_NOHOOK);

    let both = LineHit { hit_solid: true, hit_nohook: true };
    let unhookable_wall = resolve_flight(flying, FlightReport { out_of_range: false, line: both, hit_player: None });
    assert_eq!(unhookable_wall.hook.state, HOOK_RETRACT_START);
    assert_eq!(unhookable_wall.events, COREEVENTFLAG_HOOK_HIT_NOHOOK);
    assert_eq!(unhookable_wall.placement, HookPlacement::AtFlightEnd);

    let free = resolve_flight(flying, FlightReport { out_of_range: false, line: none, hit_player: None });
    assert_eq!(free.hook, flying);
    assert_eq!(free.events, 0);
    assert_eq!(free.placement, HookPlacement::AtFlightEnd);
}

#[test]
fn grabbed_hook_tracks_and_times_out() {
    let mut slots = [false; 64];
    slots[2] = true;
    let held = status(HOOK_GRABBED, 2, 0);
    let t = track_hooked_player(held, &slots);
    assert_eq!(t.hook, held);
    assert_eq!(t.placement, HookPlacement::AtHookedPlayer);

    let gone = track_hooked_player(status(HOOK_GRABBED, 3, 8), &slots);
    assert_eq!(gone.hook, status(HOOK_RETRACTED, -1, 8));
    assert_eq!(gone.placement, HookPlacement::AtCharacter);

    let mut h = held;
    for _ in 0..60 {
        let s = hook_timeout(h, &slots);
        assert_eq!(s.hook.hooked_player, 2);
        h = s.hook;
    }
    assert_eq!(h.tick, 60);
    let s = hook_timeout(h, &slots);
    assert_eq!(s.hook, status(HOOK_RETRACTED, -1, 61));
    assert_eq!(s.placement, HookPlacement::AtCharacter);

    let ground = hook_timeout(status(HOOK_GRABBED, -1, 500), &slots);
    assert_eq!(ground.hook, status(HOOK_GRABBED, -1, 501));
    let left = hook_timeout(status(HOOK_GRABBED, 4, 1), &slots);
    assert_eq!(left.hook, status(HOOK_RETRACTED, -1, 2));
}

#[test]
fn line_hit_reading() {
    assert_eq!(classify_line_hit(0), LineHit { hit_solid: false, hit_nohook: false });
    assert_eq!(classify_line_hit(COLFLAG_SOLID), LineHit { hit_solid: true, hit_nohook: false });
    assert_eq!(
        classify_line_hit(COLFLAG_SOLID | COLFLAG_NOHOOK),
        LineHit { hit_solid: true, hit_nohook: true }
    );
    assert_eq!(classify_line_hit(COLFLAG_NOHOOK), LineHit { hit_solid: false, hit_nohook: true });
    assert_eq!(classify_line_hit(COLFLAG_DEATH), LineHit { hit_solid: false, hit_nohook: false });
}

#[test]
fn state_reset_and_net_roundtrip() {
    let mut s = CharacterState::new();
    assert_eq!(s.hooked_player, -1);
    assert_eq!(s.hook_state, HOOK_IDLE);
    s.direction = -1;
    s.angle = 300;
    s.jumped = 3;
    s.hook_state = HOOK_GRABBED;
    s.hooked_player = 6;
    s.hook_tick = 11;
    s.death = true;
    s.triggered_events = COREEVENTFLAG_AIR_JUMP;

    let mut net = CharacterCoreNet::default();
    net.x = 123;
    net.tick = 9;
    s.write_net(&mut net);
    assert_eq!(net.hook_state, HOOK_GRABBED);
    assert_eq!(net.hooked_player, 6);
    assert_eq!(net.hook_tick, 11);
    assert_eq!(net.jumped, 3);
    assert_eq!(net.angle, 300);
    assert_eq!(net.direction, -1);
    assert_eq!(net.x, 123);
    assert_eq!(net.tick, 9);

    let mut t = CharacterState::new();
    t.read_net(&net);
    assert_eq!(t.hook_state, HOOK_GRABBED);
    assert_eq!(t.hooked_player, 6);
    assert_eq!(t.angle, 300);
    assert_eq!(t.death, false);

    let before = s;
    s.reset();
    assert_eq!(s.direction, before.direction);
    assert_eq!(s.angle, before.angle);
    assert_eq!(s.input, before.input);
    assert_eq!(s.hook_state, HOOK_IDLE);
    assert_eq!(s.hooked_player, -1);
    assert_eq!(s.hook_tick, 0);
    assert_eq!(s.jumped, 0);
    assert_eq!(s.death, false);
    assert_eq!(s.triggered_events, 0);
}

#[test]
fn input_step_of_a_tick() {
    let mut s = CharacterState::new();
    s.set_input(&CNetObjPlayerInput {
        m_direction: 1,
        m_target_x: 10,
        m_target_y: -4,
        m_jump: 1,
        m_fire: 0,
        m_hook: 2,
        m_player_flags: 0,
        m_wanted_weapon: 0,
        m_next_weapon: 0,
        m_prev_weapon: 0,
    });
    assert_eq!(s.input.m_Direction, 1);
    assert_eq!(s.input.m_TargetX, 10);
    assert_eq!(s.input.m_TargetY, -4);
    assert!(s.input.m_Jump);
    assert!(s.input.m_Hook);

    let r = s.begin_tick(true, true, 77);
    assert_eq!(r.impulse, JumpImpulse::Ground);
    assert_eq!(r.placement, HookPlacement::Launch);
    assert_eq!(s.direction, 1);
    assert_eq!(s.angle, 77);
    assert_eq!(s.jumped, 1);
    assert_eq!(s.triggered_events, COREEVENTFLAG_GROUND_JUMP);
    assert_eq!(s.hook_state, HOOK_FLYING);

    let r2 = s.begin_tick(false, false, 5);
    assert_eq!(r2.impulse, JumpImpulse::NoJump);
    assert_eq!(r2.placement, HookPlacement::Keep);
    assert_eq!(s.angle, 77);
    assert_eq!(s.triggered_events, 0);

    let step = resolve_flight(s.hook(), FlightReport { out_of_range: false, line: LineHit { hit_solid: true, hit_nohook: false }, hit_player: None });
    s.apply_hook_step(step);
    assert_eq!(s.hook_state, HOOK_GRABBED);
    assert_eq!(s.triggered_events, COREEVENTFLAG_HOOK_ATTACH_GROUND);
}

fn consistent(h: HookStatus) -> bool {
    (HOOK_RETRACTED..=HOOK_GRABBED).contains(&h.state)
        && (h.hooked_player == -1 || (h.state == HOOK_GRABBED && (0..64).contains(&h.hooked_player)))
}

#[test]
fn hook_stays_consistent_over_a_session() {
    let mut slots = [false; 64];
    slots[9] = true;
    let none = LineHit { hit_solid: false, hit_nohook: false };
    let mut h = status(HOOK_IDLE, -1, 0);
    // fire
    h = hook_input(h, true).hook;
    assert!(consistent(h));
    // fly one free tick, then catch player 9
    h = resolve_flight(h, FlightReport { out_of_range: false, line: none, hit_player: None }).hook;
    assert!(consistent(h));
    h = resolve_flight(h, FlightReport { out_of_range: false, line: none, hit_player: Some(9) }).hook;
    assert!(consistent(h));
    assert_eq!(h.hooked_player, 9);
    // hold on until the timeout lets go
    let mut ticks = 0;
    while h.hooked_player != -1 {
        h = track_hooked_player(h, &slots).hook;
        h = hook_timeout(h, &slots).hook;
        assert!(consistent(h));
        ticks += 1;
    }
    assert_eq!(ticks, 61);
    assert_eq!(h.state, HOOK_RETRACTED);
    // a retracted hook ignores the key until it is released
    assert_eq!(hook_input(h, true).hook, h);
    h = hook_input(h, false).hook;
    assert_eq!(h.state, HOOK_IDLE);
    assert!(consistent(h));
}

#[test]
fn typed_states_are_the_known_states_but_two() {
    for s in -3..8 {
        let typed = rust_core::hook_state::HookState::from_i32(s).is_some();
        assert_eq!(typed, (HOOK_RETRACTED..=HOOK_GRABBED).contains(&s) && s != 2);
    }
}

#[test]
fn write_of_read_and_reset_twice() {
    let net = CharacterCoreNet {
        tick: 4,
        x: 1,
        y: 2,
        vel_x: 3,
        vel_y: 4,
        angle: 5,
        direction: 1,
        jumped: 2,
        hooked_player: -1,
        hook_state: HOOK_RETRACT_END,
        hook_tick: 7,
        hook_x: 8,
        hook_y: 9,
        hook_dx: 10,
        hook_dy: 11,
    };
    let mut s = CharacterState::new();
    s.read_net(&net);
    let mut out = net;
    s.write_net(&mut out);
    assert_eq!(out, net);

    s.reset();
    let once = s;
    s.reset();
    assert_eq!(s, once);
    assert_eq!(s.direction, 1);
    assert_eq!(s.angle, 5);
}

#[test]
fn hook_phase_runs_steps_in_tick_order() {
    let mut slots = [false; 64];
    slots[4] = true;
    let none = LineHit { hit_solid: false, hit_nohook: false };
    let solid = LineHit { hit_solid: true, hit_nohook: false };

    // a flying hook catching player 4 is grabbed, follows it and counts a tick
    let caught = hook_phase(
        status(HOOK_FLYING, -1, 0),
        FlightReport { out_of_range: false, line: solid, hit_player: Some(4) },
        &slots,
    );
    assert_eq!(caught.hook, status(HOOK_GRABBED, 4, 1));
    assert_eq!(caught.events, COREEVENTFLAG_HOOK_ATTACH_PLAYER);
    assert_eq!(caught.phase.flight, HookPlacement::Keep);
    assert_eq!(caught.phase.track, HookPlacement::AtHookedPlayer);
    assert!(!caught.phase.ground_drag);
    assert_eq!(caught.phase.timeout, HookPlacement::Keep);

    // a hook landing on a tile is grabbed there and drags the character
    let tile = hook_phase(
        status(HOOK_FLYING, -1, 0),
        FlightReport { out_of_range: false, line: solid, hit_player: None },
        &slots,
    );
    assert_eq!(tile.hook, status(HOOK_GRABBED, -1, 1));
    assert_eq!(tile.events, COREEVENTFLAG_HOOK_ATTACH_GROUND);
    assert_eq!(tile.phase.flight, HookPlacement::AtFlightEnd);
    assert!(tile.phase.ground_drag);

    // a hook holding a player whose slot emptied lets go and does not drag
    let gone = hook_phase(status(HOOK_GRABBED, 7, 3), FlightReport { out_of_range: false, line: none, hit_player: None }, &slots);
    assert_eq!(gone.hook, status(HOOK_RETRACTED, -1, 4));
    assert_eq!(gone.phase.track, HookPlacement::AtCharacter);
    assert!(gone.phase.ground_drag);

    // an idle hook ignores the measurement
    let idle = hook_phase(status(HOOK_IDLE, -1, 2), FlightReport { out_of_range: true, line: solid, hit_player: Some(4) }, &slots);
    assert_eq!(idle.hook, status(HOOK_IDLE, -1, 2));
    assert_eq!(idle.events, 0);
    assert_eq!(idle.phase.flight, HookPlacement::AtCharacter);
    assert_eq!(flight_or_advance(status(HOOK_RETRACT_END, -1, 0), FlightReport { out_of_range: false, line: none, hit_player: None }).hook.state, HOOK_RETRACTED);

    let mut s = CharacterState::new();
    s.hook_state = HOOK_FLYING;
    s.triggered_events = COREEVENTFLAG_GROUND_JUMP;
    let phase = s.run_hook_phase(FlightReport { out_of_range: false, line: solid, hit_player: None }, &slots);
    assert_eq!(phase, tile.phase);
    assert_eq!(s.hook_state, HOOK_GRABBED);
    assert_eq!(s.hook_tick, 1);
    assert_eq!(s.triggered_events, COREEVENTFLAG_GROUND_JUMP | COREEVENTFLAG_HOOK_ATTACH_GROUND);
}

#[test]
fn at_most_one_air_jump_over_a_flight() {
    let mut s = CharacterState::new();
    let mut air_jumps = 0;
    let presses = [true, true, false, true, false, true, true, false, true];
    for p in presses {
        s.input.m_Jump = p;
        s.begin_tick(true, false, 0);
        if s.triggered_events == COREEVENTFLAG_AIR_JUMP {
            air_jumps += 1;
        }
    }
    assert_eq!(air_jumps, 1);
    assert_eq!(s.jumped & 2, 2);
    s.input.m_Jump = false;
    s.begin_tick(true, true, 0);
    assert_eq!(s.jumped & 2, 0);
}
