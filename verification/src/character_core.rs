use vstd::prelude::*;
use crate::hook_state::HookState;
use crate::net_obj::{CoreEventFlags, PlayerInput};

verus! {

/// The non-vector fields of a character in the typed form: the hook state as
/// a `HookState` and the triggered events as a `CoreEventFlags` set.
#[derive(Debug, Clone, Copy, PartialEq, Eq, Structural)]
pub struct CharacterFields {
    pub hook_tick: i32,
    pub hook_state: HookState,
    pub hooked_player: i32,
    pub jumped: i32,
    pub direction: i32,
    pub angle: i32,
    pub death: bool,
    pub input: PlayerInput,
    pub triggered_events: CoreEventFlags,
}

/// The fields a reset leaves: the physics state cleared, the walking
/// direction, aim angle and input kept.
pub open spec fn is_reset_of(r: CharacterFields, s: CharacterFields) -> bool {
    &&& r.hook_tick == 0
    &&& r.hook_state == HookState::Idle
    &&& r.hooked_player == -1
    &&& r.jumped == 0
    &&& r.death == false
    &&& r.triggered_events@ == 0
    &&& r.direction == s.direction
    &&& r.angle == s.angle
    &&& r.input == s.input
}

impl CharacterFields {
    /// A fresh character: idle hook holding nobody, no jump bits, no events,
    /// an all-zero input.
    pub fn new() -> (r: CharacterFields)
        ensures
            r.hook_tick == 0,
            r.hook_state == HookState::Idle,
            r.hooked_player == -1,
            r.jumped == 0,
            r.direction == 0,
            r.angle == 0,
            r.death == false,
            r.triggered_events@ == 0,
            r.input == PlayerInput::default_value(),
    {
        CharacterFields {
            hook_tick: 0,
            hook_state: HookState::Idle,
            hooked_player: -1,
            jumped: 0,
            direction: 0,
            angle: 0,
            death: false,
            input: PlayerInput::default(),
            triggered_events: CoreEventFlags::empty(),
        }
    }

    /// Resets the physics state; the walking direction, the aim angle and the
    /// input are kept.
    pub fn reset(&mut self)
        ensures
            is_reset_of(*final(self), *old(self)),
    {
        self.hook_tick = 0;
        self.hook_state = HookState::Idle;
        self.hooked_player = -1;
        self.jumped = 0;
        self.triggered_events = CoreEventFlags::empty();
        self.death = false;
    }
}

impl Default for CharacterFields {
    fn default() -> (r: CharacterFields)
        ensures
            r.hook_state == HookState::Idle,
            r.hooked_player == -1,
            r.triggered_events@ == 0,
            r.hook_tick == 0,
            r.jumped == 0,
            r.direction == 0,
            r.angle == 0,
            r.death == false,
            r.input == PlayerInput::default_value(),
    {
        CharacterFields::new()
    }
}

/// Resetting twice is resetting once, and a reset keeps what the player
/// controls.
pub proof fn lemma_reset_idempotent(s: CharacterFields, r1: CharacterFields, r2: CharacterFields)
    requires
        is_reset_of(r1, s),
        is_reset_of(r2, r1),
    ensures
        r2.hook_tick == r1.hook_tick && r2.hook_state == r1.hook_state && r2.hooked_player
            == r1.hooked_player && r2.jumped == r1.jumped && r2.death == r1.death
            && r2.triggered_events@ == r1.triggered_events@,
        r2.direction == s.direction && r2.angle == s.angle && r2.input == s.input,
{
}

} // verus!
