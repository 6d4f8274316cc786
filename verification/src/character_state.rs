use vstd::prelude::*;
use crate::c_api::CNetObjPlayerInput;
use crate::constants::HOOK_IDLE;
use crate::hook::{
    hook_input, hook_phase, hook_phase_safe, spec_hook_input, spec_hook_phase, spec_hook_tick,
    unchanged, FlightReport, HookPhase, HookPlacement, HookStatus, HookStep,
};
use crate::jump::{apply_jump_input, land, spec_tick_jump, JumpImpulse};
use crate::net_obj::CharacterCoreNet;
use crate::netobj::PlayerInput;

verus! {

/// The integer state of a character's physics core: everything but its
/// position, velocity and hook geometry.
#[derive(Debug, Clone, Copy, PartialEq, Eq, Structural)]
pub struct CharacterState {
    pub hook_tick: i32,
    pub hook_state: i32,
    pub hooked_player: i32,
    pub jumped: i32,
    pub direction: i32,
    pub angle: i32,
    pub death: bool,
    pub input: PlayerInput,
    pub triggered_events: i32,
}

/// What the caller must do to the character's vectors after the input part
/// of a tick.
#[derive(Debug, Clone, Copy, PartialEq, Eq, Structural)]
pub struct InputStep {
    pub impulse: JumpImpulse,
    pub placement: HookPlacement,
}

impl CharacterState {
    /// The hook fields, taken together.
    pub open spec fn hook_view(self) -> HookStatus {
        HookStatus { state: self.hook_state, hooked_player: self.hooked_player, tick: self.hook_tick }
    }

    /// The state with the hook fields replaced by `h`.
    pub open spec fn with_hook(self, h: HookStatus) -> CharacterState {
        CharacterState {
            hook_state: h.state,
            hooked_player: h.hooked_player,
            hook_tick: h.tick,
            ..self
        }
    }

    /// A fresh character: idle hook holding nobody, no jump bits, no events.
    pub fn new() -> (r: CharacterState)
        ensures
            r == (CharacterState {
                hook_tick: 0,
                hook_state: HOOK_IDLE,
                hooked_player: -1i32,
                jumped: 0,
                direction: 0,
                angle: 0,
                death: false,
                input: PlayerInput {
                    m_TargetX: 0,
                    m_TargetY: 0,
                    m_Direction: 0,
                    m_Jump: false,
                    m_Hook: false,
                },
                triggered_events: 0,
            }),
    {
        CharacterState {
            hook_tick: 0,
            hook_state: HOOK_IDLE,
            hooked_player: -1i32,
            jumped: 0,
            direction: 0,
            angle: 0,
            death: false,
            input: PlayerInput::default(),
            triggered_events: 0,
        }
    }

    /// Resets the physics state; the walking direction, the aim angle and the
    /// input are kept.
    pub fn reset(&mut self)
        ensures
            *final(self) == reset_of(*old(self)),
    {
        self.hook_tick = 0;
        self.hook_state = HOOK_IDLE;
        self.hooked_player = -1;
        self.jumped = 0;
        self.triggered_events = 0;
        self.death = false;
    }

    /// The hook fields, taken together.
    pub fn hook(&self) -> (r: HookStatus)
        ensures
            r == self.hook_view(),
    {
        HookStatus { state: self.hook_state, hooked_player: self.hooked_player, tick: self.hook_tick }
    }

    /// Takes over the hook fields of a hook step and adds its events.
    pub fn apply_hook_step(&mut self, step: HookStep)
        ensures
            *final(self) == (CharacterState {
                triggered_events: old(self).triggered_events | step.events,
                ..old(self).with_hook(step.hook)
            }),
    {
        self.hook_state = step.hook.state;
        self.hooked_player = step.hook.hooked_player;
        self.hook_tick = step.hook.tick;
        self.triggered_events = self.triggered_events | step.events;
    }

    /// Copies the input fields the physics reads from a network input object.
    pub fn set_input(&mut self, input: &CNetObjPlayerInput)
        ensures
            *final(self) == (CharacterState {
                input: PlayerInput {
                    m_TargetX: input.m_target_x,
                    m_TargetY: input.m_target_y,
                    m_Direction: input.m_direction,
                    m_Jump: input.m_jump != 0,
                    m_Hook: input.m_hook != 0,
                },
                ..*old(self)
            }),
    {
        self.input.m_Direction = input.m_direction;
        self.input.m_TargetX = input.m_target_x;
        self.input.m_TargetY = input.m_target_y;
        self.input.m_Jump = input.m_jump != 0;
        self.input.m_Hook = input.m_hook != 0;
    }

    /// The state and the instructions the input part of a tick leaves:
    /// events cleared; when the input is used, the walking direction and
    /// the aim angle taken, the jump key and the hook key applied; the air
    /// jump given back on the ground.
    pub open spec fn spec_begin_tick(self, use_input: bool, grounded: bool, aim_angle: i32) -> (
        CharacterState,
        InputStep,
    ) {
        let j = spec_tick_jump(self.jumped, use_input, self.input.m_Jump, grounded);
        let h = if use_input {
            spec_hook_input(self.hook_view(), self.input.m_Hook)
        } else {
            unchanged(self.hook_view())
        };
        (
            CharacterState {
                direction: if use_input {
                    self.input.m_Direction
                } else {
                    self.direction
                },
                angle: if use_input {
                    aim_angle
                } else {
                    self.angle
                },
                jumped: j.jumped,
                triggered_events: j.events,
                ..self.with_hook(h.hook)
            },
            InputStep { impulse: j.impulse, placement: h.placement },
        )
    }

    /// The input part of a physics tick: clears the events; when the input
    /// is used, takes the walking direction and the aim angle, applies the
    /// jump key and the hook key; finally gives the air jump back when the
    /// character stands on the ground.
    pub fn begin_tick(&mut self, use_input: bool, grounded: bool, aim_angle: i32) -> (r: InputStep)
        ensures
            (*final(self), r) == old(self).spec_begin_tick(use_input, grounded, aim_angle),
            !use_input ==> final(self).direction == old(self).direction && final(self).angle == old(
                self,
            ).angle && final(self).hook_view() == old(self).hook_view() && final(self).input == old(
                self,
            ).input && r == (InputStep { impulse: JumpImpulse::NoJump, placement: HookPlacement::Keep }),
    {
        self.triggered_events = 0;
        let mut impulse = JumpImpulse::NoJump;
        let mut placement = HookPlacement::Keep;
        if use_input {
            self.direction = self.input.m_Direction;
            self.angle = aim_angle;
            let j = apply_jump_input(self.jumped, self.input.m_Jump, grounded);
            self.jumped = j.jumped;
            self.triggered_events = j.events;
            impulse = j.impulse;
            let h = hook_input(self.hook(), self.input.m_Hook);
            self.hook_state = h.hook.state;
            self.hooked_player = h.hook.hooked_player;
            self.hook_tick = h.hook.tick;
            placement = h.placement;
        }
        self.jumped = land(self.jumped, grounded);
        InputStep { impulse, placement }
    }

    /// The hook part of a tick after the hook key, in the tick's order (see
    /// `spec_hook_phase`): takes over the hook's new integer state, adds the
    /// flight's events, and returns where the caller puts the hook and
    /// whether it applies the drag of a tile hook.
    pub fn run_hook_phase(&mut self, flight: FlightReport, slots: &[bool]) -> (r: HookPhase)
        requires
            hook_phase_safe(old(self).hook_view(), flight, slots@),
        ensures
            ({
                let o = spec_hook_phase(old(self).hook_view(), flight, slots@);
                &&& *final(self) == (CharacterState {
                    triggered_events: old(self).triggered_events | o.events,
                    ..old(self).with_hook(o.hook)
                })
                &&& r == o.phase
            }),
    {
        let o = hook_phase(self.hook(), flight, slots);
        self.hook_state = o.hook.state;
        self.hooked_player = o.hook.hooked_player;
        self.hook_tick = o.hook.tick;
        self.triggered_events = self.triggered_events | o.events;
        o.phase
    }

    /// The network object with this state's integer fields written into
    /// `out`; the tick and the fields that carry vectors are left as they
    /// were.
    pub open spec fn spec_write_net(self, out: CharacterCoreNet) -> CharacterCoreNet {
        CharacterCoreNet {
            hook_state: self.hook_state,
            hook_tick: self.hook_tick,
            hooked_player: self.hooked_player,
            jumped: self.jumped,
            direction: self.direction,
            angle: self.angle,
            ..out
        }
    }

    /// This state with the integer fields of `obj` read into it; death,
    /// input and events are left as they were.
    pub open spec fn spec_read_net(self, obj: CharacterCoreNet) -> CharacterState {
        CharacterState {
            hook_state: obj.hook_state,
            hook_tick: obj.hook_tick,
            hooked_player: obj.hooked_player,
            jumped: obj.jumped,
            direction: obj.direction,
            angle: obj.angle,
            ..self
        }
    }

    /// Writes the integer fields into a network object.
    pub fn write_net(&self, out: &mut CharacterCoreNet)
        ensures
            *final(out) == self.spec_write_net(*old(out)),
    {
        out.hook_state = self.hook_state;
        out.hook_tick = self.hook_tick;
        out.hooked_player = self.hooked_player;
        out.jumped = self.jumped;
        out.direction = self.direction;
        out.angle = self.angle;
    }

    /// Reads the integer fields from a network object.
    pub fn read_net(&mut self, obj: &CharacterCoreNet)
        ensures
            *final(self) == old(self).spec_read_net(*obj),
    {
        self.hook_state = obj.hook_state;
        self.hook_tick = obj.hook_tick;
        self.hooked_player = obj.hooked_player;
        self.jumped = obj.jumped;
        self.direction = obj.direction;
        self.angle = obj.angle;
    }
}

/// Reading back what was written gives the same state, whatever the network
/// object held before: quantizing leaves the integer state unchanged.
pub proof fn lemma_read_of_write(s: CharacterState, out: CharacterCoreNet)
    ensures
        s.spec_read_net(s.spec_write_net(out)) == s,
{
}

/// Writing what was just read gives back the integer fields of the network
/// object.
pub proof fn lemma_write_of_read(s: CharacterState, obj: CharacterCoreNet)
    ensures
        s.spec_read_net(obj).spec_write_net(obj) == obj,
{
}

/// Reset keeps the walking direction, the aim angle and the input, and is
/// idempotent.
pub proof fn lemma_reset_keeps_controls(s: CharacterState)
    ensures
        reset_of(s).direction == s.direction,
        reset_of(s).angle == s.angle,
        reset_of(s).input == s.input,
        reset_of(reset_of(s)) == reset_of(s),
{
}

/// The state `reset` leaves.
pub open spec fn reset_of(s: CharacterState) -> CharacterState {
    CharacterState {
        hook_tick: 0,
        hook_state: HOOK_IDLE,
        hooked_player: -1i32,
        jumped: 0,
        death: false,
        triggered_events: 0,
        ..s
    }
}

/// The input part of a tick followed by the hook part leaves the hook in
/// the state `spec_hook_tick` gives, with the events of the jump key and of
/// the flight.
pub proof fn lemma_tick_hook_is_spec_hook_tick(
    s0: CharacterState,
    s1: CharacterState,
    s2: CharacterState,
    use_input: bool,
    grounded: bool,
    aim_angle: i32,
    flight: FlightReport,
    slots: Seq<bool>,
)
    requires
        s1 == s0.spec_begin_tick(use_input, grounded, aim_angle).0,
        s2 == (CharacterState {
            triggered_events: s1.triggered_events | spec_hook_phase(s1.hook_view(), flight, slots).events,
            ..s1.with_hook(spec_hook_phase(s1.hook_view(), flight, slots).hook)
        }),
    ensures
        s2.hook_view() == spec_hook_tick(s0.hook_view(), use_input, s0.input.m_Hook, flight, slots),
        s2.triggered_events == spec_tick_jump(s0.jumped, use_input, s0.input.m_Jump, grounded).events
            | spec_hook_phase(s1.hook_view(), flight, slots).events,
{
}

/// A tick that does not use the input keeps what the input last set: the
/// walking direction, the aim angle and the input itself; it neither jumps
/// nor touches the hook, and it only clears the events and gives the air
/// jump back on the ground. A tick that uses the input takes the walking
/// direction and the aim angle from it.
pub proof fn lemma_tick_without_input_keeps_controls(
    s: CharacterState,
    grounded: bool,
    aim_angle: i32,
)
    ensures
        ({
            let (t, r) = s.spec_begin_tick(false, grounded, aim_angle);
            &&& t.direction == s.direction
            &&& t.angle == s.angle
            &&& t.input == s.input
            &&& t.hook_view() == s.hook_view()
            &&& t.death == s.death
            &&& t.triggered_events == 0
            &&& !grounded ==> t.jumped == s.jumped
            &&& r == (InputStep { impulse: JumpImpulse::NoJump, placement: HookPlacement::Keep })
        }),
        s.spec_begin_tick(true, grounded, aim_angle).0.direction == s.input.m_Direction,
        s.spec_begin_tick(true, grounded, aim_angle).0.angle == aim_angle,
{
}

} // verus!
