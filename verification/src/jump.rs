use vstd::prelude::*;
use crate::constants::{COREEVENTFLAG_AIR_JUMP, COREEVENTFLAG_GROUND_JUMP};

verus! {

/// Which vertical impulse a jump input gives the character.
#[derive(Debug, Clone, Copy, PartialEq, Eq, Structural)]
pub enum JumpImpulse {
    NoJump,
    Ground,
    Air,
}

/// The outcome of the jump input of one tick: the new jump bits, the events
/// it triggered and the impulse the physics applies.
#[derive(Debug, Clone, Copy, PartialEq, Eq, Structural)]
pub struct JumpStep {
    pub jumped: i32,
    pub events: i32,
    pub impulse: JumpImpulse,
}

/// Bit 0 of the jump bits: the jump key has been held since the last jump.
pub open spec fn jump_held(jumped: i32) -> bool {
    jumped & 1 != 0
}

/// Bit 1 of the jump bits: the air jump has been used since the last landing.
pub open spec fn air_jump_spent(jumped: i32) -> bool {
    jumped & 2 != 0
}

/// What the jump input of one tick does. A press jumps only when the key was
/// not already held: off the ground when grounded, else in the air when the
/// air jump is still available (which spends it). Releasing the key clears
/// the held bit.
pub open spec fn spec_jump_input(jumped: i32, pressed: bool, grounded: bool) -> JumpStep {
    if !pressed {
        JumpStep { jumped: jumped & !1i32, events: 0, impulse: JumpImpulse::NoJump }
    } else if jump_held(jumped) {
        JumpStep { jumped, events: 0, impulse: JumpImpulse::NoJump }
    } else if grounded {
        JumpStep { jumped: jumped | 1, events: COREEVENTFLAG_GROUND_JUMP, impulse: JumpImpulse::Ground }
    } else if !air_jump_spent(jumped) {
        JumpStep { jumped: jumped | 3, events: COREEVENTFLAG_AIR_JUMP, impulse: JumpImpulse::Air }
    } else {
        JumpStep { jumped, events: 0, impulse: JumpImpulse::NoJump }
    }
}

/// Touching the ground gives the air jump back.
pub open spec fn spec_land(jumped: i32, grounded: bool) -> i32 {
    if grounded {
        jumped & !2i32
    } else {
        jumped
    }
}

/// Applies the jump key of one tick to the jump bits.
pub fn apply_jump_input(jumped: i32, pressed: bool, grounded: bool) -> (r: JumpStep)
    ensures
        r == spec_jump_input(jumped, pressed, grounded),
{
    if pressed {
        if jumped & 1 == 0 {
            if grounded {
                JumpStep { jumped: jumped | 1, events: COREEVENTFLAG_GROUND_JUMP, impulse: JumpImpulse::Ground }
            } else if jumped & 2 == 0 {
                JumpStep { jumped: jumped | 3, events: COREEVENTFLAG_AIR_JUMP, impulse: JumpImpulse::Air }
            } else {
                JumpStep { jumped, events: 0, impulse: JumpImpulse::NoJump }
            }
        } else {
            JumpStep { jumped, events: 0, impulse: JumpImpulse::NoJump }
        }
    } else {
        JumpStep { jumped: jumped & !1, events: 0, impulse: JumpImpulse::NoJump }
    }
}

/// Clears the spent air jump when the character stands on the ground.
pub fn land(jumped: i32, grounded: bool) -> (r: i32)
    ensures
        r == spec_land(jumped, grounded),
        !grounded ==> r == jumped,
        grounded ==> !air_jump_spent(r) && jump_held(r) == jump_held(jumped),
{
    proof {
        lemma_landing_restores_air_jump(jumped);
    }
    if grounded {
        jumped & !2
    } else {
        jumped
    }
}

/// A jump happens only on a fresh press: never while the key is still held
/// from before, a ground jump only on the ground, an air jump only off the
/// ground with the air jump unspent. After any jump the key counts as held,
/// after an air jump the air jump counts as spent, and each jump reports
/// exactly its own event.
pub proof fn lemma_jump_needs_fresh_press(jumped: i32, pressed: bool, grounded: bool)
    ensures
        ({
            let r = spec_jump_input(jumped, pressed, grounded);
            &&& r.impulse != JumpImpulse::NoJump ==> pressed && !jump_held(jumped) && jump_held(r.jumped)
            &&& r.impulse == JumpImpulse::Ground ==> grounded && r.events == COREEVENTFLAG_GROUND_JUMP
            &&& r.impulse == JumpImpulse::Air ==> !grounded && !air_jump_spent(jumped)
                && air_jump_spent(r.jumped) && r.events == COREEVENTFLAG_AIR_JUMP
            &&& r.impulse == JumpImpulse::NoJump ==> r.events == 0
        }),
{
    assert((jumped | 1) & 1 != 0) by (bit_vector);
    assert((jumped | 3) & 1 != 0 && (jumped | 3) & 2 != 0) by (bit_vector);
}

/// Releasing the key clears the held bit and leaves the air jump as it was.
pub proof fn lemma_release_clears_held(jumped: i32, grounded: bool)
    ensures
        !jump_held(spec_jump_input(jumped, false, grounded).jumped),
        air_jump_spent(spec_jump_input(jumped, false, grounded).jumped) == air_jump_spent(jumped),
{
    assert((jumped & !1i32) & 1 == 0) by (bit_vector);
    assert(((jumped & !1i32) & 2 != 0) == (jumped & 2 != 0)) by (bit_vector);
}

/// Off the ground a spent air jump stays spent through any jump input and
/// the landing check, and no further air jump happens: one air jump per
/// flight.
pub proof fn lemma_one_air_jump_per_flight(jumped: i32, pressed: bool)
    requires
        air_jump_spent(jumped),
    ensures
        spec_jump_input(jumped, pressed, false).impulse != JumpImpulse::Air,
        air_jump_spent(spec_jump_input(jumped, pressed, false).jumped),
        air_jump_spent(spec_land(spec_jump_input(jumped, pressed, false).jumped, false)),
{
    assert(jumped & 2 != 0 ==> (jumped & !1i32) & 2 != 0) by (bit_vector);
}

/// On the ground the air jump is given back and the held bit is kept.
pub proof fn lemma_landing_restores_air_jump(jumped: i32)
    ensures
        !air_jump_spent(spec_land(jumped, true)),
        jump_held(spec_land(jumped, true)) == jump_held(jumped),
{
    assert((jumped & !2i32) & 2 == 0) by (bit_vector);
    assert(((jumped & !2i32) & 1 != 0) == (jumped & 1 != 0)) by (bit_vector);
}

/// What the jump key does to the jump bits in one tick: when the input is
/// used, the key is applied; either way the air jump comes back on the
/// ground.
pub open spec fn spec_tick_jump(jumped: i32, use_input: bool, pressed: bool, grounded: bool) -> JumpStep {
    if use_input {
        let r = spec_jump_input(jumped, pressed, grounded);
        JumpStep { jumped: spec_land(r.jumped, grounded), events: r.events, impulse: r.impulse }
    } else {
        JumpStep { jumped: spec_land(jumped, grounded), events: 0, impulse: JumpImpulse::NoJump }
    }
}

/// The jump bits after a run of ticks off the ground, each given as
/// (input used, jump key pressed).
pub open spec fn airborne_jumped(jumped: i32, ticks: Seq<(bool, bool)>) -> i32
    decreases ticks.len(),
{
    if ticks.len() == 0 {
        jumped
    } else {
        let prev = airborne_jumped(jumped, ticks.drop_last());
        spec_tick_jump(prev, ticks.last().0, ticks.last().1, false).jumped
    }
}

/// How many ticks of a run off the ground report an air jump.
pub open spec fn airborne_air_jumps(jumped: i32, ticks: Seq<(bool, bool)>) -> nat
    decreases ticks.len(),
{
    if ticks.len() == 0 {
        0
    } else {
        let prev = airborne_jumped(jumped, ticks.drop_last());
        airborne_air_jumps(jumped, ticks.drop_last()) + if spec_tick_jump(
            prev,
            ticks.last().0,
            ticks.last().1,
            false,
        ).events == COREEVENTFLAG_AIR_JUMP {
            1nat
        } else {
            0nat
        }
    }
}

/// Over any run of ticks off the ground at most one tick reports an air
/// jump; none does when the air jump was spent before the run; and once one
/// did, the air jump stays spent for the rest of the run.
pub proof fn lemma_one_air_jump_per_flight_over_ticks(jumped: i32, ticks: Seq<(bool, bool)>)
    ensures
        airborne_air_jumps(jumped, ticks) <= 1,
        air_jump_spent(jumped) ==> airborne_air_jumps(jumped, ticks) == 0,
        air_jump_spent(jumped) ==> air_jump_spent(airborne_jumped(jumped, ticks)),
        airborne_air_jumps(jumped, ticks) == 1 ==> air_jump_spent(airborne_jumped(jumped, ticks)),
    decreases ticks.len(),
{
    if ticks.len() > 0 {
        let rest = ticks.drop_last();
        lemma_one_air_jump_per_flight_over_ticks(jumped, rest);
        let prev = airborne_jumped(jumped, rest);
        let (used, pressed) = ticks.last();
        lemma_jump_needs_fresh_press(prev, pressed, false);
        lemma_release_clears_held(prev, false);
        assert(COREEVENTFLAG_GROUND_JUMP != COREEVENTFLAG_AIR_JUMP && COREEVENTFLAG_AIR_JUMP != 0)
            by (bit_vector);
        if air_jump_spent(prev) {
            lemma_one_air_jump_per_flight(prev, pressed);
            assert(spec_tick_jump(prev, used, pressed, false).events != COREEVENTFLAG_AIR_JUMP);
        }
    }
}

/// Off the ground the landing check leaves the jump bits exactly as they
/// are; on the ground it clears only the spent air jump.
pub proof fn lemma_land_touches_only_the_air_jump(jumped: i32)
    ensures
        spec_land(jumped, false) == jumped,
        spec_land(jumped, true) & !2i32 == jumped & !2i32,
        !air_jump_spent(spec_land(jumped, true)),
{
    assert((jumped & !2i32) & !2i32 == jumped & !2i32) by (bit_vector);
    lemma_landing_restores_air_jump(jumped);
}

/// The air jump becomes spent in a tick only by an air jump in that tick:
/// whatever the input, if the jump bits after the tick mark the air jump
/// spent and those before did not, the tick made an air jump.
pub proof fn lemma_air_jump_spent_only_by_air_jump(
    jumped: i32,
    use_input: bool,
    pressed: bool,
    grounded: bool,
)
    ensures
        ({
            let r = spec_tick_jump(jumped, use_input, pressed, grounded);
            air_jump_spent(r.jumped) && !air_jump_spent(jumped) ==> r.impulse == JumpImpulse::Air
        }),
{
    assert(((jumped | 1) & 2 != 0) == (jumped & 2 != 0)) by (bit_vector);
    assert(((jumped & !1i32) & 2 != 0) == (jumped & 2 != 0)) by (bit_vector);
    assert((jumped & !2i32) & 2 == 0) by (bit_vector);
    assert(((jumped | 1) & !2i32) & 2 == 0) by (bit_vector);
    assert(((jumped | 3) & !2i32) & 2 == 0) by (bit_vector);
    assert(((jumped & !1i32) & !2i32) & 2 == 0) by (bit_vector);
}

/// What each jump input does, case by case: releasing the key clears only
/// the held bit; a key still held does nothing; a fresh press on the ground
/// jumps off it and marks the key held; a fresh press in the air with the
/// air jump available jumps in the air, marking the key held and the air
/// jump spent; a fresh press in the air with the air jump spent does
/// nothing.
pub proof fn lemma_jump_input_cases(jumped: i32, grounded: bool)
    ensures
        spec_jump_input(jumped, false, grounded) == (JumpStep {
            jumped: jumped & !1i32,
            events: 0,
            impulse: JumpImpulse::NoJump,
        }),
        jump_held(jumped) ==> spec_jump_input(jumped, true, grounded) == (JumpStep {
            jumped,
            events: 0,
            impulse: JumpImpulse::NoJump,
        }),
        !jump_held(jumped) && grounded ==> spec_jump_input(jumped, true, grounded) == (JumpStep {
            jumped: jumped | 1,
            events: COREEVENTFLAG_GROUND_JUMP,
            impulse: JumpImpulse::Ground,
        }),
        !jump_held(jumped) && !grounded && !air_jump_spent(jumped) ==> spec_jump_input(
            jumped,
            true,
            grounded,
        ) == (JumpStep { jumped: jumped | 3, events: COREEVENTFLAG_AIR_JUMP, impulse: JumpImpulse::Air }),
        !jump_held(jumped) && !grounded && air_jump_spent(jumped) ==> spec_jump_input(
            jumped,
            true,
            grounded,
        ) == (JumpStep { jumped, events: 0, impulse: JumpImpulse::NoJump }),
{
}

} // verus!
