use vstd::prelude::*;
use crate::MAX_CLIENTS;
use crate::collision::LineHit;
use crate::hook_state::HookState;
use crate::constants::{
    player_hook_ticks, COREEVENTFLAG_HOOK_ATTACH_GROUND, COREEVENTFLAG_HOOK_ATTACH_PLAYER,
    COREEVENTFLAG_HOOK_HIT_NOHOOK, HOOK_FLYING, HOOK_GRABBED, HOOK_IDLE, HOOK_RETRACTED,
    HOOK_RETRACT_END, HOOK_RETRACT_START, SERVER_TICK_SPEED,
};

verus! {

/// The integer part of a character's hook: its state, the slot of the player
/// it holds (`-1` for none) and the ticks it has held on.
#[derive(Debug, Clone, Copy, PartialEq, Eq, Structural)]
pub struct HookStatus {
    pub state: i32,
    pub hooked_player: i32,
    pub tick: i32,
}

/// What the caller measured about a flying hook's tick: whether the flight
/// went past the hook's length, what the map's line test found on the flight
/// segment, and which player, if any, the hook caught.
#[derive(Debug, Clone, Copy, PartialEq, Eq, Structural)]
pub struct FlightReport {
    pub out_of_range: bool,
    pub line: LineHit,
    pub hit_player: Option<usize>,
}

/// Where a hook step puts the hook's position; the position itself is
/// computed by the caller.
#[derive(Debug, Clone, Copy, PartialEq, Eq, Structural)]
pub enum HookPlacement {
    /// The position stays as it is.
    Keep,
    /// The hook goes back to the character's position.
    AtCharacter,
    /// The hook is launched: it starts in front of the character, flying
    /// towards the aimed direction.
    Launch,
    /// The hook moves to the end of this tick's flight segment.
    AtFlightEnd,
    /// The hook follows the player it holds.
    AtHookedPlayer,
}

/// The result of one step of the hook: its new integer state, the events the
/// step triggered and where the hook goes.
#[derive(Debug, Clone, Copy, PartialEq, Eq, Structural)]
pub struct HookStep {
    pub hook: HookStatus,
    pub events: i32,
    pub placement: HookPlacement,
}

/// The hook states the physics uses: -1 (retracted) through 5 (grabbed),
/// with 1, 2 and 3 the frames of the retract animation.
pub open spec fn valid_hook_state(state: i32) -> bool {
    HOOK_RETRACTED <= state <= HOOK_GRABBED
}

/// The hook is in a known state, and holds a player only while grabbed,
/// by the index of a client slot.
pub open spec fn hook_consistent(h: HookStatus) -> bool {
    &&& valid_hook_state(h.state)
    &&& h.hooked_player != -1 ==> h.state == HOOK_GRABBED && 0 <= h.hooked_player < MAX_CLIENTS
}

/// The hook lets go: retracted, holding nobody, back at the character.
pub open spec fn released(h: HookStatus, tick: i32) -> HookStep {
    HookStep {
        hook: HookStatus { state: HOOK_RETRACTED, hooked_player: -1i32, tick },
        events: 0,
        placement: HookPlacement::AtCharacter,
    }
}

/// A step that changes nothing.
pub open spec fn unchanged(h: HookStatus) -> HookStep {
    HookStep { hook: h, events: 0, placement: HookPlacement::Keep }
}

/// The hook key of one tick: pressing it with the hook idle fires the hook;
/// pressing it otherwise changes nothing; releasing it brings the hook back
/// to idle at once.
pub open spec fn spec_hook_input(h: HookStatus, pressed: bool) -> HookStep {
    if pressed {
        if h.state == HOOK_IDLE {
            HookStep {
                hook: HookStatus { state: HOOK_FLYING, hooked_player: -1i32, tick: 0i32 },
                events: 0,
                placement: HookPlacement::Launch,
            }
        } else {
            unchanged(h)
        }
    } else {
        HookStep {
            hook: HookStatus { state: HOOK_IDLE, hooked_player: -1i32, tick: h.tick },
            events: 0,
            placement: HookPlacement::AtCharacter,
        }
    }
}

/// The hook's own progress in a tick, for every state but flying (see
/// `resolve_flight`) and grabbed (see `track_hooked_player`): an idle hook
/// stays at the character; the retract animation moves one frame on, and its
/// last frame ends retracted.
pub open spec fn spec_hook_advance(h: HookStatus) -> HookStep {
    if h.state == HOOK_IDLE {
        HookStep {
            hook: HookStatus { state: HOOK_IDLE, hooked_player: -1i32, tick: h.tick },
            events: 0,
            placement: HookPlacement::AtCharacter,
        }
    } else if HOOK_RETRACT_START <= h.state < HOOK_RETRACT_END {
        unchanged(HookStatus { state: (h.state + 1) as i32, ..h })
    } else if h.state == HOOK_RETRACT_END {
        unchanged(HookStatus { state: HOOK_RETRACTED, ..h })
    } else {
        unchanged(h)
    }
}

/// The end of a flying hook's tick. A player on the flight segment (the
/// nearest one, chosen by the caller) is caught, whatever else happened. If
/// not, a hook that went past its length starts retracting and stays where
/// it was; otherwise it moves to the end of the segment, where an
/// unhookable tile (solid or not) sends it back and any other solid tile
/// catches it.
pub open spec fn spec_resolve_flight(h: HookStatus, flight: FlightReport) -> HookStep {
    match flight.hit_player {
        Some(i) => HookStep {
            hook: HookStatus { state: HOOK_GRABBED, hooked_player: i as i32, tick: h.tick },
            events: COREEVENTFLAG_HOOK_ATTACH_PLAYER,
            placement: HookPlacement::Keep,
        },
        None => if flight.out_of_range {
            unchanged(HookStatus { state: HOOK_RETRACT_START, ..h })
        } else if flight.line.hit_nohook {
            HookStep {
                hook: HookStatus { state: HOOK_RETRACT_START, ..h },
                events: COREEVENTFLAG_HOOK_HIT_NOHOOK,
                placement: HookPlacement::AtFlightEnd,
            }
        } else if flight.line.hit_solid {
            HookStep {
                hook: HookStatus { state: HOOK_GRABBED, ..h },
                events: COREEVENTFLAG_HOOK_ATTACH_GROUND,
                placement: HookPlacement::AtFlightEnd,
            }
        } else {
            HookStep { hook: h, events: 0, placement: HookPlacement::AtFlightEnd }
        },
    }
}

/// A grabbed hook that holds a player follows that player while its slot is
/// occupied, and lets go once the slot is empty.
pub open spec fn spec_track_hooked_player(h: HookStatus, slots: Seq<bool>) -> HookStep {
    if h.hooked_player == -1 {
        unchanged(h)
    } else if slots[h.hooked_player as int] {
        HookStep { hook: h, events: 0, placement: HookPlacement::AtHookedPlayer }
    } else {
        released(h, h.tick)
    }
}

/// A grabbed hook counts one more tick; one that holds a player lets go once
/// it has held on longer than `player_hook_ticks()` or the player's slot is
/// empty.
pub open spec fn spec_hook_timeout(h: HookStatus, slots: Seq<bool>) -> HookStep {
    let tick = (h.tick + 1) as i32;
    if h.hooked_player != -1 && (tick > player_hook_ticks() || !slots[h.hooked_player as int]) {
        released(h, tick)
    } else {
        unchanged(HookStatus { tick, ..h })
    }
}

/// Applies the hook key of one tick.
pub fn hook_input(h: HookStatus, pressed: bool) -> (r: HookStep)
    ensures
        r == spec_hook_input(h, pressed),
        pressed && h.state != HOOK_IDLE ==> r == (HookStep { hook: h, events: 0, placement: HookPlacement::Keep }),
        pressed && h.state == HOOK_IDLE ==> r.hook.state == HOOK_FLYING && r.hook.tick == 0
            && r.hook.hooked_player == -1 && r.placement == HookPlacement::Launch,
        !pressed ==> r.hook.state == HOOK_IDLE && r.hook.hooked_player == -1 && r.placement
            == HookPlacement::AtCharacter,
{
    if pressed {
        if h.state == HOOK_IDLE {
            HookStep {
                hook: HookStatus { state: HOOK_FLYING, hooked_player: -1i32, tick: 0i32 },
                events: 0,
                placement: HookPlacement::Launch,
            }
        } else {
            HookStep { hook: h, events: 0, placement: HookPlacement::Keep }
        }
    } else {
        HookStep {
            hook: HookStatus { state: HOOK_IDLE, hooked_player: -1i32, tick: h.tick },
            events: 0,
            placement: HookPlacement::AtCharacter,
        }
    }
}

/// Moves an idle or retracting hook on by one tick.
pub fn hook_advance(h: HookStatus) -> (r: HookStep)
    ensures
        r == spec_hook_advance(h),
        !(HOOK_IDLE <= h.state <= HOOK_RETRACT_END) ==> r == (HookStep {
            hook: h,
            events: 0,
            placement: HookPlacement::Keep,
        }),
{
    if h.state == HOOK_IDLE {
        HookStep {
            hook: HookStatus { state: HOOK_IDLE, hooked_player: -1i32, tick: h.tick },
            events: 0,
            placement: HookPlacement::AtCharacter,
        }
    } else if h.state >= HOOK_RETRACT_START && h.state < HOOK_RETRACT_END {
        HookStep {
            hook: HookStatus { state: h.state + 1, ..h },
            events: 0,
            placement: HookPlacement::Keep,
        }
    } else if h.state == HOOK_RETRACT_END {
        HookStep {
            hook: HookStatus { state: HOOK_RETRACTED, ..h },
            events: 0,
            placement: HookPlacement::Keep,
        }
    } else {
        HookStep { hook: h, events: 0, placement: HookPlacement::Keep }
    }
}

/// Ends the tick of a flying hook, from what the caller measured of its
/// flight.
pub fn resolve_flight(h: HookStatus, flight: FlightReport) -> (r: HookStep)
    requires
        h.state == HOOK_FLYING,
        flight.hit_player matches Some(i) ==> i < MAX_CLIENTS,
    ensures
        r == spec_resolve_flight(h, flight),
{
    match flight.hit_player {
        Some(i) => HookStep {
            hook: HookStatus { state: HOOK_GRABBED, hooked_player: i as i32, tick: h.tick },
            events: COREEVENTFLAG_HOOK_ATTACH_PLAYER,
            placement: HookPlacement::Keep,
        },
        None => {
            if flight.out_of_range {
                HookStep {
                    hook: HookStatus { state: HOOK_RETRACT_START, ..h },
                    events: 0,
                    placement: HookPlacement::Keep,
                }
            } else if flight.line.hit_nohook {
                HookStep {
                    hook: HookStatus { state: HOOK_RETRACT_START, ..h },
                    events: COREEVENTFLAG_HOOK_HIT_NOHOOK,
                    placement: HookPlacement::AtFlightEnd,
                }
            } else if flight.line.hit_solid {
                HookStep {
                    hook: HookStatus { state: HOOK_GRABBED, ..h },
                    events: COREEVENTFLAG_HOOK_ATTACH_GROUND,
                    placement: HookPlacement::AtFlightEnd,
                }
            } else {
                HookStep { hook: h, events: 0, placement: HookPlacement::AtFlightEnd }
            }
        },
    }
}

/// Makes a grabbed hook follow the player it holds, given which client
/// slots are occupied.
pub fn track_hooked_player(h: HookStatus, slots: &[bool]) -> (r: HookStep)
    requires
        h.hooked_player == -1 || 0 <= h.hooked_player < slots@.len(),
    ensures
        r == spec_track_hooked_player(h, slots@),
        h.hooked_player == -1 ==> r == (HookStep { hook: h, events: 0, placement: HookPlacement::Keep }),
{
    if h.hooked_player == -1 {
        HookStep { hook: h, events: 0, placement: HookPlacement::Keep }
    } else if slots[h.hooked_player as usize] {
        HookStep { hook: h, events: 0, placement: HookPlacement::AtHookedPlayer }
    } else {
        HookStep {
            hook: HookStatus { state: HOOK_RETRACTED, hooked_player: -1i32, tick: h.tick },
            events: 0,
            placement: HookPlacement::AtCharacter,
        }
    }
}

/// Counts a tick of a grabbed hook and lets go of a player held too long or
/// gone, given which client slots are occupied.
pub fn hook_timeout(h: HookStatus, slots: &[bool]) -> (r: HookStep)
    requires
        h.tick < i32::MAX,
        h.hooked_player == -1 || 0 <= h.hooked_player < slots@.len(),
    ensures
        r == spec_hook_timeout(h, slots@),
{
    let tick = h.tick + 1;
    if h.hooked_player != -1 {
        let alive = slots[h.hooked_player as usize];
        if tick > SERVER_TICK_SPEED + SERVER_TICK_SPEED / 5 || !alive {
            return HookStep {
                hook: HookStatus { state: HOOK_RETRACTED, hooked_player: -1i32, tick },
                events: 0,
                placement: HookPlacement::AtCharacter,
            };
        }
    }
    HookStep { hook: HookStatus { tick, ..h }, events: 0, placement: HookPlacement::Keep }
}

/// Every hook step keeps the hook consistent: the state stays one of the
/// known states, and a player is held only by a grabbed hook, by a slot
/// index.
pub proof fn lemma_hook_steps_keep_consistency(
    h: HookStatus,
    pressed: bool,
    flight: FlightReport,
    slots: Seq<bool>,
)
    requires
        hook_consistent(h),
        flight.hit_player matches Some(i) ==> i < MAX_CLIENTS,
        slots.len() == MAX_CLIENTS,
    ensures
        hook_consistent(spec_hook_input(h, pressed).hook),
        hook_consistent(spec_hook_advance(h).hook),
        h.state == HOOK_FLYING ==> hook_consistent(spec_resolve_flight(h, flight).hook),
        hook_consistent(spec_track_hooked_player(h, slots).hook),
        hook_consistent(spec_hook_timeout(h, slots).hook),
{
}

/// A retracting hook is retracted after three ticks, passing through every
/// frame of the animation.
pub proof fn lemma_retract_takes_three_ticks(h: HookStatus)
    requires
        h.state == HOOK_RETRACT_START,
    ensures
        spec_hook_advance(h).hook.state == 2,
        spec_hook_advance(spec_hook_advance(h).hook).hook.state == HOOK_RETRACT_END,
        spec_hook_advance(spec_hook_advance(spec_hook_advance(h).hook).hook).hook.state
            == HOOK_RETRACTED,
{
}

/// A hook still holding a player after its tick was counted has held on no
/// longer than `player_hook_ticks()` and holds a player whose slot is
/// occupied.
pub proof fn lemma_player_hook_times_out(h: HookStatus, slots: Seq<bool>)
    requires
        h.tick < i32::MAX,
        h.hooked_player == -1 || 0 <= h.hooked_player < slots.len(),
    ensures
        ({
            let r = spec_hook_timeout(h, slots).hook;
            r.hooked_player != -1 ==> r.tick <= player_hook_ticks() && slots[r.hooked_player as int]
                && r.hooked_player == h.hooked_player
        }),
{
}

/// The hook after `n` counted ticks of holding on.
pub open spec fn counted_ticks(h: HookStatus, slots: Seq<bool>, n: nat) -> HookStatus
    decreases n,
{
    if n == 0 {
        h
    } else {
        spec_hook_timeout(counted_ticks(h, slots, (n - 1) as nat), slots).hook
    }
}

/// A hook that caught a player with its tick at zero (as a launched hook
/// has) holds on for at most `player_hook_ticks()` counted ticks: while it
/// still holds the player after `n` of them, its tick is `n` and `n` is
/// within the limit.
pub proof fn lemma_player_hook_duration(h: HookStatus, slots: Seq<bool>, n: nat)
    requires
        h.tick == 0,
        0 <= h.hooked_player < slots.len(),
    ensures
        counted_ticks(h, slots, n).hooked_player != -1 ==> counted_ticks(h, slots, n).tick == n
            && counted_ticks(h, slots, n).hooked_player == h.hooked_player
            && n <= player_hook_ticks(),
    decreases n,
{
    if n > 0 {
        lemma_player_hook_duration(h, slots, (n - 1) as nat);
    }
}

/// The integer hook states that have a `HookState` variant are exactly the
/// known states other than the middle retract frame 2.
pub proof fn lemma_typed_hook_states(state: i32)
    ensures
        HookState::spec_from_code(state as int) is Some <==> valid_hook_state(state) && state != 2,
        HookState::spec_from_code(state as int) matches Some(t) ==> t.code() == state,
{
}

/// The hook's integer state after one whole tick: the hook key (when the
/// input is used), then the rest of the hook's tick (`spec_hook_phase`).
pub open spec fn spec_hook_tick(
    h: HookStatus,
    use_input: bool,
    pressed: bool,
    flight: FlightReport,
    slots: Seq<bool>,
) -> HookStatus {
    let h1 = if use_input {
        spec_hook_input(h, pressed).hook
    } else {
        h
    };
    spec_hook_phase(h1, flight, slots).hook
}

/// A whole tick keeps the hook consistent and never leaves it holding the
/// character's own slot, whatever the input and whatever the caller measured
/// (a measurement never reports the character's own slot as hit). A hook
/// that still holds a player after the tick holds one whose slot is
/// occupied, and has held on for at most `player_hook_ticks()` ticks. The
/// steps after the hook key never index a slot outside the world.
pub proof fn lemma_hook_tick_keeps_consistency(
    h: HookStatus,
    use_input: bool,
    pressed: bool,
    flight: FlightReport,
    slots: Seq<bool>,
    own_slot: Option<usize>,
)
    requires
        hook_consistent(h),
        own_slot matches Some(o) ==> h.hooked_player != o,
        flight.hit_player matches Some(i) ==> i < MAX_CLIENTS && own_slot != Some(i),
        slots.len() == MAX_CLIENTS,
    ensures
        ({
            let r = spec_hook_tick(h, use_input, pressed, flight, slots);
            &&& hook_consistent(r)
            &&& own_slot matches Some(o) ==> r.hooked_player != o
            &&& r.hooked_player != -1 ==> slots[r.hooked_player as int] && r.tick
                <= player_hook_ticks()
        }),
        ({
            let h1 = if use_input {
                spec_hook_input(h, pressed).hook
            } else {
                h
            };
            h1.tick < i32::MAX ==> hook_phase_safe(h1, flight, slots)
        }),
{
    let h1 = if use_input {
        spec_hook_input(h, pressed).hook
    } else {
        h
    };
    lemma_hook_steps_keep_consistency(h, pressed, flight, slots);
    lemma_hook_steps_keep_consistency(h1, pressed, flight, slots);
    let h2 = spec_flight_or_advance(h1, flight).hook;
    lemma_hook_steps_keep_consistency(h2, pressed, flight, slots);
    let h3 = spec_track_hooked_player(h2, slots).hook;
    lemma_hook_steps_keep_consistency(h3, pressed, flight, slots);
}

/// What the hook part of a tick tells the caller to do with the hook's
/// position, in order: after the flight (or the hook's own progress), after
/// following the held player, whether to apply the drag of a hook grabbed on
/// a tile, and after counting the tick.
#[derive(Debug, Clone, Copy, PartialEq, Eq, Structural)]
pub struct HookPhase {
    pub flight: HookPlacement,
    pub track: HookPlacement,
    pub ground_drag: bool,
    pub timeout: HookPlacement,
}

/// The hook's integer state, the events and the placements after the hook
/// part of a tick.
#[derive(Debug, Clone, Copy, PartialEq, Eq, Structural)]
pub struct HookPhaseOutcome {
    pub hook: HookStatus,
    pub events: i32,
    pub phase: HookPhase,
}

/// A flying hook ends its flight; any other hook makes its own progress.
pub open spec fn spec_flight_or_advance(h: HookStatus, flight: FlightReport) -> HookStep {
    if h.state == HOOK_FLYING {
        spec_resolve_flight(h, flight)
    } else {
        spec_hook_advance(h)
    }
}

/// The hook part of a tick after the hook key, in the tick's order: the
/// flight or the hook's own progress; then, if the hook is grabbed,
/// following the held player and counting the tick. A grabbed hook that
/// holds no player after following drags the character.
pub open spec fn spec_hook_phase(h: HookStatus, flight: FlightReport, slots: Seq<bool>) -> HookPhaseOutcome {
    let s2 = spec_flight_or_advance(h, flight);
    if s2.hook.state == HOOK_GRABBED {
        let s3 = spec_track_hooked_player(s2.hook, slots);
        let s4 = spec_hook_timeout(s3.hook, slots);
        HookPhaseOutcome {
            hook: s4.hook,
            events: s2.events,
            phase: HookPhase {
                flight: s2.placement,
                track: s3.placement,
                ground_drag: s3.hook.hooked_player == -1,
                timeout: s4.placement,
            },
        }
    } else {
        HookPhaseOutcome {
            hook: s2.hook,
            events: s2.events,
            phase: HookPhase {
                flight: s2.placement,
                track: HookPlacement::Keep,
                ground_drag: false,
                timeout: HookPlacement::Keep,
            },
        }
    }
}

/// The inputs on which the hook part of a tick runs without an index out of
/// the slots or a tick count overflow: a caught player is a slot of the
/// world, and a hook that ends up grabbed holds nobody or a slot of `slots`,
/// with its tick below the maximum.
pub open spec fn hook_phase_safe(h: HookStatus, flight: FlightReport, slots: Seq<bool>) -> bool {
    let h2 = spec_flight_or_advance(h, flight).hook;
    &&& h.state == HOOK_FLYING ==> (flight.hit_player matches Some(i) ==> i < MAX_CLIENTS)
    &&& h2.state == HOOK_GRABBED ==> (h2.hooked_player == -1 || 0 <= h2.hooked_player < slots.len())
        && h2.tick < i32::MAX
}

/// Ends a flying hook's flight, or moves any other hook on by one tick.
pub fn flight_or_advance(h: HookStatus, flight: FlightReport) -> (r: HookStep)
    requires
        h.state == HOOK_FLYING ==> (flight.hit_player matches Some(i) ==> i < MAX_CLIENTS),
    ensures
        r == spec_flight_or_advance(h, flight),
{
    if h.state == HOOK_FLYING {
        resolve_flight(h, flight)
    } else {
        hook_advance(h)
    }
}

/// Runs the hook part of a tick after the hook key, in the tick's order.
pub fn hook_phase(h: HookStatus, flight: FlightReport, slots: &[bool]) -> (r: HookPhaseOutcome)
    requires
        hook_phase_safe(h, flight, slots@),
    ensures
        r == spec_hook_phase(h, flight, slots@),
{
    let s2 = flight_or_advance(h, flight);
    if s2.hook.state == HOOK_GRABBED {
        let s3 = track_hooked_player(s2.hook, slots);
        let s4 = hook_timeout(s3.hook, slots);
        HookPhaseOutcome {
            hook: s4.hook,
            events: s2.events,
            phase: HookPhase {
                flight: s2.placement,
                track: s3.placement,
                ground_drag: s3.hook.hooked_player == -1,
                timeout: s4.placement,
            },
        }
    } else {
        HookPhaseOutcome {
            hook: s2.hook,
            events: s2.events,
            phase: HookPhase {
                flight: s2.placement,
                track: HookPlacement::Keep,
                ground_drag: false,
                timeout: HookPlacement::Keep,
            },
        }
    }
}

/// A held hook key fires only an idle hook: with the key pressed, a hook in
/// any other state (flying, grabbed, retracting, retracted) is left exactly
/// as it is where it is; an idle hook is launched, flying, holding nobody,
/// with its tick restarted. Releasing the key always brings the hook back
/// idle at the character.
pub proof fn lemma_held_key_fires_only_idle_hook(h: HookStatus)
    ensures
        h.state != HOOK_IDLE ==> spec_hook_input(h, true) == (HookStep {
            hook: h,
            events: 0,
            placement: HookPlacement::Keep,
        }),
        h.state == HOOK_IDLE ==> spec_hook_input(h, true) == (HookStep {
            hook: HookStatus { state: HOOK_FLYING, hooked_player: -1i32, tick: 0i32 },
            events: 0,
            placement: HookPlacement::Launch,
        }),
        spec_hook_input(h, false) == (HookStep {
            hook: HookStatus { state: HOOK_IDLE, hooked_player: -1i32, tick: h.tick },
            events: 0,
            placement: HookPlacement::AtCharacter,
        }),
{
}

/// The hook's own progress changes only idle and retracting hooks: a
/// flying, grabbed or retracted hook (or one in an unknown state) is left
/// exactly as it is, where it is.
pub proof fn lemma_advance_leaves_other_states(h: HookStatus)
    requires
        !(HOOK_IDLE <= h.state <= HOOK_RETRACT_END),
    ensures
        spec_hook_advance(h) == (HookStep { hook: h, events: 0, placement: HookPlacement::Keep }),
{
}

/// A grabbed hook that holds no player stays where it is when it follows,
/// and keeps holding: following changes nothing.
pub proof fn lemma_tile_hook_stays_when_following(h: HookStatus, slots: Seq<bool>)
    requires
        h.hooked_player == -1,
    ensures
        spec_track_hooked_player(h, slots) == (HookStep {
            hook: h,
            events: 0,
            placement: HookPlacement::Keep,
        }),
{
}

/// A hook grabbed on a tile keeps holding through the hook part of every
/// tick: it stays grabbed on the same spot, holding no player, counts one
/// tick, triggers nothing, and drags the character.
pub proof fn lemma_tile_hook_holds(h: HookStatus, flight: FlightReport, slots: Seq<bool>)
    requires
        h.state == HOOK_GRABBED,
        h.hooked_player == -1,
        h.tick < i32::MAX,
    ensures
        spec_hook_phase(h, flight, slots) == (HookPhaseOutcome {
            hook: HookStatus { state: HOOK_GRABBED, hooked_player: -1i32, tick: (h.tick + 1) as i32 },
            events: 0,
            phase: HookPhase {
                flight: HookPlacement::Keep,
                track: HookPlacement::Keep,
                ground_drag: true,
                timeout: HookPlacement::Keep,
            },
        }),
{
}

/// Counting a grabbed hook's tick: the tick goes up by one; a hook on a
/// tile is never let go by the count; a hook holding a player lets go
/// (retracted, at the character) exactly when the new count exceeds
/// `player_hook_ticks()` or the player's slot is empty, and otherwise keeps
/// holding where it is.
pub proof fn lemma_hook_timeout_cases(h: HookStatus, slots: Seq<bool>)
    requires
        h.tick < i32::MAX,
    ensures
        spec_hook_timeout(h, slots).hook.tick == h.tick + 1,
        h.hooked_player == -1 ==> spec_hook_timeout(h, slots) == (HookStep {
            hook: HookStatus { tick: (h.tick + 1) as i32, ..h },
            events: 0,
            placement: HookPlacement::Keep,
        }),
        h.hooked_player != -1 ==> (spec_hook_timeout(h, slots).hook.hooked_player == -1 <==> (h.tick
            + 1 > player_hook_ticks() || !slots[h.hooked_player as int])),
        h.hooked_player != -1 && spec_hook_timeout(h, slots).hook.hooked_player == -1 ==> spec_hook_timeout(
            h,
            slots,
        ).hook.state == HOOK_RETRACTED && spec_hook_timeout(h, slots).placement
            == HookPlacement::AtCharacter,
        h.hooked_player != -1 && spec_hook_timeout(h, slots).hook.hooked_player != -1 ==> spec_hook_timeout(
            h,
            slots,
        ) == (HookStep {
            hook: HookStatus { tick: (h.tick + 1) as i32, ..h },
            events: 0,
            placement: HookPlacement::Keep,
        }),
{
}

/// How a flight ends: a caught player always wins and is held; otherwise a
/// flight past the hook's length starts the retract and stays put; an
/// unhookable tile starts the retract at the end of the segment; a solid
/// hookable tile grabs there; with nothing hit the hook keeps flying to the
/// end of the segment. The tick count is never changed by a flight.
pub proof fn lemma_flight_outcomes(h: HookStatus, flight: FlightReport)
    requires
        flight.hit_player matches Some(i) ==> i < MAX_CLIENTS,
    ensures
        spec_resolve_flight(h, flight).hook.tick == h.tick,
        flight.hit_player matches Some(i) ==> spec_resolve_flight(h, flight).hook.state == HOOK_GRABBED
            && spec_resolve_flight(h, flight).hook.hooked_player == i
            && spec_resolve_flight(h, flight).events == COREEVENTFLAG_HOOK_ATTACH_PLAYER,
        flight.hit_player is None && flight.out_of_range ==> spec_resolve_flight(h, flight).hook.state
            == HOOK_RETRACT_START && spec_resolve_flight(h, flight).placement == HookPlacement::Keep
            && spec_resolve_flight(h, flight).events == 0,
        flight.hit_player is None && !flight.out_of_range && flight.line.hit_nohook ==> spec_resolve_flight(
            h,
            flight,
        ).hook.state == HOOK_RETRACT_START && spec_resolve_flight(h, flight).events
            == COREEVENTFLAG_HOOK_HIT_NOHOOK && spec_resolve_flight(h, flight).placement
            == HookPlacement::AtFlightEnd,
        flight.hit_player is None && !flight.out_of_range && !flight.line.hit_nohook
            && flight.line.hit_solid ==> spec_resolve_flight(h, flight).hook.state == HOOK_GRABBED
            && spec_resolve_flight(h, flight).hook.hooked_player == h.hooked_player
            && spec_resolve_flight(h, flight).events == COREEVENTFLAG_HOOK_ATTACH_GROUND
            && spec_resolve_flight(h, flight).placement == HookPlacement::AtFlightEnd,
        flight.hit_player is None && !flight.out_of_range && !flight.line.hit_nohook
            && !flight.line.hit_solid ==> spec_resolve_flight(h, flight) == (HookStep {
            hook: h,
            events: 0,
            placement: HookPlacement::AtFlightEnd,
        }),
{
}

} // verus!
