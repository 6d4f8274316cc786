use vstd::prelude::*;

verus! {

/// Physics ticks per second.
pub const SERVER_TICK_SPEED: i32 = 50;

/// The hook is travelling back and may not be fired again until released.
pub const HOOK_RETRACTED: i32 = -1;
/// The hook rests at the character.
pub const HOOK_IDLE: i32 = 0;
/// First frame of the retract animation.
pub const HOOK_RETRACT_START: i32 = 1;
/// Last frame of the retract animation.
pub const HOOK_RETRACT_END: i32 = 3;
/// The hook flies away from the character.
pub const HOOK_FLYING: i32 = 4;
/// The hook holds on to a tile or a player.
pub const HOOK_GRABBED: i32 = 5;

pub const COREEVENTFLAG_GROUND_JUMP: i32 = 1 << 0;
pub const COREEVENTFLAG_AIR_JUMP: i32 = 1 << 1;
pub const COREEVENTFLAG_HOOK_ATTACH_PLAYER: i32 = 1 << 2;
pub const COREEVENTFLAG_HOOK_ATTACH_GROUND: i32 = 1 << 3;
pub const COREEVENTFLAG_HOOK_HIT_NOHOOK: i32 = 1 << 4;

/// Number of ticks a hook may hold on to a player (a second and a quarter).
pub open spec fn player_hook_ticks() -> int {
    SERVER_TICK_SPEED + SERVER_TICK_SPEED / 5
}

} // verus!
