use vstd::prelude::*;

use crate::constants::{
    COREEVENTFLAG_AIR_JUMP, COREEVENTFLAG_GROUND_JUMP, COREEVENTFLAG_HOOK_ATTACH_GROUND,
    COREEVENTFLAG_HOOK_ATTACH_PLAYER, COREEVENTFLAG_HOOK_HIT_NOHOOK,
};

verus! {

/// Scale factor between world units and the integers sent on the wire.
pub const NET_SCALE: i32 = 100;

/// One tick of a player's input, as the network carries it.
#[derive(Debug, Clone, Copy, PartialEq, Eq, Structural)]
pub struct PlayerInput {
    pub direction: i32,
    pub target_x: i32,
    pub target_y: i32,
    pub jump: i32,
    pub fire: i32,
    pub hook: i32,
    pub player_flags: i32,
    pub wanted_weapon: i32,
    pub next_weapon: i32,
    pub prev_weapon: i32,
}

impl PlayerInput {
    /// The all-zero input.
    pub open spec fn default_value() -> PlayerInput {
        PlayerInput {
            direction: 0,
            target_x: 0,
            target_y: 0,
            jump: 0,
            fire: 0,
            hook: 0,
            player_flags: 0,
            wanted_weapon: 0,
            next_weapon: 0,
            prev_weapon: 0,
        }
    }
}

impl Default for PlayerInput {
    fn default() -> (r: PlayerInput)
        ensures
            r == PlayerInput::default_value(),
    {
        PlayerInput {
            direction: 0,
            target_x: 0,
            target_y: 0,
            jump: 0,
            fire: 0,
            hook: 0,
            player_flags: 0,
            wanted_weapon: 0,
            next_weapon: 0,
            prev_weapon: 0,
        }
    }
}

/// A character's physics state as the network carries it: positions in
/// whole world units, velocities and hook direction in 1/256 units.
#[derive(Debug, Clone, Copy, PartialEq, Eq, Structural)]
pub struct CharacterCoreNet {
    pub tick: i32,
    pub x: i32,
    pub y: i32,
    pub vel_x: i32,
    pub vel_y: i32,
    pub angle: i32,
    pub direction: i32,
    pub jumped: i32,
    pub hooked_player: i32,
    pub hook_state: i32,
    pub hook_tick: i32,
    pub hook_x: i32,
    pub hook_y: i32,
    pub hook_dx: i32,
    pub hook_dy: i32,
}

impl Default for CharacterCoreNet {
    fn default() -> (r: CharacterCoreNet)
        ensures
            r == (CharacterCoreNet {
                tick: 0,
                x: 0,
                y: 0,
                vel_x: 0,
                vel_y: 0,
                angle: 0,
                direction: 0,
                jumped: 0,
                hooked_player: 0,
                hook_state: 0,
                hook_tick: 0,
                hook_x: 0,
                hook_y: 0,
                hook_dx: 0,
                hook_dy: 0,
            }),
    {
        CharacterCoreNet {
            tick: 0,
            x: 0,
            y: 0,
            vel_x: 0,
            vel_y: 0,
            angle: 0,
            direction: 0,
            jumped: 0,
            hooked_player: 0,
            hook_state: 0,
            hook_tick: 0,
            hook_x: 0,
            hook_y: 0,
            hook_dx: 0,
            hook_dy: 0,
        }
    }
}

/// The value with only bit `k` set.
pub open spec fn single_bit(k: u32) -> i32 {
    1i32 << k
}

/// A set of player status flags, held as the bits of an `i32`.
#[derive(Debug, Clone, Copy, PartialEq, Eq, Structural)]
pub struct PlayerFlags(i32);

impl View for PlayerFlags {
    type V = i32;

    closed spec fn view(&self) -> i32 {
        self.0
    }
}

#[allow(non_snake_case)]
impl PlayerFlags {
    /// The player is an administrator.
    pub fn ADMIN() -> (r: PlayerFlags)
        ensures
            r@ == single_bit(0),
    {
        PlayerFlags(1 << 0)
    }

    /// The player is typing a chat message.
    pub fn CHATTING() -> (r: PlayerFlags)
        ensures
            r@ == single_bit(1),
    {
        PlayerFlags(1 << 1)
    }

    /// The player has the scoreboard open.
    pub fn SCOREBOARD() -> (r: PlayerFlags)
        ensures
            r@ == single_bit(2),
    {
        PlayerFlags(1 << 2)
    }

    /// The player is ready.
    pub fn READY() -> (r: PlayerFlags)
        ensures
            r@ == single_bit(3),
    {
        PlayerFlags(1 << 3)
    }

    /// The player is dead.
    pub fn DEAD() -> (r: PlayerFlags)
        ensures
            r@ == single_bit(4),
    {
        PlayerFlags(1 << 4)
    }

    /// The player is spectating.
    pub fn WATCHING() -> (r: PlayerFlags)
        ensures
            r@ == single_bit(5),
    {
        PlayerFlags(1 << 5)
    }

    /// The player is a bot.
    pub fn BOT() -> (r: PlayerFlags)
        ensures
            r@ == single_bit(6),
    {
        PlayerFlags(1 << 6)
    }

    /// The set with no flag in it.
    pub fn empty() -> (r: PlayerFlags)
        ensures
            r@ == 0,
    {
        PlayerFlags(0)
    }

    /// The raw bits of the set.
    pub fn bits(&self) -> (r: i32)
        ensures
            r == self@,
    {
        self.0
    }

    /// Whether no flag is set.
    pub fn is_empty(&self) -> (r: bool)
        ensures
            r == (self@ == 0),
    {
        self.0 == 0
    }

    /// Whether every flag of `other` is set in `self`.
    pub fn contains(&self, other: PlayerFlags) -> (r: bool)
        ensures
            r == (self@ & other@ == other@),
    {
        self.0 & other.0 == other.0
    }

    /// Sets every flag of `other` in `self`, keeping the flags already set.
    pub fn insert(&mut self, other: PlayerFlags)
        ensures
            final(self)@ == old(self)@ | other@,
    {
        self.0 = self.0 | other.0;
    }
}

impl Default for PlayerFlags {
    fn default() -> (r: PlayerFlags)
        ensures
            r@ == 0,
    {
        PlayerFlags(0)
    }
}

impl core::ops::BitAnd for PlayerFlags {
    type Output = PlayerFlags;

    fn bitand(self, rhs: PlayerFlags) -> (r: PlayerFlags)
        ensures
            r@ == self@ & rhs@,
    {
        PlayerFlags(self.0 & rhs.0)
    }
}

impl vstd::std_specs::ops::BitAndSpecImpl for PlayerFlags {
    open spec fn obeys_bitand_spec() -> bool {
        true
    }

    open spec fn bitand_req(self, rhs: PlayerFlags) -> bool {
        true
    }

    closed spec fn bitand_spec(self, rhs: PlayerFlags) -> PlayerFlags {
        PlayerFlags(self.0 & rhs.0)
    }
}

/// The set of events one physics tick of a character triggered, held as the bits of an `i32`.
#[derive(Debug, Clone, Copy, PartialEq, Eq, Structural)]
pub struct CoreEventFlags(i32);

impl View for CoreEventFlags {
    type V = i32;

    closed spec fn view(&self) -> i32 {
        self.0
    }
}

#[allow(non_snake_case)]
impl CoreEventFlags {
    /// The character jumped off the ground.
    pub fn GROUND_JUMP() -> (r: CoreEventFlags)
        ensures
            r@ == single_bit(0),
    {
        CoreEventFlags(1 << 0)
    }

    /// The character jumped in the air.
    pub fn AIR_JUMP() -> (r: CoreEventFlags)
        ensures
            r@ == single_bit(1),
    {
        CoreEventFlags(1 << 1)
    }

    /// The hook caught another player.
    pub fn HOOK_ATTACH_PLAYER() -> (r: CoreEventFlags)
        ensures
            r@ == single_bit(2),
    {
        CoreEventFlags(1 << 2)
    }

    /// The hook caught on a hookable tile.
    pub fn HOOK_ATTACH_GROUND() -> (r: CoreEventFlags)
        ensures
            r@ == single_bit(3),
    {
        CoreEventFlags(1 << 3)
    }

    /// The hook hit an unhookable tile.
    pub fn HOOK_HIT_NOHOOK() -> (r: CoreEventFlags)
        ensures
            r@ == single_bit(4),
    {
        CoreEventFlags(1 << 4)
    }

    /// The set with no flag in it.
    pub fn empty() -> (r: CoreEventFlags)
        ensures
            r@ == 0,
    {
        CoreEventFlags(0)
    }

    /// The raw bits of the set.
    pub fn bits(&self) -> (r: i32)
        ensures
            r == self@,
    {
        self.0
    }

    /// Whether no flag is set.
    pub fn is_empty(&self) -> (r: bool)
        ensures
            r == (self@ == 0),
    {
        self.0 == 0
    }

    /// Whether every flag of `other` is set in `self`.
    pub fn contains(&self, other: CoreEventFlags) -> (r: bool)
        ensures
            r == (self@ & other@ == other@),
    {
        self.0 & other.0 == other.0
    }

    /// Sets every flag of `other` in `self`, keeping the flags already set.
    pub fn insert(&mut self, other: CoreEventFlags)
        ensures
            final(self)@ == old(self)@ | other@,
    {
        self.0 = self.0 | other.0;
    }
}

impl Default for CoreEventFlags {
    fn default() -> (r: CoreEventFlags)
        ensures
            r@ == 0,
    {
        CoreEventFlags(0)
    }
}

impl core::ops::BitAnd for CoreEventFlags {
    type Output = CoreEventFlags;

    fn bitand(self, rhs: CoreEventFlags) -> (r: CoreEventFlags)
        ensures
            r@ == self@ & rhs@,
    {
        CoreEventFlags(self.0 & rhs.0)
    }
}

impl vstd::std_specs::ops::BitAndSpecImpl for CoreEventFlags {
    open spec fn obeys_bitand_spec() -> bool {
        true
    }

    open spec fn bitand_req(self, rhs: CoreEventFlags) -> bool {
        true
    }

    closed spec fn bitand_spec(self, rhs: CoreEventFlags) -> CoreEventFlags {
        CoreEventFlags(self.0 & rhs.0)
    }
}

/// Two distinct bit positions below the sign bit give values with no bit in
/// common, so the named flags of each set never overlap.
pub proof fn lemma_single_bits_disjoint(i: u32, j: u32)
    requires
        0 <= i < 31,
        0 <= j < 31,
        i != j,
    ensures
        single_bit(i) & single_bit(j) == 0,
        single_bit(i) != 0,
{
    assert((1i32 << i) & (1i32 << j) == 0 && (1i32 << i) != 0) by (bit_vector)
        requires
            0 <= i < 31,
            0 <= j < 31,
            i != j,
    ;
}

/// After inserting `b` into `a`, the set contains `b`, and every flag it
/// contained before.
pub proof fn lemma_insert_then_contains(a: i32, b: i32, c: i32)
    requires
        a & c == c,
    ensures
        (a | b) & b == b,
        (a | b) & c == c,
{
    assert((a | b) & b == b && (a & c == c ==> (a | b) & c == c)) by (bit_vector);
}

/// Every set contains the empty set.
pub proof fn lemma_contains_empty(a: i32)
    ensures
        a & 0 == 0,
{
    assert(a & 0 == 0) by (bit_vector);
}

/// The named event flags carry the bits of the integer event constants the
/// physics step reports.
pub proof fn lemma_event_flags_match_constants()
    ensures
        single_bit(0) == COREEVENTFLAG_GROUND_JUMP,
        single_bit(1) == COREEVENTFLAG_AIR_JUMP,
        single_bit(2) == COREEVENTFLAG_HOOK_ATTACH_PLAYER,
        single_bit(3) == COREEVENTFLAG_HOOK_ATTACH_GROUND,
        single_bit(4) == COREEVENTFLAG_HOOK_HIT_NOHOOK,
{
    assert(1i32 << 0u32 == 1i32 << 0i32 && 1i32 << 1u32 == 1i32 << 1i32 && 1i32 << 2u32 == 1i32
        << 2i32 && 1i32 << 3u32 == 1i32 << 3i32 && 1i32 << 4u32 == 1i32 << 4i32) by (bit_vector);
}

} // verus!
