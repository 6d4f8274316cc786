use vstd::prelude::*;

verus! {

/// The hook's phase, one variant per integer hook state that the network
/// protocol names. The integer value `2` (the middle of the retract
/// animation) has no variant.
#[derive(Debug, Clone, Copy, PartialEq, Eq, Structural)]
pub enum HookState {
    Retracted,
    Idle,
    RetractStart,
    RetractEnd,
    Flying,
    Grabbed,
}

impl HookState {
    /// The integer that stands for this variant on the wire.
    pub open spec fn code(self) -> int {
        match self {
            HookState::Retracted => -1,
            HookState::Idle => 0,
            HookState::RetractStart => 1,
            HookState::RetractEnd => 3,
            HookState::Flying => 4,
            HookState::Grabbed => 5,
        }
    }

    /// The variant whose code is `v`, if any.
    pub open spec fn spec_from_code(v: int) -> Option<HookState> {
        if v == -1 {
            Some(HookState::Retracted)
        } else if v == 0 {
            Some(HookState::Idle)
        } else if v == 1 {
            Some(HookState::RetractStart)
        } else if v == 3 {
            Some(HookState::RetractEnd)
        } else if v == 4 {
            Some(HookState::Flying)
        } else if v == 5 {
            Some(HookState::Grabbed)
        } else {
            None
        }
    }

    pub fn from_i32(v: i32) -> (r: Option<HookState>)
        ensures
            r == Self::spec_from_code(v as int),
    {
        match v {
            -1 => Some(HookState::Retracted),
            0 => Some(HookState::Idle),
            1 => Some(HookState::RetractStart),
            3 => Some(HookState::RetractEnd),
            4 => Some(HookState::Flying),
            5 => Some(HookState::Grabbed),
            _ => None,
        }
    }

    /// The integer code of this variant (its `repr(i32)` discriminant).
    pub fn to_i32(self) -> (r: i32)
        ensures
            r == self.code(),
    {
        match self {
            HookState::Retracted => -1,
            HookState::Idle => 0,
            HookState::RetractStart => 1,
            HookState::RetractEnd => 3,
            HookState::Flying => 4,
            HookState::Grabbed => 5,
        }
    }
}

impl Default for HookState {
    fn default() -> (r: HookState)
        ensures
            r == HookState::Idle,
    {
        HookState::Idle
    }
}

/// Decoding a variant's code gives the variant back.
pub proof fn lemma_from_code_of_code(s: HookState)
    ensures
        HookState::spec_from_code(s.code()) == Some(s),
{
}

/// Every code that decodes is the code of what it decodes to, so no two
/// integers decode to the same variant.
pub proof fn lemma_code_of_decoded(v: int)
    ensures
        HookState::spec_from_code(v) matches Some(s) ==> s.code() == v,
{
}

/// Exactly the six integers -1, 0, 1, 3, 4 and 5 decode.
pub proof fn lemma_decodable_codes(v: int)
    ensures
        HookState::spec_from_code(v) is Some <==> (v == -1 || v == 0 || v == 1 || v == 3 || v == 4
            || v == 5),
{
}

} // verus!
