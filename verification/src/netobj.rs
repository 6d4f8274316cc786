use vstd::prelude::*;

verus! {

/// The part of a player's input the character physics reads: walking
/// direction, aim target, and the jump and hook keys.
#[allow(non_snake_case)]
#[derive(Debug, Clone, Copy, PartialEq, Eq, Structural)]
pub struct PlayerInput {
    pub m_TargetX: i32,
    pub m_TargetY: i32,
    pub m_Direction: i32,
    pub m_Jump: bool,
    pub m_Hook: bool,
}

impl Default for PlayerInput {
    fn default() -> (r: PlayerInput)
        ensures
            r == (PlayerInput {
                m_TargetX: 0,
                m_TargetY: 0,
                m_Direction: 0,
                m_Jump: false,
                m_Hook: false,
            }),
    {
        PlayerInput { m_TargetX: 0, m_TargetY: 0, m_Direction: 0, m_Jump: false, m_Hook: false }
    }
}

} // verus!
