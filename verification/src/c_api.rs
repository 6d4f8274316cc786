use vstd::prelude::*;

verus! {

/// A player's input in the layout the game server's network object uses.
#[derive(Debug, Clone, Copy, PartialEq, Eq, Structural)]
pub struct CNetObjPlayerInput {
    pub m_direction: i32,
    pub m_target_x: i32,
    pub m_target_y: i32,
    pub m_jump: i32,
    pub m_fire: i32,
    pub m_hook: i32,
    pub m_player_flags: i32,
    pub m_wanted_weapon: i32,
    pub m_next_weapon: i32,
    pub m_prev_weapon: i32,
}

/// The game server's tuning parameters, each stored as its value times 100,
/// in the server's field order.
#[allow(non_camel_case_types)]
#[derive(Debug, Clone, Copy, PartialEq, Eq, Structural)]
pub struct CTuningParams_C {
    pub ground_control_speed: i32,
    pub ground_control_accel: i32,
    pub ground_friction: i32,
    pub ground_jump_impulse: i32,
    pub air_jump_impulse: i32,
    pub air_control_speed: i32,
    pub air_control_accel: i32,
    pub air_friction: i32,
    pub hook_length: i32,
    pub hook_fire_speed: i32,
    pub hook_drag_accel: i32,
    pub hook_drag_speed: i32,
    pub gravity: i32,
    pub velramp_start: i32,
    pub velramp_range: i32,
    pub velramp_curvature: i32,
    pub gun_curvature: i32,
    pub gun_speed: i32,
    pub gun_lifetime: i32,
    pub shotgun_curvature: i32,
    pub shotgun_speed: i32,
    pub shotgun_speeddiff: i32,
    pub shotgun_lifetime: i32,
    pub grenade_curvature: i32,
    pub grenade_speed: i32,
    pub grenade_lifetime: i32,
    pub laser_reach: i32,
    pub laser_bounce_delay: i32,
    pub laser_bounce_num: i32,
    pub laser_bounce_cost: i32,
    pub player_collision: i32,
    pub player_hooking: i32,
}

} // verus!
