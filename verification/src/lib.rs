use vstd::prelude::*;

pub mod c_api;
pub mod character_core;
pub mod character_state;
pub mod collision;
pub mod constants;
pub mod hook;
pub mod hook_state;
pub mod jump;
pub mod net_obj;
pub mod netobj;

verus! {

/// Number of client slots a world holds.
pub const MAX_CLIENTS: usize = 64;

} // verus!
