use vstd::prelude::*;

verus! {

/// Tile flag: the tile blocks movement.
pub const COLFLAG_SOLID: i32 = 1;
/// Tile flag: the tile kills what touches it.
pub const COLFLAG_DEATH: i32 = 2;
/// Tile flag: the tile cannot be hooked.
pub const COLFLAG_NOHOOK: i32 = 4;

/// What a hook ray found on its way, read from the tile flags that the map's
/// line test reported. A solid tile may also be unhookable; the hook step
/// gives the unhookable mark precedence.
#[derive(Debug, Clone, Copy, PartialEq, Eq, Structural)]
pub struct LineHit {
    /// A solid tile stops the ray.
    pub hit_solid: bool,
    /// The tile that stops the ray is marked unhookable.
    pub hit_nohook: bool,
}

/// Reads the flags of the tile that stopped a line: whether it is solid and
/// whether it is unhookable.
pub fn classify_line_hit(flags: i32) -> (r: LineHit)
    ensures
        r.hit_solid == (flags & COLFLAG_SOLID != 0),
        r.hit_nohook == (flags & COLFLAG_NOHOOK != 0),
{
    LineHit { hit_solid: flags & COLFLAG_SOLID != 0, hit_nohook: flags & COLFLAG_NOHOOK != 0 }
}

} // verus!
