# rust_core

Character physics core of a 2D multiplayer platformer (walking, jumping,
hooking), split in two:

- `src/` — the verified library (Verus). It holds every integer rule of a
  physics tick and the data the network and the game server exchange:
  - `hook_state`: the typed hook state and its integer codes;
  - `constants`: hook states, event flags, tick rate;
  - `jump`: the jump key (ground jump, one air jump per flight);
  - `hook`: the hook state machine (firing, flight outcome, holding a player,
    timeout, retract animation) and its consistency invariant;
  - `collision`: reading the tile flags a hook ray reports;
  - `character_state`: the integer state of a character, the input part of a
    tick, reset, and the network fields;
  - `character_core`: the same fields in typed form (`HookState`,
    `CoreEventFlags`);
  - `net_obj`, `netobj`, `c_api`: inputs, network objects, flag sets, and the
    server's tuning layout.
- `app/` — ordinary Rust: the `f32` vectors and tuning, the movement and hook
  geometry of a tick (which call the library for every decision), the map
  collision callbacks and the C interface.
