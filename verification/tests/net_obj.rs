use rust_core::constants::{
    COREEVENTFLAG_AIR_JUMP, COREEVENTFLAG_GROUND_JUMP, COREEVENTFLAG_HOOK_ATTACH_GROUND,
    COREEVENTFLAG_HOOK_ATTACH_PLAYER, COREEVENTFLAG_HOOK_HIT_NOHOOK,
};
use rust_core::net_obj::{CharacterCoreNet, CoreEventFlags, PlayerFlags, PlayerInput, NET_SCALE};

#[test]
fn player_input_default_is_zero() {
    let input = PlayerInput::default();
    assert_eq!(input.direction, 0);
    assert_eq!(input.jump, 0);
}

#[test]
fn character_core_net_default_is_zero() {
    let core = CharacterCoreNet::default();
    assert_eq!(core.x, 0);
    assert_eq!(core.hook_state, 0);
}

#[test]
fn player_flags_no_overlap() {
    assert!((PlayerFlags::ADMIN() & PlayerFlags::CHATTING()).is_empty());
    assert!((PlayerFlags::DEAD() & PlayerFlags::BOT()).is_empty());
}

#[test]
fn player_flags_insert_and_contains() {
    let mut flags = PlayerFlags::default();
    flags.insert(PlayerFlags::CHATTING());
    assert!(flags.contains(PlayerFlags::CHATTING()));
    assert!(!flags.contains(PlayerFlags::DEAD()));
}

#[test]
fn core_event_flags_no_overlap() {
    assert!((CoreEventFlags::GROUND_JUMP() & CoreEventFlags::AIR_JUMP()).is_empty());
    assert!((CoreEventFlags::HOOK_ATTACH_PLAYER() & CoreEventFlags::HOOK_HIT_NOHOOK()).is_empty());
}

#[test]
fn player_flag_bits_are_single_bits() {
    let all = [
        PlayerFlags::ADMIN(),
        PlayerFlags::CHATTING(),
        PlayerFlags::SCOREBOARD(),
        PlayerFlags::READY(),
        PlayerFlags::DEAD(),
        PlayerFlags::WATCHING(),
        PlayerFlags::BOT(),
    ];
    for (k, f) in all.iter().enumerate() {
        assert_eq!(f.bits(), 1 << k);
        for (l, g) in all.iter().enumerate() {
            if k != l {
                assert!((*f & *g).is_empty());
            }
        }
    }
}

#[test]
fn event_flags_match_integer_constants() {
    assert_eq!(CoreEventFlags::GROUND_JUMP().bits(), COREEVENTFLAG_GROUND_JUMP);
    assert_eq!(CoreEventFlags::AIR_JUMP().bits(), COREEVENTFLAG_AIR_JUMP);
    assert_eq!(CoreEventFlags::HOOK_ATTACH_PLAYER().bits(), COREEVENTFLAG_HOOK_ATTACH_PLAYER);
    assert_eq!(CoreEventFlags::HOOK_ATTACH_GROUND().bits(), COREEVENTFLAG_HOOK_ATTACH_GROUND);
    assert_eq!(CoreEventFlags::HOOK_HIT_NOHOOK().bits(), COREEVENTFLAG_HOOK_HIT_NOHOOK);
}

#[test]
fn insert_keeps_existing_flags() {
    let mut flags = CoreEventFlags::empty();
    assert!(flags.is_empty());
    assert!(flags.contains(CoreEventFlags::empty()));
    flags.insert(CoreEventFlags::GROUND_JUMP());
    flags.insert(CoreEventFlags::HOOK_ATTACH_GROUND());
    assert!(flags.contains(CoreEventFlags::GROUND_JUMP()));
    assert!(flags.contains(CoreEventFlags::HOOK_ATTACH_GROUND()));
    assert!(!flags.contains(CoreEventFlags::AIR_JUMP()));
    assert_eq!(flags.bits(), 0b1001);
    let both = CoreEventFlags::GROUND_JUMP() & flags;
    assert_eq!(both, CoreEventFlags::GROUND_JUMP());
    assert_eq!(CoreEventFlags::default(), CoreEventFlags::empty());
    assert_eq!(NET_SCALE, 100);
}
