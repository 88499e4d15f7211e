use pikemon::hooks::GameState;
use pikemon::movement::Flip;
use pikemon::player::{MovementData, PlayerData, DIR_LEFT, DIR_UP};
use pikemon::session::{
    emulator_tick, handle_joypad_event, handle_keyboard_chat, network_tick, sprite_placement,
    ChatAction, InputState, Joypad, Key, KeyboardTarget,
};

#[test]
fn chat_keys() {
    assert_eq!(handle_keyboard_chat(Key::Return), ChatAction::Send);
    assert_eq!(handle_keyboard_chat(Key::Backspace), ChatAction::Erase);
    assert_eq!(handle_keyboard_chat(Key::Space), ChatAction::Type(' '));
    assert_eq!(handle_keyboard_chat(Key::Letter('A')), ChatAction::Type('a'));
    assert_eq!(handle_keyboard_chat(Key::Letter('Z')), ChatAction::Type('z'));
    assert_eq!(handle_keyboard_chat(Key::Up), ChatAction::Ignore);
    assert_eq!(handle_keyboard_chat(Key::Letter('1')), ChatAction::Ignore);
}

#[test]
fn joypad_keys() {
    let mut j = Joypad::new();
    handle_joypad_event(&mut j, Key::Letter('Z'), true);
    handle_joypad_event(&mut j, Key::Up, true);
    handle_joypad_event(&mut j, Key::Return, true);
    assert!(j.a && j.up && j.start);
    assert!(!j.b && !j.down && !j.select);
    handle_joypad_event(&mut j, Key::Up, false);
    handle_joypad_event(&mut j, Key::Letter('Q'), true);
    assert!(!j.up);
    handle_joypad_event(&mut j, Key::RShift, true);
    handle_joypad_event(&mut j, Key::Letter('X'), true);
    assert!(j.select && j.b);
}

#[test]
fn keyboard_switches_to_chat_and_back() {
    let mut input = InputState::new();
    assert_eq!(input.key_down(Key::Space), ChatAction::Ignore);
    assert!(input.fast_mode);
    input.key_up(Key::Space);
    assert!(!input.fast_mode);
    input.key_up(Key::Letter('T'));
    assert_eq!(input.target, KeyboardTarget::ChatBox);
    assert_eq!(input.key_down(Key::Letter('H')), ChatAction::Type('h'));
    assert_eq!(input.joypad, Joypad::new());
    input.key_up(Key::Return);
    assert_eq!(input.target, KeyboardTarget::Emulator);
}

#[test]
fn timing() {
    let t = emulator_tick(false, 1000, GameState::Normal);
    assert!(!t.reset_timer && !t.step);
    let t = emulator_tick(false, 16667, GameState::Normal);
    assert!(t.reset_timer && t.step);
    let t = emulator_tick(true, 0, GameState::Waiting);
    assert!(t.reset_timer && !t.step);
    assert!(!network_tick(16666));
    assert!(network_tick(20000));
}

#[test]
fn placement_of_visible_peer() {
    let me = PlayerData {
        id: 1,
        name: vec![],
        movement_data: MovementData { map_id: 2, map_x: 5, map_y: 5, direction: DIR_UP, walk_counter: 0 },
    };
    let other = PlayerData {
        id: 2,
        name: vec![],
        movement_data: MovementData { map_id: 2, map_x: 6, map_y: 5, direction: DIR_LEFT, walk_counter: 5 },
    };
    let d = sprite_placement(&me, &other).unwrap();
    assert_eq!((d.x, d.y, d.frame, d.flip), ((16 - 6 + 64) * 3, 60 * 3, 5, Flip::Unflipped));
    let far = PlayerData { movement_data: MovementData { map_id: 9, ..other.movement_data }, ..other };
    assert!(sprite_placement(&me, &far).is_none());
}
