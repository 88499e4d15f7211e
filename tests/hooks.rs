use pikemon::engine::{Cpu, Memory, ROM_BANK_SIZE};
use pikemon::hooks::{display_text_hack, sprite_check_hack, DataState, GameData, GameState, NetworkRequest};
use pikemon::offsets::{
    ACTIVE_BATTLE, BATTLE_TYPE, CURRENT_OPPONENT, DISPLAY_TEXT_ID_AFTER_INIT,
    DISPLAY_TEXT_SETUP_DONE, FRAME_COUNTER, MAP_ID, MAP_X, MAP_Y, NUM_SPRITES,
    OVERWORLD_LOOP_START, PLAYER_DIR, PROF_OAK_DATA_ADDR, PROF_OAK_DATA_BANK, SPRITE_CHECK_EXIT_1,
    SPRITE_CHECK_EXIT_2, SPRITE_INDEX, TEXT_PROCESSOR_END, TEXT_PROCESSOR_NEXT_CHAR_1,
    TEXT_PROCESSOR_NEXT_CHAR_2, TRAINER_NUM,
};
use pikemon::extract::player_data;
use pikemon::offsets::{PLAYER_NAME, WALK_COUNTER};
use pikemon::party::{load_party, Party, PartyMon};
use pikemon::player::{MovementData, PlayerData, DIR_DOWN, DIR_LEFT, DIR_RIGHT, DIR_UP};
use pikemon::protocol::{ClientDataManager, NetworkEvent};
use pikemon::text::{encode, END_MSG, TERMINATOR, TEXT_START};

fn memory() -> Memory {
    Memory::new(vec![0u8; 0x10 * ROM_BANK_SIZE])
}

fn peer_at(id: u32, map_id: u8, x: u8, y: u8) -> PlayerData {
    PlayerData {
        id,
        name: encode("PEER"),
        movement_data: MovementData { map_id, map_x: x, map_y: y, direction: DIR_DOWN, walk_counter: 0 },
    }
}

/// Local player on map 3 at (10, 10), facing `dir`.
fn place_local(mem: &mut Memory, dir: u8) {
    mem.sb(MAP_ID, 3);
    mem.sb(MAP_X, 10);
    mem.sb(MAP_Y, 10);
    mem.sb(PLAYER_DIR, dir);
}

fn record_start() -> usize {
    PROF_OAK_DATA_BANK * ROM_BANK_SIZE + (PROF_OAK_DATA_ADDR & 0x3FFF) as usize
}

#[test]
fn sprite_check_hacks_for_peer_in_front() {
    for (dir, x, y) in [(DIR_DOWN, 10, 11), (DIR_UP, 10, 9), (DIR_RIGHT, 11, 10), (DIR_LEFT, 9, 10)] {
        for pc in [SPRITE_CHECK_EXIT_1, SPRITE_CHECK_EXIT_2] {
            let mut mem = memory();
            place_local(&mut mem, dir);
            let mut game = GameData::new();
            game.other_players.insert(4, peer_at(4, 3, 0, 0));
            game.other_players.insert(7, peer_at(7, 3, x, y));
            let mut cpu = Cpu { pc, a: 0 };
            sprite_check_hack(&mut cpu, &mut mem, &mut game);
            assert_eq!(game.sprite_id_state, DataState::Hacked);
            assert_eq!(game.last_interaction, 7);
            assert_eq!(mem.lb(SPRITE_INDEX), 0xFF);
            assert_eq!(cpu, Cpu { pc, a: 0 });

            cpu.pc = OVERWORLD_LOOP_START;
            sprite_check_hack(&mut cpu, &mut mem, &mut game);
            assert_eq!(game.sprite_id_state, DataState::Normal);
        }
    }
}

#[test]
fn sprite_check_ignores_other_maps_and_tiles() {
    let mut mem = memory();
    place_local(&mut mem, DIR_DOWN);
    let mut game = GameData::new();
    game.other_players.insert(7, peer_at(7, 4, 10, 11));
    game.other_players.insert(8, peer_at(8, 3, 10, 12));
    let mut cpu = Cpu { pc: SPRITE_CHECK_EXIT_2, a: 0 };
    sprite_check_hack(&mut cpu, &mut mem, &mut game);
    assert_eq!(game.sprite_id_state, DataState::Normal);
    assert_eq!(game.last_interaction, 0);
    assert_eq!(mem.lb(SPRITE_INDEX), 0);
}

#[test]
fn sprite_check_one_needs_no_sprites() {
    let mut mem = memory();
    place_local(&mut mem, DIR_DOWN);
    mem.sb(NUM_SPRITES, 2);
    let mut game = GameData::new();
    game.other_players.insert(7, peer_at(7, 3, 10, 11));
    let mut cpu = Cpu { pc: SPRITE_CHECK_EXIT_1, a: 0 };
    sprite_check_hack(&mut cpu, &mut mem, &mut game);
    assert_eq!(game.sprite_id_state, DataState::Normal);
    assert_eq!(mem.lb(SPRITE_INDEX), 0);
}

#[test]
fn sprite_check_at_map_edge() {
    let mut mem = memory();
    mem.sb(MAP_ID, 3);
    mem.sb(MAP_X, 0);
    mem.sb(MAP_Y, 0);
    mem.sb(PLAYER_DIR, DIR_LEFT);
    let mut game = GameData::new();
    game.other_players.insert(7, peer_at(7, 3, 255, 0));
    let mut cpu = Cpu { pc: SPRITE_CHECK_EXIT_2, a: 0 };
    sprite_check_hack(&mut cpu, &mut mem, &mut game);
    assert_eq!(game.sprite_id_state, DataState::Normal);
}

#[test]
fn text_hook_needs_hacked_sprite() {
    let mut mem = memory();
    let mut game = GameData::new();
    let mut cpu = Cpu { pc: DISPLAY_TEXT_ID_AFTER_INIT, a: 0 };
    display_text_hack(&mut cpu, &mut mem, &mut game);
    assert_eq!(cpu.pc, DISPLAY_TEXT_ID_AFTER_INIT);
    assert_eq!(game.text_state, DataState::Normal);
    assert_eq!(game.game_state, GameState::Normal);
    assert_eq!(game.network_request, NetworkRequest::Idle);
    assert!(game.current_message.is_empty());
}

#[test]
fn next_char_reads_engine_memory_when_not_hacked() {
    let mut mem = memory();
    let mut game = GameData::new();
    let mut cpu = Cpu { pc: TEXT_PROCESSOR_NEXT_CHAR_2, a: 9 };
    display_text_hack(&mut cpu, &mut mem, &mut game);
    assert_eq!(cpu, Cpu { pc: TEXT_PROCESSOR_NEXT_CHAR_2, a: 9 });
}

#[test]
fn next_char_gives_terminator_when_queue_empty() {
    let mut mem = memory();
    let mut game = GameData::new();
    game.text_state = DataState::Hacked;
    let mut cpu = Cpu { pc: TEXT_PROCESSOR_NEXT_CHAR_2, a: 9 };
    display_text_hack(&mut cpu, &mut mem, &mut game);
    assert_eq!(cpu, Cpu { pc: TEXT_PROCESSOR_NEXT_CHAR_2 + 1, a: TERMINATOR });
    cpu.pc = TEXT_PROCESSOR_END;
    display_text_hack(&mut cpu, &mut mem, &mut game);
    assert_eq!(game.text_state, DataState::Normal);
}

#[test]
fn message_box_is_framed() {
    let mut game = GameData::new();
    game.create_message_box("OK");
    assert_eq!(game.current_message, vec![TEXT_START, 0x8E, 0x8A, END_MSG, TERMINATOR]);
}

#[test]
fn load_party_writes_record() {
    let mut mem = memory();
    let mut pokemon = [PartyMon { species: 1, level: 1 }; 6];
    pokemon[0] = PartyMon { species: 0x54, level: 5 };
    pokemon[1] = PartyMon { species: 0x99, level: 7 };
    load_party(Party { num_pokemon: 2, pokemon }, &mut mem);
    let s = record_start();
    assert_eq!(mem.rom[s..s + 6].to_vec(), vec![0xFF, 5, 0x54, 7, 0x99, 0]);
    assert_eq!(mem.rom[s + 6], 0);
    assert_eq!(mem.rom[s - 1], 0);
}

#[test]
fn load_party_caps_at_six() {
    let mut mem = memory();
    let pokemon = [PartyMon { species: 2, level: 3 }; 6];
    load_party(Party { num_pokemon: 200, pokemon }, &mut mem);
    let s = record_start();
    assert_eq!(mem.rom[s], 0xFF);
    for i in 0..6 {
        assert_eq!(mem.rom[s + 1 + 2 * i], 3);
        assert_eq!(mem.rom[s + 2 + 2 * i], 2);
    }
    assert_eq!(mem.rom[s + 13], 0);
}

#[test]
fn peer_encounter_to_battle() {
    let local_id = 3;
    let mut client = ClientDataManager::new(local_id);
    let mut mem = memory();
    place_local(&mut mem, DIR_RIGHT);
    let mut game = GameData::new();
    game.other_players.insert(7, peer_at(7, 3, 11, 10));

    // The local player walks into the tile of peer 7.
    let mut cpu = Cpu { pc: SPRITE_CHECK_EXIT_2, a: 0 };
    sprite_check_hack(&mut cpu, &mut mem, &mut game);
    assert_eq!(game.sprite_id_state, DataState::Hacked);
    assert_eq!(game.last_interaction, 7);

    // The engine then reaches the text checkpoint.
    cpu.pc = DISPLAY_TEXT_ID_AFTER_INIT;
    display_text_hack(&mut cpu, &mut mem, &mut game);
    assert_eq!(cpu.pc, DISPLAY_TEXT_SETUP_DONE);
    assert_eq!(mem.lb(FRAME_COUNTER), 30);
    assert_eq!(game.text_state, DataState::Hacked);
    assert_eq!(game.network_request, NetworkRequest::Battle(7));
    assert_eq!(game.game_state, GameState::Waiting);
    let mut expected = vec![TEXT_START];
    expected.extend(encode("PLAYER has nothing\nto say."));
    expected.push(END_MSG);
    expected.push(TERMINATOR);
    assert_eq!(game.current_message, expected);

    // The text processor reads the substituted message.
    cpu.pc = TEXT_PROCESSOR_NEXT_CHAR_1;
    display_text_hack(&mut cpu, &mut mem, &mut game);
    assert_eq!(cpu, Cpu { pc: TEXT_PROCESSOR_NEXT_CHAR_1 + 1, a: TEXT_START });
    cpu.pc = TEXT_PROCESSOR_NEXT_CHAR_2;
    display_text_hack(&mut cpu, &mut mem, &mut game);
    assert_eq!(cpu.a, 0x8F);

    // The outbound pass asks peer 7 for its party.
    let sent = client.send_update(&mut game);
    assert_eq!(sent, vec![NetworkEvent::BattleDataRequest(7, local_id)]);
    assert_eq!(game.network_request, NetworkRequest::Idle);

    // Its answer ends the wait and sets up the battle.
    let mut pokemon = [PartyMon { species: 0, level: 0 }; 6];
    pokemon[0] = PartyMon { species: 0xB0, level: 14 };
    let party = Party { num_pokemon: 1, pokemon };
    let replies = client.recv_update(&mut game, &mut mem, vec![NetworkEvent::BattleDataResponse(7, party)]);
    assert!(replies.is_empty());
    assert_eq!(game.game_state, GameState::Normal);
    assert_eq!(mem.lb(BATTLE_TYPE), 0);
    assert_eq!(mem.lb(ACTIVE_BATTLE), 2);
    assert_eq!(mem.lb(TRAINER_NUM), 1);
    assert_eq!(mem.lb(CURRENT_OPPONENT), 0x1A + 200);
    let s = record_start();
    assert_eq!(mem.rom[s..s + 4].to_vec(), vec![0xFF, 14, 0xB0, 0]);

    // Leaving the text processor ends the substitution.
    cpu.pc = TEXT_PROCESSOR_END;
    display_text_hack(&mut cpu, &mut mem, &mut game);
    assert_eq!(game.text_state, DataState::Normal);
}

#[test]
fn local_player_state_from_memory() {
    let mut mem = memory();
    place_local(&mut mem, DIR_UP);
    mem.sb(WALK_COUNTER, 6);
    for (i, b) in encode("ASH").iter().enumerate() {
        mem.sb(PLAYER_NAME + i as u16, *b);
    }
    mem.sb(PLAYER_NAME + 3, TERMINATOR);
    let p = player_data(4, &mem);
    assert_eq!(p.id, 4);
    assert_eq!(p.name, encode("ASH"));
    assert_eq!(
        p.movement_data,
        MovementData { map_id: 3, map_x: 10, map_y: 10, direction: DIR_UP, walk_counter: 6 }
    );
    for i in 0..11u16 {
        mem.sb(PLAYER_NAME + i, 0x80);
    }
    assert_eq!(player_data(4, &mem).name, vec![0x80; 11]);
}
