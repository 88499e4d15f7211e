use vstd::prelude::*;

use crate::engine::{Memory, ROM_BANK_SIZE};
use crate::offsets::{
    ACTIVE_BATTLE, ACTIVE_BATTLE_TRAINER, BATTLE_TYPE, BATTLE_TYPE_NORMAL, CURRENT_OPPONENT,
    PARTY_COUNT, PARTY_MON_LEVEL, PARTY_MON_SIZE, PARTY_SPECIES, PROF_OAK_DATA_ADDR,
    PROF_OAK_DATA_BANK, TRAINER_CLASS_PROF_OAK, TRAINER_NUM, TRAINER_TAG,
};

verus! {

/// Number of slots in a party.
pub const PARTY_SIZE: usize = 6;

/// One creature of a party.
#[derive(Clone, Copy, Debug, PartialEq, Eq, Structural)]
pub struct PartyMon {
    pub species: u8,
    pub level: u8,
}

/// A party of up to six creatures; slots from `num_pokemon` on are unused.
#[derive(Clone, Copy, Debug, PartialEq, Eq)]
pub struct Party {
    pub num_pokemon: u8,
    pub pokemon: [PartyMon; 6],
}

/// Number of slots of `p` in use.
pub open spec fn used_slots(p: Party) -> int {
    if p.num_pokemon as int > PARTY_SIZE {
        PARTY_SIZE as int
    } else {
        p.num_pokemon as int
    }
}

/// The trainer party record the engine reads: 0xFF, then level and species of each slot in
/// use, then 0.
pub open spec fn party_record(p: Party) -> Seq<u8> {
    let n = used_slots(p);
    Seq::new(
        (2 * n + 2) as nat,
        |j: int|
            if j == 0 {
                0xFFu8
            } else if j == 2 * n + 1 {
                0u8
            } else if j % 2 == 1 {
                p.pokemon@[(j - 1) / 2].level
            } else {
                p.pokemon@[(j - 2) / 2].species
            },
    )
}

/// Offset within its bank of the professor's party record.
pub open spec fn record_offset() -> int {
    (PROF_OAK_DATA_ADDR & 0x3FFF) as int
}

/// Index in the flat ROM of the professor's party record.
pub open spec fn record_start() -> int {
    PROF_OAK_DATA_BANK * ROM_BANK_SIZE + record_offset()
}

/// `rom` with the professor's party record overwritten by the record of `p`.
pub open spec fn rom_with_party(rom: Seq<u8>, p: Party) -> Seq<u8> {
    let record = party_record(p);
    Seq::new(
        rom.len(),
        |j: int|
            if record_start() <= j < record_start() + record.len() {
                record[j - record_start()]
            } else {
                rom[j]
            },
    )
}

/// The engine variables that `set_battle` sets.
pub open spec fn battle_ram(ram: Seq<u8>) -> Seq<u8> {
    ram.update(BATTLE_TYPE as int, BATTLE_TYPE_NORMAL).update(
        ACTIVE_BATTLE as int,
        ACTIVE_BATTLE_TRAINER,
    ).update(TRAINER_NUM as int, 1u8).update(
        CURRENT_OPPONENT as int,
        (TRAINER_CLASS_PROF_OAK + TRAINER_TAG) as u8,
    )
}

/// The local party as the engine holds it in its variables.
pub open spec fn spec_player_party(ram: Seq<u8>) -> Party {
    let count = ram[PARTY_COUNT as int];
    Party {
        num_pokemon: if count as int > PARTY_SIZE { PARTY_SIZE as u8 } else { count },
        pokemon: [
            PartyMon { species: ram[PARTY_SPECIES + 0], level: ram[PARTY_MON_LEVEL + 0] },
            PartyMon { species: ram[PARTY_SPECIES + 1], level: ram[PARTY_MON_LEVEL + 44] },
            PartyMon { species: ram[PARTY_SPECIES + 2], level: ram[PARTY_MON_LEVEL + 88] },
            PartyMon { species: ram[PARTY_SPECIES + 3], level: ram[PARTY_MON_LEVEL + 132] },
            PartyMon { species: ram[PARTY_SPECIES + 4], level: ram[PARTY_MON_LEVEL + 176] },
            PartyMon { species: ram[PARTY_SPECIES + 5], level: ram[PARTY_MON_LEVEL + 220] },
        ],
    }
}

fn read_mon(mem: &Memory, slot: u16) -> (r: PartyMon)
    requires
        mem.wf(),
        slot < 6,
    ensures
        r.species == mem.ram@[PARTY_SPECIES + slot],
        r.level == mem.ram@[PARTY_MON_LEVEL + PARTY_MON_SIZE * slot],
{
    PartyMon {
        species: mem.lb(PARTY_SPECIES + slot),
        level: mem.lb(PARTY_MON_LEVEL + PARTY_MON_SIZE * slot),
    }
}

/// Reads the local player's party out of the engine's variables.
pub fn player_party(mem: &Memory) -> (r: Party)
    requires
        mem.wf(),
    ensures
        r == spec_player_party(mem.ram@),
{
    let count = mem.lb(PARTY_COUNT);
    let num_pokemon: u8 = if count as usize > PARTY_SIZE {
        PARTY_SIZE as u8
    } else {
        count
    };
    let r = Party {
        num_pokemon,
        pokemon: [
            read_mon(mem, 0),
            read_mon(mem, 1),
            read_mon(mem, 2),
            read_mon(mem, 3),
            read_mon(mem, 4),
            read_mon(mem, 5),
        ],
    };
    assert(r.pokemon@ =~= spec_player_party(mem.ram@).pokemon@);
    r
}

/// Writes `party` over the professor's party record in the cartridge ROM.
pub fn load_party(party: Party, mem: &mut Memory)
    requires
        old(mem).rom@.len() >= (PROF_OAK_DATA_BANK + 1) * ROM_BANK_SIZE,
    ensures
        final(mem).ram@ == old(mem).ram@,
        final(mem).rom@ == rom_with_party(old(mem).rom@, party),
{
    let bank = PROF_OAK_DATA_BANK;
    let base: usize = (PROF_OAK_DATA_ADDR & 0x3FFF) as usize;
    assert(base == 0x221D) by (bit_vector)
        requires
            base == (0x621Du16 & 0x3FFFu16) as usize,
    ;
    let n: usize = if party.num_pokemon as usize > PARTY_SIZE {
        PARTY_SIZE
    } else {
        party.num_pokemon as usize
    };
    let ghost record = party_record(party);
    let ghost start = record_start();
    mem.write_rom(bank, base, 0xFF);
    let mut i: usize = 0;
    while i < n
        invariant
            n == used_slots(party),
            i <= n,
            start == bank * ROM_BANK_SIZE + base,
            base == 0x221D,
            bank == PROF_OAK_DATA_BANK,
            record == party_record(party),
            mem.ram@ == old(mem).ram@,
            mem.rom@.len() == old(mem).rom@.len(),
            old(mem).rom@.len() >= (PROF_OAK_DATA_BANK + 1) * ROM_BANK_SIZE,
            forall|j: int|
                0 <= j < mem.rom@.len() ==> #[trigger] mem.rom@[j] == if start <= j < start + 2 * i
                    + 1 {
                    record[j - start]
                } else {
                    old(mem).rom@[j]
                },
        decreases n - i,
    {
        let mon = party.pokemon[i];
        mem.write_rom(bank, base + 1 + 2 * i, mon.level);
        mem.write_rom(bank, base + 2 + 2 * i, mon.species);
        i = i + 1;
    }
    mem.write_rom(bank, base + 1 + 2 * n, 0);
    assert(mem.rom@ =~= rom_with_party(old(mem).rom@, party));
}

/// Sets the engine up for a trainer battle against the professor, with `party` as his
/// party.
pub fn set_battle(mem: &mut Memory, party: Party)
    requires
        old(mem).wf(),
        old(mem).rom@.len() >= (PROF_OAK_DATA_BANK + 1) * ROM_BANK_SIZE,
    ensures
        final(mem).wf(),
        final(mem).ram@ == battle_ram(old(mem).ram@),
        final(mem).rom@ == rom_with_party(old(mem).rom@, party),
{
    mem.sb(BATTLE_TYPE, BATTLE_TYPE_NORMAL);
    mem.sb(ACTIVE_BATTLE, ACTIVE_BATTLE_TRAINER);
    mem.sb(TRAINER_NUM, 1);
    mem.sb(CURRENT_OPPONENT, TRAINER_CLASS_PROF_OAK + TRAINER_TAG);
    load_party(party, mem);
}

} // verus!
