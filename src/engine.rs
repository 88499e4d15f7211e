use vstd::prelude::*;

verus! {

/// Size of the engine's address space.
pub const ADDRESS_SPACE: usize = 0x10000;

/// Size of one switchable cartridge ROM bank.
pub const ROM_BANK_SIZE: usize = 0x4000;

/// The two registers that the hooks touch.
#[derive(Clone, Copy, Debug, PartialEq, Eq, Structural)]
pub struct Cpu {
    /// Program counter.
    pub pc: u16,
    /// Accumulator.
    pub a: u8,
}

impl Cpu {
    /// Continues execution at `addr`.
    pub fn jump(&mut self, addr: u16)
        ensures
            *final(self) == (Cpu { pc: addr, a: old(self).a }),
    {
        self.pc = addr;
    }
}

/// The engine's memory: its address space and the cartridge ROM, bank after bank.
pub struct Memory {
    pub ram: Vec<u8>,
    pub rom: Vec<u8>,
}

impl Memory {
    pub open spec fn wf(&self) -> bool {
        self.ram@.len() == ADDRESS_SPACE
    }

    /// Index in `rom` of `offset` within `bank`.
    pub open spec fn rom_index(bank: usize, offset: usize) -> int {
        bank * ROM_BANK_SIZE + offset
    }

    /// A zeroed address space over the given cartridge ROM.
    pub fn new(rom: Vec<u8>) -> (r: Memory)
        ensures
            r.wf(),
            r.rom@ == rom@,
            forall|i: int| 0 <= i < ADDRESS_SPACE ==> r.ram@[i] == 0,
    {
        let mut ram: Vec<u8> = Vec::new();
        let mut i: usize = 0;
        while i < ADDRESS_SPACE
            invariant
                i <= ADDRESS_SPACE,
                ram@.len() == i,
                forall|j: int| 0 <= j < i ==> ram@[j] == 0,
            decreases ADDRESS_SPACE - i,
        {
            ram.push(0);
            i = i + 1;
        }
        Memory { ram, rom }
    }

    /// Loads the byte at `addr`.
    pub fn lb(&self, addr: u16) -> (r: u8)
        requires
            self.wf(),
        ensures
            r == self.ram@[addr as int],
    {
        self.ram[addr as usize]
    }

    /// Stores `value` at `addr`.
    pub fn sb(&mut self, addr: u16, value: u8)
        requires
            old(self).wf(),
        ensures
            final(self).wf(),
            final(self).ram@ == old(self).ram@.update(addr as int, value),
            final(self).rom@ == old(self).rom@,
    {
        self.ram.set(addr as usize, value);
    }

    /// Overwrites the ROM byte at `offset` within `bank`.
    pub fn write_rom(&mut self, bank: usize, offset: usize, value: u8)
        requires
            offset < ROM_BANK_SIZE,
            Self::rom_index(bank, offset) < old(self).rom@.len(),
        ensures
            final(self).ram@ == old(self).ram@,
            final(self).rom@ == old(self).rom@.update(Self::rom_index(bank, offset), value),
    {
        let len = self.rom.len();
        assert(bank * ROM_BANK_SIZE + offset < len);
        self.rom.set(bank * ROM_BANK_SIZE + offset, value);
    }
}

} // verus!
