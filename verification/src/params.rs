//! Host-owned configuration, held as plain values: the four ROM banks,
//! the bank selection, the trampoline vector flags, the instruction
//! clock rate, and the voice enable switches.

use vstd::prelude::*;

verus! {

/// Which of the four ROM banks the CPU currently reads from.
#[derive(Clone, Copy, Debug, PartialEq, Eq, Structural)]
pub enum RomBank {
    A,
    B,
    C,
    D,
}

impl RomBank {
    /// The bank's position in the bank table.
    pub open spec fn spec_index(self) -> int {
        match self {
            RomBank::A => 0,
            RomBank::B => 1,
            RomBank::C => 2,
            RomBank::D => 3,
        }
    }

    pub fn as_index(&self) -> (i: usize)
        ensures
            i == self.spec_index(),
    {
        match self {
            RomBank::A => 0,
            RomBank::B => 1,
            RomBank::C => 2,
            RomBank::D => 3,
        }
    }

    pub fn from_index(index: usize) -> (r: Option<RomBank>)
        ensures
            index < 4 ==> (r matches Some(b) && b.spec_index() == index),
            index >= 4 ==> r is None,
    {
        match index {
            0 => Some(RomBank::A),
            1 => Some(RomBank::B),
            2 => Some(RomBank::C),
            3 => Some(RomBank::D),
            _ => None,
        }
    }
}

/// What the host hands the engine each tick: ROM contents and bank
/// selection, the instruction clock rate in Hz, the four trampoline
/// vector flags, and the per-voice enable switches.
pub struct SixFiveParams {
    pub rom_bank_select: RomBank,
    /// Four banks of 64 big-endian 16-bit words each.
    pub rom_banks: Vec<Vec<u16>>,
    /// Target instruction rate in Hz, 1..=1_000_000.
    pub clock_speed: u32,
    /// The four host-owned boolean flags readable at 0xFC..=0xFF.
    pub trampoline_vectors: Vec<bool>,
    pub square_wave_1_enable: bool,
    pub square_wave_2_enable: bool,
    pub triangle_wave_enable: bool,
    pub noise_enable: bool,
}

impl SixFiveParams {
    pub open spec fn wf(&self) -> bool {
        &&& self.rom_banks@.len() == 4
        &&& forall|i: int| 0 <= i < 4 ==> (#[trigger] self.rom_banks@[i])@.len() == 64
        &&& self.trampoline_vectors@.len() == 4
        &&& 1 <= self.clock_speed <= 1_000_000
    }

    /// The ROM byte at `address`: the word holds the even address's
    /// byte in its high half and the odd address's byte in its low half.
    pub open spec fn spec_rom_byte(&self, address: u8) -> u8
        recommends
            self.wf(),
            address < 0x80,
    {
        let word = self.rom_banks@[self.rom_bank_select.spec_index()]@[address as int / 2];
        if address % 2 == 0 {
            (word >> 8) as u8
        } else {
            word as u8
        }
    }

    pub fn read_rom(&self, address: u8) -> (b: u8)
        requires
            self.wf(),
            address < 0x80,
        ensures
            b == self.spec_rom_byte(address),
    {
        let bank_index = self.rom_bank_select.as_index();
        let word = self.rom_banks[bank_index][(address / 2) as usize];
        if address % 2 == 0 {
            (word >> 8) as u8
        } else {
            word as u8
        }
    }

    /// The trampoline vector flag at `address`, as 0 or 1.
    pub open spec fn spec_trampoline(&self, address: u8) -> u8
        recommends
            self.wf(),
            0xFC <= address,
    {
        if self.trampoline_vectors@[address - 0xFC] {
            1
        } else {
            0
        }
    }

    pub fn read_trampoline_vector(&self, address: u8) -> (b: u8)
        requires
            self.wf(),
            0xFC <= address,
        ensures
            b == self.spec_trampoline(address),
    {
        if self.trampoline_vectors[(address - 0xFC) as usize] {
            1
        } else {
            0
        }
    }
}

impl Default for SixFiveParams {
    /// Bank A selected, all ROM words zero, clock at 10 Hz, all
    /// trampoline vectors off, all voices enabled.
    fn default() -> (d: Self)
        ensures
            d.wf(),
            d.rom_bank_select == RomBank::A,
            forall|i: int, j: int|
                0 <= i < 4 && 0 <= j < 64 ==> #[trigger] (d.rom_banks@[i]@[j]) == 0,
            d.clock_speed == 10,
            forall|i: int| 0 <= i < 4 ==> !(#[trigger] d.trampoline_vectors@[i]),
            d.square_wave_1_enable,
            d.square_wave_2_enable,
            d.triangle_wave_enable,
            d.noise_enable,
    {
        let mut rom_banks: Vec<Vec<u16>> = Vec::new();
        while rom_banks.len() < 4
            invariant
                rom_banks@.len() <= 4,
                forall|i: int|
                    0 <= i < rom_banks@.len() ==> (#[trigger] rom_banks@[i])@.len() == 64,
                forall|i: int, j: int|
                    0 <= i < rom_banks@.len() && 0 <= j < 64
                        ==> #[trigger] (rom_banks@[i]@[j]) == 0,
            decreases 4 - rom_banks@.len(),
        {
            let mut bank: Vec<u16> = Vec::new();
            while bank.len() < 64
                invariant
                    bank@.len() <= 64,
                    forall|j: int| 0 <= j < bank@.len() ==> bank@[j] == 0,
                decreases 64 - bank@.len(),
            {
                bank.push(0);
            }
            rom_banks.push(bank);
        }
        let mut trampoline_vectors: Vec<bool> = Vec::new();
        while trampoline_vectors.len() < 4
            invariant
                trampoline_vectors@.len() <= 4,
                forall|i: int|
                    0 <= i < trampoline_vectors@.len() ==> !(#[trigger] trampoline_vectors@[i]),
            decreases 4 - trampoline_vectors@.len(),
        {
            trampoline_vectors.push(false);
        }
        SixFiveParams {
            rom_bank_select: RomBank::A,
            rom_banks,
            clock_speed: 10,
            trampoline_vectors,
            square_wave_1_enable: true,
            square_wave_2_enable: true,
            triangle_wave_enable: true,
            noise_enable: true,
        }
    }
}

} // verus!
