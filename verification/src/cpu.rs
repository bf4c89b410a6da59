//! The fetch/decode/execute engine over the 256-byte address space.
//!
//! The map: 0x00..=0x7F is ROM (read-only), 0x80..=0x9F is RAM,
//! 0xA0..=0xAF are the sound chip registers, 0xB0..=0xEF is
//! unimplemented, 0xF0..=0xFB is the undefined trampoline band, and
//! 0xFC..=0xFF are the host-owned trampoline vector flags (read-only).
//! Any access outside what the map allows is a memory fault; a fault
//! or an unknown opcode halts the clock and is reported, never a
//! panic.

use vstd::prelude::*;
use crate::params::SixFiveParams;
use crate::sound::{SoundChip, SoundState, lemma_register_round_trip, spec_sound_read,
    spec_sound_write, spec_sound_zero};

verus! {

/// Why instruction execution stopped this tick.
#[derive(Clone, Copy, Debug, PartialEq, Eq, Structural)]
pub enum Fault {
    /// A read or write touched an address the memory map forbids.
    MemoryFault,
    /// The fetched opcode is not in the instruction table.
    UnimplementedOpcode,
}

/// The mathematical state of the CPU: registers, RAM and the sound
/// chip it owns.
pub ghost struct CpuState {
    pub accumulator: u8,
    pub instruction_pointer: u8,
    /// (zero flag, negative flag).
    pub status_register: (bool, bool),
    pub clock_running: bool,
    pub beats_waiting: u8,
    pub cycles_waiting: u8,
    pub ram: Seq<u8>,
    pub sound: SoundState,
}

impl CpuState {
    pub open spec fn wf(self) -> bool {
        &&& self.ram.len() == 32
        &&& self.sound.wf()
    }
}

/// The status flags computed from a value: zero iff the value is 0,
/// negative iff bit 7 is set.
pub open spec fn spec_status(value: u8) -> (bool, bool) {
    (value == 0, value & 0x80 != 0)
}

/// The same state with the clock halted.
pub open spec fn spec_halted(c: CpuState) -> CpuState {
    CpuState { clock_running: false, ..c }
}

/// A read of the 256-byte map; `None` where the map faults: the
/// unimplemented band 0xB0..=0xEF and the undefined trampoline band
/// 0xF0..=0xFB.
pub open spec fn spec_mem_read(c: CpuState, p: SixFiveParams, address: u8) -> Option<u8> {
    if address < 0x80 {
        Some(p.spec_rom_byte(address))
    } else if address < 0xA0 {
        Some(c.ram[address - 0x80])
    } else if address < 0xB0 {
        Some(spec_sound_read(c.sound, address))
    } else if address < 0xFC {
        None
    } else {
        Some(p.spec_trampoline(address))
    }
}

/// A write to the map; only RAM and the sound registers are legal
/// targets, everything else is `None`, a fault.
pub open spec fn spec_mem_write(c: CpuState, address: u8, value: u8) -> Option<CpuState> {
    if address < 0x80 {
        None
    } else if address < 0xA0 {
        Some(CpuState { ram: c.ram.update(address - 0x80, value), ..c })
    } else if address < 0xB0 {
        Some(CpuState { sound: spec_sound_write(c.sound, address, value), ..c })
    } else {
        None
    }
}

/// The decoded operand. Opcodes 0xA0..=0xAF are forced immediate,
/// 0xB0..=0xBF forced absolute; everywhere else bit 0 of the opcode
/// selects the mode: 0 immediate (the byte after the opcode), 1
/// absolute (the byte that byte addresses).
pub open spec fn spec_operand(c: CpuState, p: SixFiveParams, opcode: u8) -> Option<u8> {
    let next = c.instruction_pointer.wrapping_add(1);
    if 0xA0 <= opcode && opcode <= 0xAF {
        spec_mem_read(c, p, next)
    } else if 0xB0 <= opcode && opcode <= 0xBF {
        match spec_mem_read(c, p, next) {
            Some(address) => spec_mem_read(c, p, address),
            None => None,
        }
    } else if opcode & 1 == 0 {
        spec_mem_read(c, p, next)
    } else {
        match spec_mem_read(c, p, next) {
            Some(address) => spec_mem_read(c, p, address),
            None => None,
        }
    }
}

/// A left rotation of a byte by `k` places, `k < 8`.
pub open spec fn spec_rotl(a: u8, k: u8) -> u8
    recommends
        k < 8,
{
    if k == 0 {
        a
    } else {
        (a << k) | (a >> (8 - k))
    }
}

/// A right rotation of a byte by `k` places, `k < 8`.
pub open spec fn spec_rotr(a: u8, k: u8) -> u8
    recommends
        k < 8,
{
    if k == 0 {
        a
    } else {
        (a >> k) | (a << (8 - k))
    }
}

/// The effect of one decoded instruction on the state `c`, in which
/// the instruction pointer has already advanced past the instruction.
/// Shift opcodes treat a shift count of 8 or more as a defined
/// saturation: the result is 0. A faulting write or an unknown opcode
/// halts the clock and reports the fault, leaving the rest of the
/// state as it stood at the fault.
pub open spec fn spec_apply(c: CpuState, p: SixFiveParams, opcode: u8, operand: u8) -> (
    CpuState,
    Option<Fault>,
) {
    let a = c.accumulator;
    if opcode == 0x00 || opcode == 0x01 {
        // HALT
        (spec_halted(c), None)
    } else if opcode == 0x10 || opcode == 0x11 {
        // LOAD
        (CpuState { accumulator: operand, status_register: spec_status(operand), ..c }, None)
    } else if opcode == 0x12 || opcode == 0x13 {
        // STOR
        match spec_mem_write(c, operand, a) {
            Some(c2) => (CpuState { status_register: spec_status(a), ..c2 }, None),
            None => (spec_halted(c), Some(Fault::MemoryFault)),
        }
    } else if opcode == 0x20 || opcode == 0x21 {
        // ADD
        let v = a.wrapping_add(operand);
        (CpuState { accumulator: v, status_register: spec_status(v), ..c }, None)
    } else if opcode == 0x22 || opcode == 0x23 {
        // SSR
        (CpuState { status_register: spec_status(operand), ..c }, None)
    } else if opcode == 0x24 || opcode == 0x25 {
        // SUB restates the accumulator's own status; the accumulator
        // itself is left untouched.
        (CpuState { status_register: spec_status(a), ..c }, None)
    } else if opcode == 0x26 || opcode == 0x27 {
        // CMP
        (CpuState { status_register: spec_status(a.wrapping_sub(operand)), ..c }, None)
    } else if opcode == 0x30 || opcode == 0x31 {
        // BREQ
        (
            if c.status_register.0 {
                CpuState { instruction_pointer: operand, ..c }
            } else {
                c
            },
            None,
        )
    } else if opcode == 0x32 || opcode == 0x33 {
        // BRNE
        (
            if !c.status_register.0 {
                CpuState { instruction_pointer: operand, ..c }
            } else {
                c
            },
            None,
        )
    } else if opcode == 0x34 || opcode == 0x35 {
        // BRLT
        (
            if c.status_register.1 {
                CpuState { instruction_pointer: operand, ..c }
            } else {
                c
            },
            None,
        )
    } else if opcode == 0x36 || opcode == 0x37 {
        // BRGE
        (
            if !c.status_register.1 {
                CpuState { instruction_pointer: operand, ..c }
            } else {
                c
            },
            None,
        )
    } else if opcode == 0x40 || opcode == 0x41 {
        // JMP
        (CpuState { instruction_pointer: operand, ..c }, None)
    } else if opcode == 0x50 || opcode == 0x51 {
        // AND
        let v = a & operand;
        (CpuState { accumulator: v, status_register: spec_status(v), ..c }, None)
    } else if opcode == 0x52 || opcode == 0x53 {
        // BIT
        (CpuState { status_register: spec_status(a & operand), ..c }, None)
    } else if opcode == 0x54 || opcode == 0x55 {
        // OR
        let v = a | operand;
        (CpuState { accumulator: v, status_register: spec_status(v), ..c }, None)
    } else if opcode == 0x56 || opcode == 0x57 {
        // XOR
        let v = a ^ operand;
        (CpuState { accumulator: v, status_register: spec_status(v), ..c }, None)
    } else if opcode == 0x58 || opcode == 0x59 {
        // LSL
        let v = if operand < 8 { a << operand } else { 0 };
        (CpuState { accumulator: v, status_register: spec_status(v), ..c }, None)
    } else if opcode == 0x5A || opcode == 0x5B {
        // LSR
        let v = if operand < 8 { a >> operand } else { 0 };
        (CpuState { accumulator: v, status_register: spec_status(v), ..c }, None)
    } else if opcode == 0x5C || opcode == 0x5D {
        // ROL
        let v = spec_rotl(a, operand % 8);
        (CpuState { accumulator: v, status_register: spec_status(v), ..c }, None)
    } else if opcode == 0x5E || opcode == 0x5F {
        // ROR
        let v = spec_rotr(a, operand % 8);
        (CpuState { accumulator: v, status_register: spec_status(v), ..c }, None)
    } else if opcode == 0x60 || opcode == 0x61 {
        // ZERO
        match spec_mem_write(c, operand, 0) {
            Some(c2) => (CpuState { status_register: spec_status(0), ..c2 }, None),
            None => (spec_halted(c), Some(Fault::MemoryFault)),
        }
    } else if opcode == 0x62 || opcode == 0x63 {
        // INC
        match spec_mem_read(c, p, operand) {
            Some(v0) => {
                let v = v0.wrapping_add(1);
                match spec_mem_write(c, operand, v) {
                    Some(c2) => (CpuState { status_register: spec_status(v), ..c2 }, None),
                    None => (spec_halted(c), Some(Fault::MemoryFault)),
                }
            },
            None => (spec_halted(c), Some(Fault::MemoryFault)),
        }
    } else if opcode == 0x64 || opcode == 0x65 {
        // DEC
        match spec_mem_read(c, p, operand) {
            Some(v0) => {
                let v = v0.wrapping_sub(1);
                match spec_mem_write(c, operand, v) {
                    Some(c2) => (CpuState { status_register: spec_status(v), ..c2 }, None),
                    None => (spec_halted(c), Some(Fault::MemoryFault)),
                }
            },
            None => (spec_halted(c), Some(Fault::MemoryFault)),
        }
    } else if 0xA0 <= opcode && opcode <= 0xBF {
        // AWI0..AWIF: both opcode bands target the same 16 sound
        // registers, selected by the opcode's low nibble.
        (CpuState { sound: spec_sound_write(c.sound, (opcode & 0x0F) | 0xA0, operand), ..c },
        None)
    } else if opcode == 0xF0 || opcode == 0xF1 {
        // BEAT: recorded, consumed by nothing yet.
        (CpuState { beats_waiting: operand, ..c }, None)
    } else if opcode == 0xF2 || opcode == 0xF3 {
        // NOOP: stall for `operand` further ticks.
        (CpuState { cycles_waiting: operand, ..c }, None)
    } else {
        (spec_halted(c), Some(Fault::UnimplementedOpcode))
    }
}

/// One call of `execute`: a stalled tick only counts down; otherwise
/// fetch, decode the operand, advance the instruction pointer by 2,
/// and apply the opcode. A fault while fetching or decoding halts the
/// clock with the instruction pointer still at the instruction; a
/// fault while applying halts it with the pointer already advanced.
pub open spec fn spec_step(c: CpuState, p: SixFiveParams) -> (CpuState, Option<Fault>) {
    if c.cycles_waiting > 0 {
        (CpuState { cycles_waiting: (c.cycles_waiting - 1) as u8, ..c }, None)
    } else {
        match spec_mem_read(c, p, c.instruction_pointer) {
            Some(opcode) => match spec_operand(c, p, opcode) {
                Some(operand) => spec_apply(
                    CpuState {
                        instruction_pointer: c.instruction_pointer.wrapping_add(2),
                        ..c
                    },
                    p,
                    opcode,
                    operand,
                ),
                None => (spec_halted(c), Some(Fault::MemoryFault)),
            },
            None => (spec_halted(c), Some(Fault::MemoryFault)),
        }
    }
}

/// `Ok` for a legal read, the fault otherwise.
pub open spec fn spec_read_result(c: CpuState, p: SixFiveParams, address: u8) -> Result<
    u8,
    Fault,
> {
    match spec_mem_read(c, p, address) {
        Some(v) => Ok(v),
        None => Err(Fault::MemoryFault),
    }
}

/// The CPU: accumulator, instruction pointer, status flags, wait
/// counters, 32 bytes of RAM and the sound chip it writes to. ROM and
/// the trampoline vectors stay with the host and are handed in on
/// each call that reads them.
pub struct Cpu {
    pub accumulator: u8,
    pub instruction_pointer: u8,
    /// (zero flag, negative flag).
    pub status_register: (bool, bool),
    pub clock_running: bool,
    /// Set by the BEAT opcode; nothing consumes it yet.
    pub beats_waiting: u8,
    pub cycles_waiting: u8,
    pub ram: Vec<u8>,
    pub sound: SoundChip,
}

impl View for Cpu {
    type V = CpuState;

    open spec fn view(&self) -> CpuState {
        CpuState {
            accumulator: self.accumulator,
            instruction_pointer: self.instruction_pointer,
            status_register: self.status_register,
            clock_running: self.clock_running,
            beats_waiting: self.beats_waiting,
            cycles_waiting: self.cycles_waiting,
            ram: self.ram@,
            sound: self.sound@,
        }
    }
}

impl Cpu {
    pub open spec fn wf(&self) -> bool {
        &&& self@.wf()
        &&& self.sound.wf()
    }

    pub fn new() -> (c: Cpu)
        ensures
            c.wf(),
            c@ == (CpuState {
                accumulator: 0,
                instruction_pointer: 0,
                status_register: (false, false),
                clock_running: false,
                beats_waiting: 0,
                cycles_waiting: 0,
                ram: Seq::new(32, |i: int| 0u8),
                sound: spec_sound_zero(),
            }),
    {
        let c = Cpu {
            accumulator: 0,
            instruction_pointer: 0,
            status_register: (false, false),
            clock_running: false,
            beats_waiting: 0,
            cycles_waiting: 0,
            ram: zeroed_ram(),
            sound: SoundChip::default(),
        };
        proof {
            assert(c@.ram =~= Seq::new(32, |i: int| 0u8));
        }
        c
    }

    /// Clear the program-visible state: accumulator, instruction
    /// pointer, status, RAM and the whole sound chip. The clock state
    /// and the wait counters stay as they are.
    pub fn reset(&mut self)
        ensures
            final(self).wf(),
            final(self)@ == (CpuState {
                accumulator: 0,
                instruction_pointer: 0,
                status_register: (false, false),
                ram: Seq::new(32, |i: int| 0u8),
                sound: spec_sound_zero(),
                ..old(self)@
            }),
    {
        self.instruction_pointer = 0;
        self.accumulator = 0;
        self.status_register = (false, false);
        self.ram = zeroed_ram();
        self.sound = SoundChip::default();
        proof {
            assert(self@.ram =~= Seq::new(32, |i: int| 0u8));
        }
    }

    /// Set the status flags from a value: zero iff it is 0, negative
    /// iff its bit 7 is set.
    pub fn set_status_register(&mut self, value: u8)
        ensures
            final(self)@ == (CpuState { status_register: spec_status(value), ..old(self)@ }),
            final(self).sound == old(self).sound,
    {
        self.status_register = (value == 0, value & 0x80 != 0)
    }

    /// Read one byte of the 256-byte map. ROM and the trampoline
    /// vectors come from the host parameters.
    pub fn read(&self, params: &SixFiveParams, address: u8) -> (r: Result<u8, Fault>)
        requires
            self.wf(),
            params.wf(),
        ensures
            r == spec_read_result(self@, *params, address),
    {
        if address < 0x80 {
            Ok(params.read_rom(address))
        } else if address < 0xA0 {
            Ok(self.ram[(address - 0x80) as usize])
        } else if address < 0xB0 {
            Ok(self.sound.read(address))
        } else if address < 0xFC {
            Err(Fault::MemoryFault)
        } else {
            Ok(params.read_trampoline_vector(address))
        }
    }

    /// Write one byte of the map; only RAM and the sound registers
    /// accept it. On a fault nothing changes.
    pub fn write(&mut self, address: u8, value: u8) -> (r: Result<(), Fault>)
        requires
            old(self).wf(),
        ensures
            final(self).wf(),
            final(self).sound.square_wave_1.generator == old(self).sound.square_wave_1.generator,
            final(self).sound.square_wave_2.generator == old(self).sound.square_wave_2.generator,
            final(self).sound.triangle_wave.generator == old(self).sound.triangle_wave.generator,
            match spec_mem_write(old(self)@, address, value) {
                Some(c2) => final(self)@ == c2 && r == Ok::<(), Fault>(()),
                None => final(self)@ == old(self)@ && r == Err::<(), Fault>(Fault::MemoryFault),
            },
    {
        if address < 0x80 {
            Err(Fault::MemoryFault)
        } else if address < 0xA0 {
            self.ram.set((address - 0x80) as usize, value);
            Ok(())
        } else if address < 0xB0 {
            self.sound.write(address, value);
            Ok(())
        } else {
            Err(Fault::MemoryFault)
        }
    }

    /// One tick of the instruction engine; see `spec_step`. Every
    /// fault halts the clock and is reported instead of panicking.
    #[verifier::rlimit(100)]
    pub fn execute(&mut self, params: &SixFiveParams) -> (r: Result<(), Fault>)
        requires
            old(self).wf(),
            params.wf(),
        ensures
            final(self).wf(),
            ({
                let (s2, f) = spec_step(old(self)@, *params);
                &&& final(self)@ == s2
                &&& r == (match f {
                    None => Ok::<(), Fault>(()),
                    Some(fault) => Err::<(), Fault>(fault),
                })
            }),
    {
        if self.cycles_waiting > 0 {
            self.cycles_waiting = self.cycles_waiting - 1;
            return Ok(());
        }
        let opcode = match self.read(params, self.instruction_pointer) {
            Ok(v) => v,
            Err(fault) => {
                self.clock_running = false;
                return Err(fault);
            },
        };
        let operand_result = if 0xA0 <= opcode && opcode <= 0xAF {
            self.read(params, self.instruction_pointer.wrapping_add(1))
        } else if 0xB0 <= opcode && opcode <= 0xBF {
            match self.read(params, self.instruction_pointer.wrapping_add(1)) {
                Ok(address) => self.read(params, address),
                Err(fault) => Err(fault),
            }
        } else if opcode & 1 == 0 {
            self.read(params, self.instruction_pointer.wrapping_add(1))
        } else {
            match self.read(params, self.instruction_pointer.wrapping_add(1)) {
                Ok(address) => self.read(params, address),
                Err(fault) => Err(fault),
            }
        };
        let operand = match operand_result {
            Ok(v) => v,
            Err(fault) => {
                self.clock_running = false;
                return Err(fault);
            },
        };
        // Advance now, so that jumps and branches may overwrite it.
        self.instruction_pointer = self.instruction_pointer.wrapping_add(2);
        self.apply_op(params, opcode, operand)
    }

    /// Apply one decoded opcode; see `spec_apply`. The instruction
    /// pointer has already advanced past the instruction.
    fn apply_op(&mut self, params: &SixFiveParams, opcode: u8, operand: u8) -> (r: Result<
        (),
        Fault,
    >)
        requires
            old(self).wf(),
            params.wf(),
        ensures
            final(self).wf(),
            ({
                let (s2, f) = spec_apply(old(self)@, *params, opcode, operand);
                &&& final(self)@ == s2
                &&& r == (match f {
                    None => Ok::<(), Fault>(()),
                    Some(fault) => Err::<(), Fault>(fault),
                })
            }),
    {
        if opcode == 0x00 || opcode == 0x01 || opcode == 0x10 || opcode == 0x11 || (0x20 <= opcode
            && opcode <= 0x27) || (0x50 <= opcode && opcode <= 0x5F) || (0xF0 <= opcode && opcode
            <= 0xF3) {
            self.apply_register_op(params, opcode, operand)
        } else if (0x30 <= opcode && opcode <= 0x37) || opcode == 0x40 || opcode == 0x41 {
            self.apply_branch_op(params, opcode, operand)
        } else if opcode == 0x12 || opcode == 0x13 {
            self.apply_stor(params, opcode, operand)
        } else if opcode == 0x60 || opcode == 0x61 {
            self.apply_zero(params, opcode, operand)
        } else if opcode == 0x62 || opcode == 0x63 {
            self.apply_inc(params, opcode, operand)
        } else if opcode == 0x64 || opcode == 0x65 {
            self.apply_dec(params, opcode, operand)
        } else if 0xA0 <= opcode && opcode <= 0xBF {
            self.apply_audio_write(params, opcode, operand)
        } else {
            // Not in the instruction table.
            self.clock_running = false;
            Err(Fault::UnimplementedOpcode)
        }
    }

    /// The opcodes that touch only CPU registers: HALT, LOAD, the
    /// arithmetic, status and bitwise group, and the wait setters.
    #[verifier::spinoff_prover]
    fn apply_register_op(&mut self, params: &SixFiveParams, opcode: u8, operand: u8) -> (r:
        Result<(), Fault>)
        requires
            old(self).wf(),
            params.wf(),
            opcode == 0x00 || opcode == 0x01 || opcode == 0x10 || opcode == 0x11 || (0x20
                <= opcode && opcode <= 0x27) || (0x50 <= opcode && opcode <= 0x5F) || (0xF0
                <= opcode && opcode <= 0xF3),
        ensures
            final(self).wf(),
            ({
                let (s2, f) = spec_apply(old(self)@, *params, opcode, operand);
                &&& final(self)@ == s2
                &&& r == (match f {
                    None => Ok::<(), Fault>(()),
                    Some(fault) => Err::<(), Fault>(fault),
                })
            }),
    {
        if opcode == 0x00 || opcode == 0x01 {
            // HALT
            self.clock_running = false;
        } else if opcode == 0x10 || opcode == 0x11 {
            // LOAD
            self.accumulator = operand;
            self.set_status_register(operand);
        } else if opcode == 0x20 || opcode == 0x21 {
            // ADD
            let v = self.accumulator.wrapping_add(operand);
            self.accumulator = v;
            self.set_status_register(v);
        } else if opcode == 0x22 || opcode == 0x23 {
            // SSR
            self.set_status_register(operand);
        } else if opcode == 0x24 || opcode == 0x25 {
            // SUB: see `spec_apply`; the accumulator is not modified.
            let a = self.accumulator;
            self.set_status_register(a);
        } else if opcode == 0x26 || opcode == 0x27 {
            // CMP
            let v = self.accumulator.wrapping_sub(operand);
            self.set_status_register(v);
        } else if opcode == 0x50 || opcode == 0x51 {
            // AND
            let v = self.accumulator & operand;
            self.accumulator = v;
            self.set_status_register(v);
        } else if opcode == 0x52 || opcode == 0x53 {
            // BIT
            let v = self.accumulator & operand;
            self.set_status_register(v);
        } else if opcode == 0x54 || opcode == 0x55 {
            // OR
            let v = self.accumulator | operand;
            self.accumulator = v;
            self.set_status_register(v);
        } else if opcode == 0x56 || opcode == 0x57 {
            // XOR
            let v = self.accumulator ^ operand;
            self.accumulator = v;
            self.set_status_register(v);
        } else if opcode == 0x58 || opcode == 0x59 {
            // LSL; a count of 8 or more shifts everything out.
            let v = if operand < 8 {
                self.accumulator << operand
            } else {
                0
            };
            self.accumulator = v;
            self.set_status_register(v);
        } else if opcode == 0x5A || opcode == 0x5B {
            // LSR; a count of 8 or more shifts everything out.
            let v = if operand < 8 {
                self.accumulator >> operand
            } else {
                0
            };
            self.accumulator = v;
            self.set_status_register(v);
        } else if opcode == 0x5C || opcode == 0x5D {
            // ROL by the count modulo 8.
            let k = operand % 8;
            let a = self.accumulator;
            let v = if k == 0 {
                a
            } else {
                (a << k) | (a >> (8 - k))
            };
            self.accumulator = v;
            self.set_status_register(v);
        } else if opcode == 0x5E || opcode == 0x5F {
            // ROR by the count modulo 8.
            let k = operand % 8;
            let a = self.accumulator;
            let v = if k == 0 {
                a
            } else {
                (a >> k) | (a << (8 - k))
            };
            self.accumulator = v;
            self.set_status_register(v);
        } else if opcode == 0xF0 || opcode == 0xF1 {
            // BEAT
            self.beats_waiting = operand;
        } else {
            // NOOP
            self.cycles_waiting = operand;
        }
        Ok(())
    }

    /// The branch and jump opcodes, which may overwrite the already
    /// advanced instruction pointer.
    #[verifier::spinoff_prover]
    fn apply_branch_op(&mut self, params: &SixFiveParams, opcode: u8, operand: u8) -> (r: Result<
        (),
        Fault,
    >)
        requires
            old(self).wf(),
            params.wf(),
            (0x30 <= opcode && opcode <= 0x37) || opcode == 0x40 || opcode == 0x41,
        ensures
            final(self).wf(),
            ({
                let (s2, f) = spec_apply(old(self)@, *params, opcode, operand);
                &&& final(self)@ == s2
                &&& r == (match f {
                    None => Ok::<(), Fault>(()),
                    Some(fault) => Err::<(), Fault>(fault),
                })
            }),
    {
        if opcode == 0x30 || opcode == 0x31 {
            // BREQ
            if self.status_register.0 {
                self.instruction_pointer = operand;
            }
        } else if opcode == 0x32 || opcode == 0x33 {
            // BRNE
            if !self.status_register.0 {
                self.instruction_pointer = operand;
            }
        } else if opcode == 0x34 || opcode == 0x35 {
            // BRLT
            if self.status_register.1 {
                self.instruction_pointer = operand;
            }
        } else if opcode == 0x36 || opcode == 0x37 {
            // BRGE
            if !self.status_register.1 {
                self.instruction_pointer = operand;
            }
        } else {
            // JMP
            self.instruction_pointer = operand;
        }
        Ok(())
    }

    /// STOR: write the accumulator to the operand address, then
    /// restate the accumulator's status. A faulting target halts the
    /// clock.
    #[verifier::spinoff_prover]
    fn apply_stor(&mut self, params: &SixFiveParams, opcode: u8, operand: u8) -> (r:
        Result<(), Fault>)
        requires
            old(self).wf(),
            params.wf(),
            opcode == 0x12 || opcode == 0x13,
        ensures
            final(self).wf(),
            ({
                let (s2, f) = spec_apply(old(self)@, *params, opcode, operand);
                &&& final(self)@ == s2
                &&& r == (match f {
                    None => Ok::<(), Fault>(()),
                    Some(fault) => Err::<(), Fault>(fault),
                })
            }),
    {
        let a = self.accumulator;
        match self.write(operand, a) {
            Ok(_) => {
                self.set_status_register(a);
                Ok(())
            },
            Err(fault) => {
                self.clock_running = false;
                Err(fault)
            },
        }
    }

    /// ZERO: write 0 to the operand address and set the status
    /// flags from 0. A faulting target halts the clock.
    #[verifier::spinoff_prover]
    fn apply_zero(&mut self, params: &SixFiveParams, opcode: u8, operand: u8) -> (r:
        Result<(), Fault>)
        requires
            old(self).wf(),
            params.wf(),
            opcode == 0x60 || opcode == 0x61,
        ensures
            final(self).wf(),
            ({
                let (s2, f) = spec_apply(old(self)@, *params, opcode, operand);
                &&& final(self)@ == s2
                &&& r == (match f {
                    None => Ok::<(), Fault>(()),
                    Some(fault) => Err::<(), Fault>(fault),
                })
            }),
    {
        match self.write(operand, 0) {
            Ok(_) => {
                self.set_status_register(0);
                Ok(())
            },
            Err(fault) => {
                self.clock_running = false;
                Err(fault)
            },
        }
    }

    /// INC: read the operand address, add 1 wrapping, write it
    /// back, set the status flags from the new value. A faulting
    /// access halts the clock where it stood.
    #[verifier::spinoff_prover]
    fn apply_inc(&mut self, params: &SixFiveParams, opcode: u8, operand: u8) -> (r:
        Result<(), Fault>)
        requires
            old(self).wf(),
            params.wf(),
            opcode == 0x62 || opcode == 0x63,
        ensures
            final(self).wf(),
            ({
                let (s2, f) = spec_apply(old(self)@, *params, opcode, operand);
                &&& final(self)@ == s2
                &&& r == (match f {
                    None => Ok::<(), Fault>(()),
                    Some(fault) => Err::<(), Fault>(fault),
                })
            }),
    {
        match self.read(params, operand) {
            Ok(v0) => {
                let v = v0.wrapping_add(1);
                match self.write(operand, v) {
                    Ok(_) => {
                        self.set_status_register(v);
                        Ok(())
                    },
                    Err(fault) => {
                        self.clock_running = false;
                        Err(fault)
                    },
                }
            },
            Err(fault) => {
                self.clock_running = false;
                Err(fault)
            },
        }
    }

    /// DEC: read the operand address, subtract 1 wrapping, write
    /// it back, set the status flags from the new value. A faulting
    /// access halts the clock where it stood.
    #[verifier::spinoff_prover]
    fn apply_dec(&mut self, params: &SixFiveParams, opcode: u8, operand: u8) -> (r:
        Result<(), Fault>)
        requires
            old(self).wf(),
            params.wf(),
            opcode == 0x64 || opcode == 0x65,
        ensures
            final(self).wf(),
            ({
                let (s2, f) = spec_apply(old(self)@, *params, opcode, operand);
                &&& final(self)@ == s2
                &&& r == (match f {
                    None => Ok::<(), Fault>(()),
                    Some(fault) => Err::<(), Fault>(fault),
                })
            }),
    {
        match self.read(params, operand) {
            Ok(v0) => {
                let v = v0.wrapping_sub(1);
                match self.write(operand, v) {
                    Ok(_) => {
                        self.set_status_register(v);
                        Ok(())
                    },
                    Err(fault) => {
                        self.clock_running = false;
                        Err(fault)
                    },
                }
            },
            Err(fault) => {
                self.clock_running = false;
                Err(fault)
            },
        }
    }

    /// The audio-write opcodes 0xA0..=0xBF: both bands write the
    /// operand into the sound register the opcode's low nibble names.
    #[verifier::spinoff_prover]
    fn apply_audio_write(&mut self, params: &SixFiveParams, opcode: u8, operand: u8) -> (r:
        Result<(), Fault>)
        requires
            old(self).wf(),
            params.wf(),
            0xA0 <= opcode && opcode <= 0xBF,
        ensures
            final(self).wf(),
            ({
                let (s2, f) = spec_apply(old(self)@, *params, opcode, operand);
                &&& final(self)@ == s2
                &&& r == (match f {
                    None => Ok::<(), Fault>(()),
                    Some(fault) => Err::<(), Fault>(fault),
                })
            }),
    {
        let register = (opcode & 0x0F) | 0xA0;
        proof {
            assert(0xA0 <= ((opcode & 0x0F) | 0xA0) <= 0xAF) by (bit_vector);
        }
        self.sound.write(register, operand);
        Ok(())
    }
}


/// Executing any fetched and decoded instruction other than a jump or
/// a taken branch advances the instruction pointer by exactly 2
/// modulo 256, regardless of the opcode's data effect — a fault while
/// applying the opcode included.
pub proof fn lemma_ip_advances_by_two(c: CpuState, p: SixFiveParams)
    requires
        c.cycles_waiting == 0,
        ({
            &&& spec_mem_read(c, p, c.instruction_pointer) matches Some(opcode)
            &&& spec_operand(c, p, opcode) is Some
            &&& opcode != 0x40
            &&& opcode != 0x41
            &&& !((opcode == 0x30 || opcode == 0x31) && c.status_register.0)
            &&& !((opcode == 0x32 || opcode == 0x33) && !c.status_register.0)
            &&& !((opcode == 0x34 || opcode == 0x35) && c.status_register.1)
            &&& !((opcode == 0x36 || opcode == 0x37) && !c.status_register.1)
        }),
    ensures
        spec_step(c, p).0.instruction_pointer == c.instruction_pointer.wrapping_add(2),
{
}

/// Writing a byte through the immediate audio-write opcode 0xA3 and
/// then reading sound register 0xA3 back yields exactly the written
/// byte.
pub proof fn lemma_audio_write_round_trip(c: CpuState, p: SixFiveParams, value: u8)
    requires
        c.wf(),
        c.cycles_waiting == 0,
        spec_mem_read(c, p, c.instruction_pointer) == Some(0xA3u8),
        spec_mem_read(c, p, c.instruction_pointer.wrapping_add(1)) == Some(value),
    ensures
        spec_step(c, p).1 is None,
        spec_sound_read(spec_step(c, p).0.sound, 0xA3) == value,
{
    assert((0xA3u8 & 0x0F) | 0xA0 == 0xA3u8) by (bit_vector);
    lemma_register_round_trip(c.sound.square_wave_1, 3, value);
}

/// A fresh 32-byte zeroed RAM.
fn zeroed_ram() -> (ram: Vec<u8>)
    ensures
        ram@.len() == 32,
        forall|i: int| 0 <= i < 32 ==> ram@[i] == 0,
{
    let mut ram: Vec<u8> = Vec::new();
    while ram.len() < 32
        invariant
            ram@.len() <= 32,
            forall|i: int| 0 <= i < ram@.len() ==> ram@[i] == 0,
        decreases 32 - ram@.len(),
    {
        ram.push(0);
    }
    ram
}

} // verus!
