use sixfive::{Cpu, Fault, RomBank, SixFiveParams};

/// Host parameters whose bank A starts with the given words.
fn params_with_rom(words: &[u16]) -> SixFiveParams {
    let mut params = SixFiveParams::default();
    for (i, w) in words.iter().enumerate() {
        params.rom_banks[0][i] = *w;
    }
    params
}

#[test]
fn set_status_register_all_values() {
    let mut cpu = Cpu::new();
    for v in 0..=255u8 {
        cpu.set_status_register(v);
        assert_eq!(cpu.status_register.0, v == 0);
        assert_eq!(cpu.status_register.1, v & 0x80 != 0);
    }
}

#[test]
fn load_immediate() {
    let params = params_with_rom(&[0x102A]);
    let mut cpu = Cpu::new();
    assert_eq!(cpu.execute(&params), Ok(()));
    assert_eq!(cpu.accumulator, 0x2A);
    assert_eq!(cpu.instruction_pointer, 2);
    assert_eq!(cpu.status_register, (false, false));
}

#[test]
fn load_absolute() {
    let params = params_with_rom(&[0x1180]);
    let mut cpu = Cpu::new();
    cpu.ram[0] = 0x07;
    assert_eq!(cpu.execute(&params), Ok(()));
    assert_eq!(cpu.accumulator, 0x07);
    assert_eq!(cpu.instruction_pointer, 2);
}

#[test]
fn add_wraps() {
    let params = params_with_rom(&[0x2002]);
    let mut cpu = Cpu::new();
    cpu.accumulator = 0xFF;
    assert_eq!(cpu.execute(&params), Ok(()));
    assert_eq!(cpu.accumulator, 0x01);
    assert_eq!(cpu.status_register, (false, false));
}

#[test]
fn cmp_preserves_accumulator() {
    let params = params_with_rom(&[0x2605]);
    let mut cpu = Cpu::new();
    cpu.accumulator = 0x05;
    assert_eq!(cpu.execute(&params), Ok(()));
    assert_eq!(cpu.accumulator, 0x05);
    assert!(cpu.status_register.0);
}

#[test]
fn sub_leaves_accumulator_untouched() {
    // The SUB opcode only restates the accumulator's status.
    let params = params_with_rom(&[0x2403]);
    let mut cpu = Cpu::new();
    cpu.accumulator = 0x09;
    assert_eq!(cpu.execute(&params), Ok(()));
    assert_eq!(cpu.accumulator, 0x09);
    assert_eq!(cpu.status_register, (false, false));
}

#[test]
fn ip_advances_by_two_for_data_opcodes() {
    // SSR, AND, BIT, XOR, BEAT: none of them touches the pointer.
    for word in [0x2211u16, 0x50FF, 0x5201, 0x5644, 0xF007] {
        let params = params_with_rom(&[word]);
        let mut cpu = Cpu::new();
        assert_eq!(cpu.execute(&params), Ok(()));
        assert_eq!(cpu.instruction_pointer, 2);
    }
}

#[test]
fn ip_wraps_modulo_256() {
    let params = params_with_rom(&[0x2200]);
    let mut cpu = Cpu::new();
    cpu.instruction_pointer = 0xFE;
    // Fetch at 0xFE..0xFF reads the trampoline flags as the
    // instruction bytes: 0 is HALT, a defined opcode.
    assert_eq!(cpu.execute(&params), Ok(()));
    assert_eq!(cpu.instruction_pointer, 0x00);
}

#[test]
fn branch_not_taken_advances() {
    // BREQ with the zero flag clear falls through.
    let params = params_with_rom(&[0x3010]);
    let mut cpu = Cpu::new();
    cpu.status_register = (false, false);
    assert_eq!(cpu.execute(&params), Ok(()));
    assert_eq!(cpu.instruction_pointer, 2);
}

#[test]
fn branch_taken_jumps() {
    let params = params_with_rom(&[0x3010]);
    let mut cpu = Cpu::new();
    cpu.status_register = (true, false);
    assert_eq!(cpu.execute(&params), Ok(()));
    assert_eq!(cpu.instruction_pointer, 0x10);
}

#[test]
fn jmp_overwrites_pointer() {
    let params = params_with_rom(&[0x4020]);
    let mut cpu = Cpu::new();
    assert_eq!(cpu.execute(&params), Ok(()));
    assert_eq!(cpu.instruction_pointer, 0x20);
}

#[test]
fn awi_round_trip() {
    for v in [0u8, 1, 0x5A, 0xFF] {
        let params = params_with_rom(&[0xA300 | v as u16]);
        let mut cpu = Cpu::new();
        assert_eq!(cpu.execute(&params), Ok(()));
        assert_eq!(cpu.read(&params, 0xA3), Ok(v));
    }
}

#[test]
fn awi_absolute_band_targets_same_registers() {
    // 0xB7 writes the RAM byte at 0x80 into sound register 0xA7.
    let params = params_with_rom(&[0xB780]);
    let mut cpu = Cpu::new();
    cpu.ram[0] = 0x3C;
    assert_eq!(cpu.execute(&params), Ok(()));
    assert_eq!(cpu.read(&params, 0xA7), Ok(0x3C));
}

#[test]
fn stor_to_rom_faults_and_halts() {
    let params = params_with_rom(&[0x1200]);
    let mut cpu = Cpu::new();
    cpu.clock_running = true;
    cpu.accumulator = 0x11;
    assert_eq!(cpu.execute(&params), Err(Fault::MemoryFault));
    assert!(!cpu.clock_running);
    // The pointer had already advanced when the write faulted.
    assert_eq!(cpu.instruction_pointer, 2);
}

#[test]
fn stor_to_ram_works() {
    let params = params_with_rom(&[0x1290]);
    let mut cpu = Cpu::new();
    cpu.accumulator = 0x42;
    assert_eq!(cpu.execute(&params), Ok(()));
    assert_eq!(cpu.ram[0x10], 0x42);
}

#[test]
fn operand_fetch_from_dead_band_faults() {
    // LOAD absolute from 0xB0, inside the unimplemented band.
    let params = params_with_rom(&[0x11B0]);
    let mut cpu = Cpu::new();
    cpu.clock_running = true;
    assert_eq!(cpu.execute(&params), Err(Fault::MemoryFault));
    assert!(!cpu.clock_running);
    // The fault hit while decoding, before the pointer advanced.
    assert_eq!(cpu.instruction_pointer, 0);
}

#[test]
fn undefined_trampoline_band_faults() {
    let params = params_with_rom(&[0x11F0]);
    let mut cpu = Cpu::new();
    assert_eq!(cpu.execute(&params), Err(Fault::MemoryFault));
}

#[test]
fn unknown_opcode_reports_and_halts() {
    let params = params_with_rom(&[0x7000]);
    let mut cpu = Cpu::new();
    cpu.clock_running = true;
    assert_eq!(cpu.execute(&params), Err(Fault::UnimplementedOpcode));
    assert!(!cpu.clock_running);
    assert_eq!(cpu.instruction_pointer, 2);
}

#[test]
fn shift_count_of_eight_or_more_saturates_to_zero() {
    // LSL by 8: everything shifts out, by the documented rule.
    let params = params_with_rom(&[0x5808]);
    let mut cpu = Cpu::new();
    cpu.accumulator = 0xFF;
    assert_eq!(cpu.execute(&params), Ok(()));
    assert_eq!(cpu.accumulator, 0);
    assert!(cpu.status_register.0);

    // LSR by 9 likewise.
    let params = params_with_rom(&[0x5A09]);
    let mut cpu = Cpu::new();
    cpu.accumulator = 0xFF;
    assert_eq!(cpu.execute(&params), Ok(()));
    assert_eq!(cpu.accumulator, 0);
}

#[test]
fn shift_below_eight_shifts() {
    let params = params_with_rom(&[0x5803]);
    let mut cpu = Cpu::new();
    cpu.accumulator = 0x13;
    assert_eq!(cpu.execute(&params), Ok(()));
    assert_eq!(cpu.accumulator, 0x98);
    assert!(cpu.status_register.1);
}

#[test]
fn rotates_use_count_modulo_eight() {
    let params = params_with_rom(&[0x5C03]);
    let mut cpu = Cpu::new();
    cpu.accumulator = 0x91;
    assert_eq!(cpu.execute(&params), Ok(()));
    assert_eq!(cpu.accumulator, 0x8C);

    // ROR by 11 is a rotation by 3.
    let params = params_with_rom(&[0x5E0B]);
    let mut cpu = Cpu::new();
    cpu.accumulator = 0x91;
    assert_eq!(cpu.execute(&params), Ok(()));
    assert_eq!(cpu.accumulator, 0x32);
}

#[test]
fn inc_and_dec_act_on_memory() {
    let params = params_with_rom(&[0x6280, 0x6480]);
    let mut cpu = Cpu::new();
    cpu.ram[0] = 5;
    assert_eq!(cpu.execute(&params), Ok(()));
    assert_eq!(cpu.ram[0], 6);
    assert_eq!(cpu.status_register, (false, false));
    assert_eq!(cpu.execute(&params), Ok(()));
    assert_eq!(cpu.ram[0], 5);
}

#[test]
fn dec_wraps_at_zero() {
    let params = params_with_rom(&[0x6480]);
    let mut cpu = Cpu::new();
    assert_eq!(cpu.execute(&params), Ok(()));
    assert_eq!(cpu.ram[0], 0xFF);
    assert_eq!(cpu.status_register, (false, true));
}

#[test]
fn noop_stalls_for_operand_ticks() {
    let params = params_with_rom(&[0xF202, 0x1005]);
    let mut cpu = Cpu::new();
    assert_eq!(cpu.execute(&params), Ok(()));
    assert_eq!(cpu.cycles_waiting, 2);
    assert_eq!(cpu.instruction_pointer, 2);
    // Two stalled ticks: nothing fetched, the counter runs down.
    assert_eq!(cpu.execute(&params), Ok(()));
    assert_eq!(cpu.instruction_pointer, 2);
    assert_eq!(cpu.cycles_waiting, 1);
    assert_eq!(cpu.execute(&params), Ok(()));
    assert_eq!(cpu.cycles_waiting, 0);
    assert_eq!(cpu.accumulator, 0);
    // Now the LOAD runs.
    assert_eq!(cpu.execute(&params), Ok(()));
    assert_eq!(cpu.accumulator, 5);
}

#[test]
fn beat_records_operand() {
    let params = params_with_rom(&[0xF007]);
    let mut cpu = Cpu::new();
    assert_eq!(cpu.execute(&params), Ok(()));
    assert_eq!(cpu.beats_waiting, 7);
}

#[test]
fn trampoline_flags_read_as_bits() {
    let mut params = params_with_rom(&[0x11FC, 0x11FD]);
    params.trampoline_vectors[0] = true;
    let mut cpu = Cpu::new();
    assert_eq!(cpu.execute(&params), Ok(()));
    assert_eq!(cpu.accumulator, 1);
    assert_eq!(cpu.execute(&params), Ok(()));
    assert_eq!(cpu.accumulator, 0);
}

#[test]
fn rom_reads_select_bank_and_byte_half() {
    let mut params = SixFiveParams::default();
    params.rom_banks[1][3] = 0xBEEF;
    params.rom_bank_select = RomBank::B;
    assert_eq!(params.read_rom(6), 0xBE);
    assert_eq!(params.read_rom(7), 0xEF);
}

#[test]
fn rom_bank_indices_round_trip() {
    for (bank, i) in [(RomBank::A, 0), (RomBank::B, 1), (RomBank::C, 2), (RomBank::D, 3)] {
        assert_eq!(bank.as_index(), i);
        assert_eq!(RomBank::from_index(i), Some(bank));
    }
    assert_eq!(RomBank::from_index(4), None);
}

#[test]
fn reset_clears_program_state_only() {
    let params = params_with_rom(&[0x1005]);
    let mut cpu = Cpu::new();
    cpu.clock_running = true;
    cpu.ram[3] = 9;
    assert_eq!(cpu.execute(&params), Ok(()));
    cpu.reset();
    assert_eq!(cpu.accumulator, 0);
    assert_eq!(cpu.instruction_pointer, 0);
    assert_eq!(cpu.status_register, (false, false));
    assert!(cpu.ram.iter().all(|b| *b == 0));
    assert!(cpu.clock_running);
}

#[test]
fn program_loops_without_halting() {
    // LOAD 1; ADD 1; JMP 0 — the accumulator cycles 1, 2, 2 and the
    // pointer cycles through 0, 2, 4, with the clock never halting.
    let params = params_with_rom(&[0x1001, 0x2001, 0x4000]);
    let mut cpu = Cpu::new();
    cpu.clock_running = true;
    for step in 0..100 {
        assert!([0, 2, 4].contains(&cpu.instruction_pointer));
        assert_eq!(cpu.execute(&params), Ok(()));
        assert!(cpu.clock_running);
        match step % 3 {
            0 => assert_eq!(cpu.accumulator, 1),
            1 => assert_eq!(cpu.accumulator, 2),
            _ => assert_eq!(cpu.accumulator, 2),
        }
    }
}
