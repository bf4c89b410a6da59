use sixfive::{Channel, ChannelRegisters, Generator, Noise, Ratio, SoundChip, SquareWave,
    TriangleWave};

/// Registers holding a constant volume of 15 and the longest note.
fn loud_registers() -> ChannelRegisters {
    let mut regs = ChannelRegisters::default();
    regs.envelope_length = 15;
    regs.note_length = 31;
    regs
}

#[test]
fn register_read_write_round_trip() {
    for register in 0..4u8 {
        for value in 0..=255u8 {
            let mut regs = ChannelRegisters::default();
            regs.write(register, value);
            assert_eq!(regs.read(register), value);
        }
    }
}

#[test]
fn envelope_register_fields_round_trip() {
    for duty_cycle in 0..4u8 {
        for looping in [false, true] {
            for envelope in [false, true] {
                for envelope_length in 0..16u8 {
                    let mut regs = ChannelRegisters::default();
                    regs.duty_cycle = duty_cycle;
                    regs.looping = looping;
                    regs.envelope = envelope;
                    regs.envelope_length = envelope_length;
                    let encoded = regs.read(0);
                    let mut decoded = ChannelRegisters::default();
                    decoded.write(0, encoded);
                    assert_eq!(decoded.duty_cycle, duty_cycle);
                    assert_eq!(decoded.looping, looping);
                    assert_eq!(decoded.envelope, envelope);
                    assert_eq!(decoded.envelope_length, envelope_length);
                }
            }
        }
    }
}

#[test]
fn note_length_write_restarts_note_clock() {
    let mut regs = loud_registers();
    regs.samples_since_note = 999;
    regs.write(3, 0xFF);
    // The clock restarted, so the note is young again and audible.
    let v = regs.get_effective_volume(44100);
    assert_eq!((v.num, v.den), (15, 15));
}

#[test]
fn lfsr_visits_every_nonzero_state_once() {
    let regs = loud_registers();
    let mut noise = Noise::default();
    assert_eq!(noise.shift_register, 1);
    let mut seen = [false; 32768];
    for _ in 0..32767 {
        let state = noise.shift_register as usize;
        assert!(state != 0);
        assert!(!seen[state]);
        seen[state] = true;
        noise.generate(&regs, 44100);
    }
    // Full cycle: back at the seed after exactly 32767 steps.
    assert_eq!(noise.shift_register, 1);
}

#[test]
fn lfsr_sequence_is_deterministic() {
    let regs = loud_registers();
    let mut a = Noise::default();
    let mut b = Noise::default();
    for _ in 0..1000 {
        assert_eq!(a.shift_register, b.shift_register);
        let amp_a = a.generate(&regs, 44100);
        let amp_b = b.generate(&regs, 44100);
        assert_eq!(amp_a, amp_b);
    }
}

#[test]
fn noise_amplitude_follows_feedback_bit() {
    let regs = loud_registers();
    let mut noise = Noise::default();
    // Seed 1: bit0 = 1, bit1 = 0, feedback 1: silent this sample.
    let amp = noise.generate(&regs, 44100);
    assert_eq!(amp, Ratio { num: 0, den: 15 });
    assert_eq!(noise.shift_register, 0x4000);
    // 0x4000: bit0 = bit1 = 0, feedback 0: full volume.
    let amp = noise.generate(&regs, 44100);
    assert_eq!(amp, Ratio { num: 15, den: 15 });
    assert_eq!(noise.shift_register, 0x2000);
}

#[test]
fn constant_volume_is_envelope_length_over_fifteen() {
    let mut regs = loud_registers();
    regs.envelope_length = 9;
    regs.samples_since_note = 31;
    // At 60 samples per second a note length of 31 lasts 31 samples.
    let v = regs.get_effective_volume(60);
    assert_eq!((v.num, v.den), (9, 15));
}

#[test]
fn volume_is_zero_after_note_end() {
    let mut regs = loud_registers();
    regs.samples_since_note = 32;
    let v = regs.get_effective_volume(60);
    assert_eq!((v.num, v.den), (0, 1));
}

#[test]
fn envelope_ramps_down_and_repeats() {
    // Cycle length 3/15 s at 150 samples/s: 30 samples; denominator
    // envelope_length * rate = 450.
    let mut regs = ChannelRegisters::default();
    regs.envelope = true;
    regs.envelope_length = 3;
    regs.note_length = 16;
    regs.samples_since_note = 10;
    let early = regs.get_effective_volume(150);
    assert_eq!((early.num, early.den), (300, 450));
    // One full cycle later the volume is exactly the same.
    regs.samples_since_note = 40;
    let later = regs.get_effective_volume(150);
    assert_eq!((later.num, later.den), (300, 450));
    // At a cycle boundary the ramp restarts from 1.
    regs.samples_since_note = 30;
    let top = regs.get_effective_volume(150);
    assert_eq!((top.num, top.den), (450, 450));
}

#[test]
fn envelope_of_zero_length_is_silent() {
    let mut regs = ChannelRegisters::default();
    regs.envelope = true;
    regs.envelope_length = 0;
    regs.note_length = 31;
    regs.samples_since_note = 5;
    let v = regs.get_effective_volume(44100);
    assert_eq!((v.num, v.den), (0, 1));
}

#[test]
fn sweep_lengthens_or_shortens_period() {
    // At 1 sample/s one sweep step elapses every 120 samples.
    let mut regs = ChannelRegisters::default();
    regs.period = 1024;
    regs.shift_enabled = true;
    regs.shift_period = 2;
    regs.samples_since_note = 120;
    assert_eq!(regs.get_effective_period(1), 1024 + 256);
    regs.shift_reverse = true;
    assert_eq!(regs.get_effective_period(1), 1024 - 256);
    // Sweep disabled: the programmed period stands.
    regs.shift_enabled = false;
    assert_eq!(regs.get_effective_period(1), 1024);
}

#[test]
fn sweep_addition_wraps_modulo_65536() {
    let mut regs = ChannelRegisters::default();
    regs.period = 2000;
    regs.shift_enabled = true;
    regs.shift_period = 0;
    // 6 steps double the period six times: 2000 * 64 = 128000, which
    // wraps to 62464.
    regs.samples_since_note = 720;
    assert_eq!(regs.get_effective_period(1), 62464);
}

#[test]
fn square_wave_switches_at_duty_threshold() {
    // Period 0 at 60 samples/s: phase denominator 16 * 60 * 1 = 960,
    // phase numerator (n * 1789773) mod 960.
    let mut regs = loud_registers();
    let mut square = SquareWave::default();
    regs.samples_since_note = 1;
    // n = 1: phase 333/960, past the 1/8 threshold: high.
    let amp = square.generate(&regs, 60);
    assert_eq!(amp, Ratio { num: 15, den: 15 });
    // n = 3: phase 39/960, below 1/8: low.
    regs.samples_since_note = 3;
    let amp = square.generate(&regs, 60);
    assert_eq!(amp, Ratio { num: 0, den: 15 });
    // Duty setting 3 moves the threshold to 3/4: 333/960 is low.
    regs.duty_cycle = 3;
    regs.samples_since_note = 1;
    let amp = square.generate(&regs, 60);
    assert_eq!(amp, Ratio { num: 0, den: 15 });
}

#[test]
fn triangle_wave_ramps_both_ways() {
    let mut regs = loud_registers();
    let mut triangle = TriangleWave::default();
    // n = 1: phase 333/960 in the rising half: 2 * 333/960, volume 1.
    regs.samples_since_note = 1;
    let amp = triangle.generate(&regs, 60);
    assert_eq!(amp, Ratio { num: 9990, den: 14400 });
    // n = 2: phase 666/960 in the falling half: 2 * (960-666)/960.
    regs.samples_since_note = 2;
    let amp = triangle.generate(&regs, 60);
    assert_eq!(amp, Ratio { num: 8820, den: 14400 });
}

#[test]
fn channel_ticks_before_generating() {
    let mut channel = Channel::new(Generator::Square(SquareWave::default()));
    channel.registers.envelope_length = 15;
    channel.registers.note_length = 31;
    let _ = channel.generate(60);
    assert_eq!(channel.registers().samples_since_note, 1);
    let _ = channel.generate(60);
    assert_eq!(channel.registers().samples_since_note, 2);
}

#[test]
fn sound_chip_addresses_map_to_channels() {
    let mut chip = SoundChip::default();
    // 0xA4..=0xA7 is the second square voice.
    chip.write(0xA4, 0b11_0_1_0101);
    assert_eq!(chip.square_wave_2.registers.duty_cycle, 3);
    assert_eq!(chip.square_wave_2.registers.envelope_length, 5);
    assert_eq!(chip.square_wave_1.registers.duty_cycle, 0);
    // 0xA8..=0xAB is the triangle, 0xAC..=0xAF the noise voice.
    chip.write(0xAA, 0xCD);
    assert_eq!(chip.triangle_wave.registers.period, 0xCD);
    chip.write(0xAF, 0b10101_000);
    assert_eq!(chip.noise.registers.note_length, 0b10101);
    // Reads come back from the same channel.
    assert_eq!(chip.read(0xA4), 0b11_0_1_0101);
    assert_eq!(chip.read(0xAA), 0xCD);
}

#[test]
fn sound_chip_generate_advances_every_voice() {
    let mut chip = SoundChip::default();
    let out = chip.generate(44100);
    assert_eq!(chip.square_wave_1.registers.samples_since_note, 1);
    assert_eq!(chip.square_wave_2.registers.samples_since_note, 1);
    assert_eq!(chip.triangle_wave.registers.samples_since_note, 1);
    assert_eq!(chip.noise.registers.samples_since_note, 1);
    match chip.noise.generator {
        Generator::Noise(n) => assert_eq!(n.shift_register, 0x4000),
        _ => panic!("the noise voice lost its generator"),
    }
    // Every amplitude is a well-formed rational in [0, 1].
    for amp in [out.square_1, out.square_2, out.triangle, out.noise] {
        assert!(amp.den > 0);
        assert!(amp.num <= amp.den);
    }
}
