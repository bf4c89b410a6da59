//! The four-voice sound chip: per-channel register files, the square,
//! triangle and noise generators, and the register-to-channel address
//! map.
//!
//! Time is counted in whole output samples. Every amplitude that a
//! generator produces is an exact rational in [0, 1], handed out as a
//! numerator/denominator pair; the host performs the final division
//! and mixing.

use vstd::prelude::*;
use vstd::arithmetic::div_mod::{lemma_mod_add_multiples_vanish, lemma_mod_division_less_than_divisor};
use vstd::arithmetic::mul::{lemma_mul_inequality, lemma_mul_strictly_positive, lemma_mul_upper_bound};

verus! {

/// An exact nonnegative rational amplitude, at most 1.
#[derive(Clone, Copy, Debug, PartialEq, Eq, Structural)]
pub struct Ratio {
    pub num: u128,
    pub den: u128,
}

impl Ratio {
    pub open spec fn wf(self) -> bool {
        0 < self.den && self.num <= self.den
    }
}

/// The mathematical state of one channel's register block, plus the
/// sample counter that stands in for the time since the last note
/// write.
pub ghost struct ChanState {
    pub duty_cycle: u8,
    pub looping: bool,
    pub envelope: bool,
    pub envelope_length: u8,
    pub shift_enabled: bool,
    pub shift_period: u8,
    pub shift_reverse: bool,
    pub shift_speed: u8,
    pub period: u16,
    pub note_length: u8,
    pub samples_since_note: u64,
}

impl ChanState {
    pub open spec fn wf(self) -> bool {
        &&& self.duty_cycle < 4
        &&& self.envelope_length < 16
        &&& self.shift_period < 8
        &&& self.shift_speed < 8
        &&& self.period < 2048
        &&& self.note_length < 32
    }
}

/// What reading sub-register `register` (0..=3) of a channel returns.
pub open spec fn spec_register_read(c: ChanState, register: u8) -> u8
    recommends
        c.wf(),
        register < 4,
{
    if register == 0 {
        (c.duty_cycle << 6) | (if c.looping { 0x20u8 } else { 0u8 })
            | (if c.envelope { 0x10u8 } else { 0u8 }) | c.envelope_length
    } else if register == 1 {
        (if c.shift_enabled { 0x80u8 } else { 0u8 }) | (c.shift_period << 4)
            | (if c.shift_reverse { 0x08u8 } else { 0u8 }) | c.shift_speed
    } else if register == 2 {
        c.period as u8
    } else {
        ((c.period >> 8) as u8) | (c.note_length << 3)
    }
}

/// The channel state after writing `value` to sub-register `register`
/// (0..=3). A write to register 3 restarts the note clock.
pub open spec fn spec_register_write(c: ChanState, register: u8, value: u8) -> ChanState
    recommends
        register < 4,
{
    if register == 0 {
        ChanState {
            duty_cycle: (value >> 6) & 0x3,
            looping: (value >> 5) & 0x1 == 1,
            envelope: (value >> 4) & 0x1 == 1,
            envelope_length: value & 0xF,
            ..c
        }
    } else if register == 1 {
        ChanState {
            shift_enabled: (value >> 7) & 0x1 == 1,
            shift_period: (value >> 4) & 0x7,
            shift_reverse: (value >> 3) & 0x1 == 1,
            shift_speed: value & 0x7,
            ..c
        }
    } else if register == 2 {
        ChanState { period: (c.period & 0x700) | (value as u16), ..c }
    } else {
        ChanState {
            period: (c.period & 0xFF) | (((value & 0x7) as u16) << 8),
            note_length: (value >> 3) & 0x1F,
            samples_since_note: 0,
            ..c
        }
    }
}

/// One channel's register block. The sample counter is derived state:
/// it is reset by a write to register 3 and never exposed through a
/// register read.
pub struct ChannelRegisters {
    pub duty_cycle: u8,
    pub looping: bool,
    pub envelope: bool,
    pub envelope_length: u8,
    pub shift_enabled: bool,
    pub shift_period: u8,
    pub shift_reverse: bool,
    /// Recorded with the other shift-unit bits, but not consulted by
    /// the current sweep math.
    pub shift_speed: u8,
    pub period: u16,
    pub note_length: u8,
    pub samples_since_note: u64,
}

impl View for ChannelRegisters {
    type V = ChanState;

    open spec fn view(&self) -> ChanState {
        ChanState {
            duty_cycle: self.duty_cycle,
            looping: self.looping,
            envelope: self.envelope,
            envelope_length: self.envelope_length,
            shift_enabled: self.shift_enabled,
            shift_period: self.shift_period,
            shift_reverse: self.shift_reverse,
            shift_speed: self.shift_speed,
            period: self.period,
            note_length: self.note_length,
            samples_since_note: self.samples_since_note,
        }
    }
}

impl Default for ChannelRegisters {
    /// Everything zeroed: silent, no sweep, note clock at zero.
    fn default() -> (d: Self)
        ensures
            d@ == spec_chan_zero(),
    {
        ChannelRegisters {
            duty_cycle: 0,
            looping: false,
            envelope: false,
            envelope_length: 0,
            shift_enabled: false,
            shift_period: 0,
            shift_reverse: false,
            shift_speed: 0,
            period: 0,
            note_length: 0,
            samples_since_note: 0,
        }
    }
}

impl ChannelRegisters {
    pub open spec fn wf(&self) -> bool {
        self@.wf()
    }

    pub fn read(&self, register: u8) -> (value: u8)
        requires
            self.wf(),
            register < 4,
        ensures
            value == spec_register_read(self@, register),
    {
        if register == 0 {
            (self.duty_cycle << 6) | (if self.looping { 0x20u8 } else { 0u8 })
                | (if self.envelope { 0x10u8 } else { 0u8 }) | self.envelope_length
        } else if register == 1 {
            (if self.shift_enabled { 0x80u8 } else { 0u8 }) | (self.shift_period << 4)
                | (if self.shift_reverse { 0x08u8 } else { 0u8 }) | self.shift_speed
        } else if register == 2 {
            self.period as u8
        } else {
            ((self.period >> 8) as u8) | (self.note_length << 3)
        }
    }

    pub fn write(&mut self, register: u8, value: u8)
        requires
            old(self).wf(),
            register < 4,
        ensures
            final(self).wf(),
            final(self)@ == spec_register_write(old(self)@, register, value),
    {
        if register == 0 {
            self.duty_cycle = (value >> 6) & 0x3;
            self.looping = (value >> 5) & 0x1 == 1;
            self.envelope = (value >> 4) & 0x1 == 1;
            self.envelope_length = value & 0xF;
            assert((value >> 6) & 0x3 < 4 && value & 0xF < 16) by (bit_vector);
        } else if register == 1 {
            self.shift_enabled = (value >> 7) & 0x1 == 1;
            self.shift_period = (value >> 4) & 0x7;
            self.shift_reverse = (value >> 3) & 0x1 == 1;
            self.shift_speed = value & 0x7;
            assert((value >> 4) & 0x7 < 8 && value & 0x7 < 8) by (bit_vector);
        } else if register == 2 {
            let p = self.period;
            self.period = (p & 0x700) | (value as u16);
            assert((p & 0x700) | (value as u16) < 2048) by (bit_vector);
        } else {
            let p = self.period;
            self.period = (p & 0xFF) | (((value & 0x7) as u16) << 8);
            self.note_length = (value >> 3) & 0x1F;
            self.samples_since_note = 0;
            assert((p & 0xFF) | (((value & 0x7) as u16) << 8) < 2048 && (value >> 3) & 0x1F < 32)
                by (bit_vector);
        }
    }

    /// Advance the note clock by one output sample. The counter stops
    /// at its maximum rather than wrapping back to zero.
    pub fn tick(&mut self)
        ensures
            final(self)@ == spec_chan_tick(old(self)@),
    {
        self.samples_since_note = self.samples_since_note.saturating_add(1);
    }
}

/// A register write followed by a read of the same sub-register hands
/// the written byte back unchanged, for every channel state and every
/// sub-register: the packing is lossless.
pub proof fn lemma_register_round_trip(c: ChanState, register: u8, value: u8)
    requires
        c.wf(),
        register < 4,
    ensures
        spec_register_read(spec_register_write(c, register, value), register) == value,
{
    if register == 0 {
        assert((((value >> 6) & 0x3) << 6) | (if (value >> 5) & 0x1 == 1 { 0x20u8 } else { 0u8 })
            | (if (value >> 4) & 0x1 == 1 { 0x10u8 } else { 0u8 }) | (value & 0xF) == value)
            by (bit_vector);
    } else if register == 1 {
        assert((if (value >> 7) & 0x1 == 1 { 0x80u8 } else { 0u8 }) | (((value >> 4) & 0x7) << 4)
            | (if (value >> 3) & 0x1 == 1 { 0x08u8 } else { 0u8 }) | (value & 0x7) == value)
            by (bit_vector);
    } else if register == 2 {
        let p = c.period;
        assert(((p & 0x700) | (value as u16)) as u8 == value) by (bit_vector);
    } else {
        let p = c.period;
        assert(((((p & 0xFF) | (((value & 0x7) as u16) << 8)) >> 8) as u8)
            | (((value >> 3) & 0x1F) << 3) == value) by (bit_vector);
    }
}

/// Decoding the packed envelope register recovers every field that was
/// encoded into it: duty cycle, looping flag, envelope flag and
/// envelope length all round-trip exactly.
pub proof fn lemma_envelope_register_round_trip(c: ChanState, d: ChanState)
    requires
        c.wf(),
    ensures
        ({
            let decoded = spec_register_write(d, 0, spec_register_read(c, 0));
            &&& decoded.duty_cycle == c.duty_cycle
            &&& decoded.looping == c.looping
            &&& decoded.envelope == c.envelope
            &&& decoded.envelope_length == c.envelope_length
        }),
{
    let dc = c.duty_cycle;
    let lo = c.looping;
    let en = c.envelope;
    let el = c.envelope_length;
    let v = (dc << 6) | (if lo { 0x20u8 } else { 0u8 }) | (if en { 0x10u8 } else { 0u8 }) | el;
    assert(dc < 4 && el < 16 ==> {
        &&& (v >> 6) & 0x3 == dc
        &&& ((v >> 5) & 0x1 == 1) == lo
        &&& ((v >> 4) & 0x1 == 1) == en
        &&& v & 0xF == el
    }) by (bit_vector)
        requires
            v == (dc << 6) | (if lo { 0x20u8 } else { 0u8 }) | (if en { 0x10u8 } else { 0u8 })
                | el,
    ;
}

/// The note clock one output sample later; the counter stops at its
/// maximum rather than wrapping.
pub open spec fn spec_chan_tick(c: ChanState) -> ChanState {
    ChanState {
        samples_since_note: if c.samples_since_note < u64::MAX {
            (c.samples_since_note + 1) as u64
        } else {
            u64::MAX
        },
        ..c
    }
}

/// Whether the note has ended: the note clock has passed
/// `note_length / 60` seconds, that is `samples / rate` exceeds it.
pub open spec fn spec_note_over(c: ChanState, sample_rate: u32) -> bool {
    60 * c.samples_since_note > c.note_length * sample_rate
}

/// Numerator of the channel volume, an exact rational in [0, 1].
/// Zero once the note has ended; while the envelope runs, a linear
/// ramp from 1 down to 0 repeating every `envelope_length / 15`
/// seconds; otherwise the constant volume `envelope_length / 15`.
/// An envelope of cycle length zero is silent.
pub open spec fn spec_volume_num(c: ChanState, sample_rate: u32) -> int {
    if spec_note_over(c, sample_rate) {
        0
    } else if c.envelope {
        if c.envelope_length == 0 {
            0
        } else {
            let d = c.envelope_length * sample_rate;
            d - (15 * c.samples_since_note) % d
        }
    } else {
        c.envelope_length as int
    }
}

/// Denominator of the channel volume; see `spec_volume_num`.
pub open spec fn spec_volume_den(c: ChanState, sample_rate: u32) -> int {
    if spec_note_over(c, sample_rate) {
        1
    } else if c.envelope {
        if c.envelope_length == 0 {
            1
        } else {
            c.envelope_length * sample_rate
        }
    } else {
        15
    }
}

/// One sweep adjustment of the pitch period: lengthen or shorten by
/// `period >> shift`. Lengthening wraps modulo 2^16.
pub open spec fn spec_sweep_step(p: u16, shift: u8, reverse: bool) -> u16
    recommends
        shift < 8,
{
    if reverse {
        (p - (p >> shift)) as u16
    } else {
        p.wrapping_add(p >> shift)
    }
}

/// The pitch period after `steps` successive sweep adjustments.
pub open spec fn spec_sweep(p: u16, shift: u8, reverse: bool, steps: nat) -> u16
    recommends
        shift < 8,
    decreases steps,
{
    if steps == 0 {
        p
    } else {
        spec_sweep_step(spec_sweep(p, shift, reverse, (steps - 1) as nat), shift, reverse)
    }
}

/// How many sweep steps have elapsed: one per 120 seconds of note
/// time, saturating at 0xFFFF.
pub open spec fn spec_shift_steps(n: u64, sample_rate: u32) -> nat {
    let s = n as int / (120 * sample_rate);
    if s > 0xFFFF {
        0xFFFF as nat
    } else {
        s as nat
    }
}

/// The pitch period the generators actually use: the programmed
/// period, swept if the shift unit is enabled.
pub open spec fn spec_effective_period(c: ChanState, sample_rate: u32) -> u16 {
    if c.shift_enabled {
        spec_sweep(c.period, c.shift_period, c.shift_reverse,
            spec_shift_steps(c.samples_since_note, sample_rate))
    } else {
        c.period
    }
}

/// Denominator of the waveform phase: the waveform period is
/// `16 * (ep + 1) / 1789773` seconds, so the phase of sample `n` is
/// `(n * 1789773 mod 16 * rate * (ep + 1)) / (16 * rate * (ep + 1))`
/// of a cycle.
pub open spec fn spec_period_den(ep: u16, sample_rate: u32) -> int {
    16 * sample_rate * (ep + 1)
}

/// Numerator of the waveform phase; see `spec_period_den`.
pub open spec fn spec_phase_num(n: u64, ep: u16, sample_rate: u32) -> int {
    (n * 1789773) % spec_period_den(ep, sample_rate)
}

/// Whether the square wave is in the high part of its cycle: at or
/// past the duty-cycle threshold 1/8, 1/4, 1/2 or 3/4.
pub open spec fn spec_square_on(c: ChanState, sample_rate: u32) -> bool {
    let ep = spec_effective_period(c, sample_rate);
    let d = spec_period_den(ep, sample_rate);
    let r = spec_phase_num(c.samples_since_note, ep, sample_rate);
    if c.duty_cycle == 0 {
        8 * r >= d
    } else if c.duty_cycle == 1 {
        4 * r >= d
    } else if c.duty_cycle == 2 {
        2 * r >= d
    } else {
        4 * r >= 3 * d
    }
}

/// Square wave amplitude: the channel volume in the high part of the
/// cycle, zero in the low part.
pub open spec fn spec_square_num(c: ChanState, sample_rate: u32) -> int {
    if spec_square_on(c, sample_rate) {
        spec_volume_num(c, sample_rate)
    } else {
        0
    }
}

pub open spec fn spec_square_den(c: ChanState, sample_rate: u32) -> int {
    spec_volume_den(c, sample_rate)
}

/// Triangle wave amplitude numerator: a ramp rising from 0 to 1 over
/// the first half of the cycle and falling back over the second,
/// scaled by the channel volume.
pub open spec fn spec_triangle_num(c: ChanState, sample_rate: u32) -> int {
    let ep = spec_effective_period(c, sample_rate);
    let d = spec_period_den(ep, sample_rate);
    let r = spec_phase_num(c.samples_since_note, ep, sample_rate);
    if 2 * r < d {
        (2 * r) * spec_volume_num(c, sample_rate)
    } else {
        (2 * (d - r)) * spec_volume_num(c, sample_rate)
    }
}

pub open spec fn spec_triangle_den(c: ChanState, sample_rate: u32) -> int {
    spec_period_den(spec_effective_period(c, sample_rate), sample_rate)
        * spec_volume_den(c, sample_rate)
}

/// The feedback bit of the 15-bit noise shift register: bit 0 xor
/// bit 1.
pub open spec fn spec_lfsr_feedback(s: u16) -> u16 {
    (s & 1) ^ ((s >> 1) & 1)
}

/// The noise shift register after one step: shift right, insert the
/// feedback bit at bit 14.
pub open spec fn spec_lfsr_next(s: u16) -> u16 {
    (s >> 1) | (spec_lfsr_feedback(s) << 14)
}

/// The noise shift register stays a nonzero 15-bit state: stepping
/// from any such state lands on another, so the generator seeded with
/// 1 can never fall silent into the all-zero state.
pub proof fn lemma_lfsr_state_stays_nonzero(s: u16)
    requires
        s != 0,
        s < 0x8000,
    ensures
        spec_lfsr_next(s) != 0,
        spec_lfsr_next(s) < 0x8000,
{
    assert(s != 0 && s < 0x8000 ==> {
        let next = (s >> 1) | (((s & 1) ^ ((s >> 1) & 1)) << 14);
        next != 0 && next < 0x8000
    }) by (bit_vector);
}

/// Noise amplitude: full channel volume when the feedback bit is 0,
/// zero otherwise.
pub open spec fn spec_noise_num(c: ChanState, sample_rate: u32, lfsr: u16) -> int {
    if spec_lfsr_feedback(lfsr) == 0 {
        spec_volume_num(c, sample_rate)
    } else {
        0
    }
}

pub open spec fn spec_noise_den(c: ChanState, sample_rate: u32) -> int {
    spec_volume_den(c, sample_rate)
}

impl ChannelRegisters {
    /// The channel volume as an exact rational; see `spec_volume_num`.
    pub fn get_effective_volume(&self, sample_rate: u32) -> (v: Ratio)
        requires
            self.wf(),
            1 <= sample_rate,
        ensures
            v.wf(),
            v.num == spec_volume_num(self@, sample_rate),
            v.den == spec_volume_den(self@, sample_rate),
            v.den <= 15 * sample_rate,
    {
        proof {
            lemma_mul_inequality(1, sample_rate as int, 15);
            lemma_mul_upper_bound(self.note_length as int, 31, sample_rate as int,
                0xFFFF_FFFFint);
        }
        let over = (self.samples_since_note as u128) * 60
            > (self.note_length as u128) * (sample_rate as u128);
        if over {
            return Ratio { num: 0, den: 1 };
        }
        if self.envelope {
            if self.envelope_length == 0 {
                return Ratio { num: 0, den: 1 };
            }
            proof {
                lemma_mul_strictly_positive(self.envelope_length as int, sample_rate as int);
                lemma_mul_upper_bound(self.envelope_length as int, 15, sample_rate as int,
                    0xFFFF_FFFF);
                lemma_mul_inequality(self.envelope_length as int, 15, sample_rate as int);
            }
            let d: u64 = (self.envelope_length as u64) * (sample_rate as u64);
            proof {
                lemma_mod_division_less_than_divisor(15 * (self.samples_since_note as int),
                    d as int);
            }
            let r: u64 = (((self.samples_since_note as u128) * 15) % (d as u128)) as u64;
            return Ratio { num: (d - r) as u128, den: d as u128 };
        }
        Ratio { num: self.envelope_length as u128, den: 15 }
    }

    /// The swept pitch period; see `spec_effective_period`.
    pub fn get_effective_period(&self, sample_rate: u32) -> (ep: u16)
        requires
            self.wf(),
            1 <= sample_rate,
        ensures
            ep == spec_effective_period(self@, sample_rate),
    {
        let q: u128 = (self.samples_since_note as u128) / (120 * (sample_rate as u128));
        let steps: u16 = if q > 0xFFFF {
            0xFFFF
        } else {
            q as u16
        };
        let mut ep: u16 = self.period;
        if self.shift_enabled {
            let shift = self.shift_period;
            let reverse = self.shift_reverse;
            let mut i: u16 = 0;
            while i < steps
                invariant
                    i <= steps,
                    shift < 8,
                    ep == spec_sweep(self@.period, shift, reverse, i as nat),
                decreases steps - i,
            {
                let delta = ep >> shift;
                if reverse {
                    proof {
                        assert(ep >> shift <= ep) by (bit_vector);
                    }
                    ep = ep - delta;
                } else {
                    ep = ep.wrapping_add(delta);
                }
                i = i + 1;
            }
        }
        ep
    }
}

/// The square wave generator; its whole state lives in the channel
/// registers.
#[derive(Clone, Copy, Debug, PartialEq, Eq, Structural)]
pub struct SquareWave {}

impl Default for SquareWave {
    fn default() -> (d: Self)
        ensures
            d == (SquareWave {  }),
    {
        SquareWave {  }
    }
}

impl SquareWave {
    pub fn generate(&mut self, registers: &ChannelRegisters, sample_rate: u32) -> (amp: Ratio)
        requires
            registers.wf(),
            1 <= sample_rate,
        ensures
            amp.wf(),
            amp.num == spec_square_num(registers@, sample_rate),
            amp.den == spec_square_den(registers@, sample_rate),
    {
        let ep = registers.get_effective_period(sample_rate);
        proof {
            lemma_mul_upper_bound(16 * (sample_rate as int), 0xF_FFFF_FFF0, ep as int + 1,
                0x1_0000);
            lemma_mul_strictly_positive(16 * (sample_rate as int), ep as int + 1);
        }
        let d: u128 = (16 * (sample_rate as u128)) * ((ep as u128) + 1);
        proof {
            lemma_mod_division_less_than_divisor((registers@.samples_since_note as int) * 1789773,
                d as int);
        }
        let r: u128 = ((registers.samples_since_note as u128) * 1789773) % d;
        let volume = registers.get_effective_volume(sample_rate);
        let on = if registers.duty_cycle == 0 {
            8 * r >= d
        } else if registers.duty_cycle == 1 {
            4 * r >= d
        } else if registers.duty_cycle == 2 {
            2 * r >= d
        } else {
            4 * r >= 3 * d
        };
        if on {
            Ratio { num: volume.num, den: volume.den }
        } else {
            Ratio { num: 0, den: volume.den }
        }
    }
}

/// The triangle wave generator; its whole state lives in the channel
/// registers.
#[derive(Clone, Copy, Debug, PartialEq, Eq, Structural)]
pub struct TriangleWave {}

impl Default for TriangleWave {
    fn default() -> (d: Self)
        ensures
            d == (TriangleWave {  }),
    {
        TriangleWave {  }
    }
}

impl TriangleWave {
    pub fn generate(&mut self, registers: &ChannelRegisters, sample_rate: u32) -> (amp: Ratio)
        requires
            registers.wf(),
            1 <= sample_rate,
        ensures
            amp.wf(),
            amp.num == spec_triangle_num(registers@, sample_rate),
            amp.den == spec_triangle_den(registers@, sample_rate),
    {
        let ep = registers.get_effective_period(sample_rate);
        proof {
            lemma_mul_upper_bound(16 * (sample_rate as int), 0xF_FFFF_FFF0, ep as int + 1,
                0x1_0000);
            lemma_mul_strictly_positive(16 * (sample_rate as int), ep as int + 1);
        }
        let d: u128 = (16 * (sample_rate as u128)) * ((ep as u128) + 1);
        proof {
            lemma_mod_division_less_than_divisor((registers@.samples_since_note as int) * 1789773,
                d as int);
        }
        let r: u128 = ((registers.samples_since_note as u128) * 1789773) % d;
        let volume = registers.get_effective_volume(sample_rate);
        proof {
            lemma_mul_upper_bound(d as int, 0xF_FFFF_FFF0_0000, volume.den as int,
                15 * 0xFFFF_FFFFint);
            lemma_mul_strictly_positive(d as int, volume.den as int);
        }
        let den: u128 = d * volume.den;
        if 2 * r < d {
            proof {
                lemma_mul_upper_bound(2 * (r as int), 0x1F_FFFF_FFE0_0000, volume.num as int,
                    15 * 0xFFFF_FFFFint);
                assert((2 * (r as int)) * (volume.num as int) <= (d as int) * (volume.den as int))
                    by (nonlinear_arith)
                    requires
                        2 * (r as int) <= d as int,
                        volume.num <= volume.den,
                        0 <= r,
                        0 <= volume.num,
                        0 <= d,
                ;
            }
            Ratio { num: (2 * r) * volume.num, den }
        } else {
            proof {
                lemma_mul_upper_bound(2 * (d as int - r as int), 0x1F_FFFF_FFE0_0000,
                    volume.num as int, 15 * 0xFFFF_FFFFint);
                assert((2 * (d as int - r as int)) * (volume.num as int)
                    <= (d as int) * (volume.den as int)) by (nonlinear_arith)
                    requires
                        2 * (r as int) >= d as int,
                        r as int <= d as int,
                        volume.num <= volume.den,
                        0 <= volume.num,
                        0 <= d,
                ;
            }
            Ratio { num: (2 * (d - r)) * volume.num, den }
        }
    }
}

/// The noise generator: a 15-bit linear-feedback shift register,
/// seeded with 1, stepped once per generated sample.
#[derive(Clone, Copy, Debug, PartialEq, Eq, Structural)]
pub struct Noise {
    pub shift_register: u16,
}

impl Default for Noise {
    fn default() -> (d: Self)
        ensures
            d.shift_register == 1,
    {
        Noise { shift_register: 1 }
    }
}

impl Noise {
    pub fn generate(&mut self, registers: &ChannelRegisters, sample_rate: u32) -> (amp: Ratio)
        requires
            registers.wf(),
            1 <= sample_rate,
        ensures
            final(self).shift_register == spec_lfsr_next(old(self).shift_register),
            amp.wf(),
            amp.num == spec_noise_num(registers@, sample_rate, old(self).shift_register),
            amp.den == spec_noise_den(registers@, sample_rate),
    {
        let feedback = (self.shift_register & 1) ^ ((self.shift_register >> 1) & 1);
        self.shift_register = (self.shift_register >> 1) | (feedback << 14);
        let volume = registers.get_effective_volume(sample_rate);
        if feedback == 0 {
            volume
        } else {
            Ratio { num: 0, den: volume.den }
        }
    }
}

/// The all-zero channel state that a reset produces.
pub open spec fn spec_chan_zero() -> ChanState {
    ChanState {
        duty_cycle: 0,
        looping: false,
        envelope: false,
        envelope_length: 0,
        shift_enabled: false,
        shift_period: 0,
        shift_reverse: false,
        shift_speed: 0,
        period: 0,
        note_length: 0,
        samples_since_note: 0,
    }
}

/// The waveform algorithm a channel runs, with whatever state that
/// algorithm keeps of its own.
#[derive(Clone, Copy, Debug, PartialEq, Eq, Structural)]
pub enum Generator {
    Square(SquareWave),
    Triangle(TriangleWave),
    Noise(Noise),
}

/// The generator state after producing one sample: only the noise
/// generator carries state of its own.
pub open spec fn spec_generator_next(g: Generator) -> Generator {
    match g {
        Generator::Noise(n) => Generator::Noise(
            Noise { shift_register: spec_lfsr_next(n.shift_register) },
        ),
        _ => g,
    }
}

/// The amplitude numerator the generator produces from the given
/// channel state.
pub open spec fn spec_generate_num(g: Generator, c: ChanState, sample_rate: u32) -> int {
    match g {
        Generator::Square(_) => spec_square_num(c, sample_rate),
        Generator::Triangle(_) => spec_triangle_num(c, sample_rate),
        Generator::Noise(n) => spec_noise_num(c, sample_rate, n.shift_register),
    }
}

/// The matching amplitude denominator; see `spec_generate_num`.
pub open spec fn spec_generate_den(g: Generator, c: ChanState, sample_rate: u32) -> int {
    match g {
        Generator::Square(_) => spec_square_den(c, sample_rate),
        Generator::Triangle(_) => spec_triangle_den(c, sample_rate),
        Generator::Noise(_) => spec_noise_den(c, sample_rate),
    }
}

/// One voice: a register block coupled to its wave generator.
pub struct Channel {
    pub registers: ChannelRegisters,
    pub generator: Generator,
}

impl Channel {
    pub open spec fn wf(&self) -> bool {
        self.registers.wf()
    }

    /// A fresh channel: zeroed registers around the given generator.
    pub fn new(generator: Generator) -> (c: Channel)
        ensures
            c.wf(),
            c.registers@ == spec_chan_zero(),
            c.generator == generator,
    {
        Channel { registers: ChannelRegisters::default(), generator }
    }

    fn read(&self, register: u8) -> (value: u8)
        requires
            self.wf(),
            register < 4,
        ensures
            value == spec_register_read(self.registers@, register),
    {
        self.registers.read(register)
    }

    fn write(&mut self, register: u8, value: u8)
        requires
            old(self).wf(),
            register < 4,
        ensures
            final(self).wf(),
            final(self).registers@ == spec_register_write(old(self).registers@, register, value),
            final(self).generator == old(self).generator,
    {
        self.registers.write(register, value)
    }

    /// Advance the note clock one sample and produce this sample's
    /// amplitude from the updated register state.
    pub fn generate(&mut self, sample_rate: u32) -> (amp: Ratio)
        requires
            old(self).wf(),
            1 <= sample_rate,
        ensures
            final(self).wf(),
            final(self).registers@ == spec_chan_tick(old(self).registers@),
            final(self).generator == spec_generator_next(old(self).generator),
            amp.wf(),
            amp.num == spec_generate_num(old(self).generator, final(self).registers@,
                sample_rate),
            amp.den == spec_generate_den(old(self).generator, final(self).registers@,
                sample_rate),
    {
        self.registers.tick();
        match self.generator {
            Generator::Square(w) => {
                let mut w = w;
                let amp = w.generate(&self.registers, sample_rate);
                self.generator = Generator::Square(w);
                amp
            },
            Generator::Triangle(w) => {
                let mut w = w;
                let amp = w.generate(&self.registers, sample_rate);
                self.generator = Generator::Triangle(w);
                amp
            },
            Generator::Noise(w) => {
                let mut w = w;
                let amp = w.generate(&self.registers, sample_rate);
                self.generator = Generator::Noise(w);
                amp
            },
        }
    }

    pub fn registers(&self) -> (r: &ChannelRegisters)
        ensures
            *r == self.registers,
    {
        &self.registers
    }
}

/// The mathematical state of the whole sound chip: four register
/// blocks and the noise shift register.
pub ghost struct SoundState {
    pub square_wave_1: ChanState,
    pub square_wave_2: ChanState,
    pub triangle_wave: ChanState,
    pub noise: ChanState,
    pub noise_lfsr: u16,
}

impl SoundState {
    pub open spec fn wf(self) -> bool {
        &&& self.square_wave_1.wf()
        &&& self.square_wave_2.wf()
        &&& self.triangle_wave.wf()
        &&& self.noise.wf()
    }
}

/// What reading sound register address 0xA0..=0xAF returns: register
/// index `i` maps to channel `i / 4`, sub-register `i % 4`.
pub open spec fn spec_sound_read(s: SoundState, register: u8) -> u8
    recommends
        s.wf(),
        0xA0 <= register <= 0xAF,
{
    if register < 0xA4 {
        spec_register_read(s.square_wave_1, (register - 0xA0) as u8)
    } else if register < 0xA8 {
        spec_register_read(s.square_wave_2, (register - 0xA4) as u8)
    } else if register < 0xAC {
        spec_register_read(s.triangle_wave, (register - 0xA8) as u8)
    } else {
        spec_register_read(s.noise, (register - 0xAC) as u8)
    }
}

/// The sound chip state after a write to register address
/// 0xA0..=0xAF; see `spec_sound_read` for the address map.
pub open spec fn spec_sound_write(s: SoundState, register: u8, value: u8) -> SoundState
    recommends
        0xA0 <= register <= 0xAF,
{
    if register < 0xA4 {
        SoundState {
            square_wave_1: spec_register_write(s.square_wave_1, (register - 0xA0) as u8, value),
            ..s
        }
    } else if register < 0xA8 {
        SoundState {
            square_wave_2: spec_register_write(s.square_wave_2, (register - 0xA4) as u8, value),
            ..s
        }
    } else if register < 0xAC {
        SoundState {
            triangle_wave: spec_register_write(s.triangle_wave, (register - 0xA8) as u8, value),
            ..s
        }
    } else {
        SoundState { noise: spec_register_write(s.noise, (register - 0xAC) as u8, value), ..s }
    }
}

/// The sound chip state after generating one sample: every note clock
/// advances one sample and the noise shift register steps once.
pub open spec fn spec_sound_tick(s: SoundState) -> SoundState {
    SoundState {
        square_wave_1: spec_chan_tick(s.square_wave_1),
        square_wave_2: spec_chan_tick(s.square_wave_2),
        triangle_wave: spec_chan_tick(s.triangle_wave),
        noise: spec_chan_tick(s.noise),
        noise_lfsr: spec_lfsr_next(s.noise_lfsr),
    }
}

/// The reset state of the whole chip: all registers zero, the noise
/// shift register seeded with 1.
pub open spec fn spec_sound_zero() -> SoundState {
    SoundState {
        square_wave_1: spec_chan_zero(),
        square_wave_2: spec_chan_zero(),
        triangle_wave: spec_chan_zero(),
        noise: spec_chan_zero(),
        noise_lfsr: 1,
    }
}

/// The four channel amplitudes of one output sample, each an exact
/// rational in [0, 1]. The host mixes them with the fixed weights
/// 0.06016, 0.06016, 0.13616 and 0.07904.
pub struct ChannelOutputs {
    pub square_1: Ratio,
    pub square_2: Ratio,
    pub triangle: Ratio,
    pub noise: Ratio,
}

/// Four voices behind sixteen registers: two squares, one triangle,
/// one noise.
pub struct SoundChip {
    pub square_wave_1: Channel,
    pub square_wave_2: Channel,
    pub triangle_wave: Channel,
    pub noise: Channel,
}

impl View for SoundChip {
    type V = SoundState;

    open spec fn view(&self) -> SoundState {
        SoundState {
            square_wave_1: self.square_wave_1.registers@,
            square_wave_2: self.square_wave_2.registers@,
            triangle_wave: self.triangle_wave.registers@,
            noise: self.noise.registers@,
            noise_lfsr: match self.noise.generator {
                Generator::Noise(n) => n.shift_register,
                _ => 0,
            },
        }
    }
}

impl Default for SoundChip {
    /// All registers zeroed, the noise shift register seeded with 1.
    fn default() -> (d: Self)
        ensures
            d.wf(),
            d@ == spec_sound_zero(),
    {
        SoundChip {
            square_wave_1: Channel::new(Generator::Square(SquareWave {  })),
            square_wave_2: Channel::new(Generator::Square(SquareWave {  })),
            triangle_wave: Channel::new(Generator::Triangle(TriangleWave {  })),
            noise: Channel::new(Generator::Noise(Noise { shift_register: 1 })),
        }
    }
}

impl SoundChip {
    pub open spec fn wf(&self) -> bool {
        &&& self@.wf()
        &&& self.square_wave_1.generator is Square
        &&& self.square_wave_2.generator is Square
        &&& self.triangle_wave.generator is Triangle
        &&& self.noise.generator is Noise
    }

    pub fn read(&self, register: u8) -> (value: u8)
        requires
            self.wf(),
            0xA0 <= register <= 0xAF,
        ensures
            value == spec_sound_read(self@, register),
    {
        if register < 0xA4 {
            self.square_wave_1.read(register - 0xA0)
        } else if register < 0xA8 {
            self.square_wave_2.read(register - 0xA4)
        } else if register < 0xAC {
            self.triangle_wave.read(register - 0xA8)
        } else {
            self.noise.read(register - 0xAC)
        }
    }

    pub fn write(&mut self, register: u8, value: u8)
        requires
            old(self).wf(),
            0xA0 <= register <= 0xAF,
        ensures
            final(self).wf(),
            final(self)@ == spec_sound_write(old(self)@, register, value),
    {
        if register < 0xA4 {
            self.square_wave_1.write(register - 0xA0, value)
        } else if register < 0xA8 {
            self.square_wave_2.write(register - 0xA4, value)
        } else if register < 0xAC {
            self.triangle_wave.write(register - 0xA8, value)
        } else {
            self.noise.write(register - 0xAC, value)
        }
    }

    /// Advance every channel one sample and hand out the four channel
    /// amplitudes of this sample.
    pub fn generate(&mut self, sample_rate: u32) -> (out: ChannelOutputs)
        requires
            old(self).wf(),
            1 <= sample_rate,
        ensures
            final(self).wf(),
            final(self)@ == spec_sound_tick(old(self)@),
            out.square_1.wf() && out.square_2.wf() && out.triangle.wf() && out.noise.wf(),
            out.square_1.num == spec_square_num(spec_chan_tick(old(self)@.square_wave_1),
                sample_rate),
            out.square_1.den == spec_square_den(spec_chan_tick(old(self)@.square_wave_1),
                sample_rate),
            out.square_2.num == spec_square_num(spec_chan_tick(old(self)@.square_wave_2),
                sample_rate),
            out.square_2.den == spec_square_den(spec_chan_tick(old(self)@.square_wave_2),
                sample_rate),
            out.triangle.num == spec_triangle_num(spec_chan_tick(old(self)@.triangle_wave),
                sample_rate),
            out.triangle.den == spec_triangle_den(spec_chan_tick(old(self)@.triangle_wave),
                sample_rate),
            out.noise.num == spec_noise_num(spec_chan_tick(old(self)@.noise), sample_rate,
                old(self)@.noise_lfsr),
            out.noise.den == spec_noise_den(spec_chan_tick(old(self)@.noise), sample_rate),
    {
        let square_1 = self.square_wave_1.generate(sample_rate);
        let square_2 = self.square_wave_2.generate(sample_rate);
        let triangle = self.triangle_wave.generate(sample_rate);
        let noise = self.noise.generate(sample_rate);
        ChannelOutputs { square_1, square_2, triangle, noise }
    }
}

/// The envelope is periodic: with the envelope enabled and the note
/// still active, sampling the volume one full envelope cycle later
/// (`envelope_length / 15` seconds, that is `envelope_length *
/// sample_rate / 15` samples) gives exactly the same volume.
pub proof fn lemma_envelope_periodic(c: ChanState, sample_rate: u32, later: u64)
    requires
        c.wf(),
        1 <= sample_rate,
        c.envelope,
        0 < c.envelope_length,
        c.samples_since_note <= later,
        15 * (later - c.samples_since_note) == c.envelope_length * sample_rate,
        !spec_note_over(ChanState { samples_since_note: later, ..c }, sample_rate),
    ensures
        spec_volume_num(ChanState { samples_since_note: later, ..c }, sample_rate)
            == spec_volume_num(c, sample_rate),
        spec_volume_den(ChanState { samples_since_note: later, ..c }, sample_rate)
            == spec_volume_den(c, sample_rate),
{
    let d = c.envelope_length * sample_rate;
    lemma_mul_strictly_positive(c.envelope_length as int, sample_rate as int);
    assert(!spec_note_over(c, sample_rate));
    assert(15 * later == 15 * c.samples_since_note + d);
    lemma_mod_add_multiples_vanish(15 * c.samples_since_note, d);
}

} // verus!
