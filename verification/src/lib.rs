//! An 8-bit virtual machine wired to a four-voice audio synthesizer.
//!
//! Programs live in a 256-byte address space: a read-only ROM bank of
//! 64 big-endian 16-bit words, 32 bytes of RAM, sixteen memory-mapped
//! synthesizer registers, and four host-owned trampoline vector flags.
//! The CPU executes one instruction per host tick (held back by a wait
//! counter), and the sound chip turns the current register snapshot
//! into one amplitude sample per tick.
//!
//! All amplitudes are exact rationals in [0, 1]; the host divides them
//! out and applies the fixed mixing weights.

pub mod clock;
pub mod cpu;
pub mod params;
pub mod sound;

pub use clock::SampleClock;
pub use cpu::{Cpu, Fault};
pub use params::{RomBank, SixFiveParams};
pub use sound::{Channel, ChannelOutputs, ChannelRegisters, Generator, Noise, Ratio, SoundChip, SquareWave, TriangleWave};
