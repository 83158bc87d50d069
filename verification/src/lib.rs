//! Playback of NSF tunes: music of the NES as the machine code that plays it.
//!
//! A tune is parsed by [`header`] and [`nsfe`], put into a machine by
//! [`bus::NesBus`], and played by [`cpu::Cpu6502`], which drives the sound
//! chips through the bus.
//!
//! Every device has a specification of what one CPU cycle does to it. What a
//! function does to a device over a stretch of time is stated by repeating
//! that, however the function works it out. Specification functions on large
//! states are opaque: `reveal` them to see through.
use vstd::prelude::*;

pub mod apu;
pub mod apu_laws;
mod bits;
pub mod branch_laws;
pub mod bus;
pub mod chip_laws;
pub mod coherence;
pub mod cpu;
pub mod cpu_laws;
pub mod dma;
pub mod device_laws;
pub mod dma_laws;
pub mod dmc;
pub mod envelope;
pub mod execute;
pub mod expansion;
pub mod fds;
pub mod fds_laws;
pub mod frame_laws;
mod frame_timing;
pub mod header;
pub mod header_laws;
pub mod instruction;
pub mod instruction_laws;
pub mod laws;
pub mod length;
pub mod loading;
pub mod machine_laws;
pub mod metadata_laws;
pub mod mixe_device;
pub mod mmc5;
pub mod n163;
pub mod noise;
pub mod noise_period;
pub mod nsfe;
pub mod opcode_laws;
pub mod opcodes;
pub mod opll;
pub mod pulse;
pub mod ratio;
pub mod register_laws;
pub mod s5b;
pub mod s5b_laws;
pub mod step;
pub mod text;
pub mod timer;
pub mod timing_laws;
pub mod tone_laws;
pub mod triangle;
pub mod undocumented_laws;
pub mod vrc6;
pub mod vrc7;
pub mod vrc7_laws;
pub mod walk;
pub mod wave_laws;

pub use apu::Apu2A03;
pub use bus::NesBus;
pub use cpu::Cpu6502;
pub use header::{parse_nsf, ExpansionChips, Nsf2Features, NsfError, NsfHeader, NsfRegion};
pub use nsfe::{
    NsfeAuth, NsfeMetaError, NsfeMetadata, NsfeMixerEntry, NsfeRate, NsfeRegions, NsfeVrc7,
};

verus! {

/// Samples per second of rendered sound.
pub const OUTPUT_SAMPLE_RATE: u32 = 44_100;

} // verus!
