//! Core of a Super Nintendo emulator: the cycle-accurate coordinator that
//! interleaves the main CPU, the audio coprocessor and the picture processor
//! on a shared master clock, and the audio coprocessor itself.
//!
//! The audio coprocessor (an SPC700-style 8-bit CPU with 64 KiB of RAM, three
//! programmable timers, a DSP register window and a four-byte mailbox to the
//! main CPU) is implemented and verified in full. The bus decoder and the
//! scheduler are verified against the memory map and the event table they
//! implement. External collaborators (main CPU core, picture processor
//! internals, DMA engine, peripherals) are out of scope and appear only
//! through the values they exchange with the core.

pub mod addressing;
pub mod bus;
pub mod bus_model;
pub mod dsp;
pub mod exec_model;
pub mod op_model;
pub mod ppu;
pub mod props;
pub mod scheduler;
pub mod spc;
pub mod spc_model;
pub mod status;
pub mod timer;
