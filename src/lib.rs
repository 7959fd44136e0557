//! A small virtual machine: a byte-addressed memory unit with an access
//! latch, a register CPU that runs multi-cycle instructions, a device bus of
//! byte mailboxes, and a GPU that turns a byte command stream into pixels.

pub mod mem;
pub mod chip_util;
pub mod ucode;
pub mod ram;
pub mod assembly;
pub mod cpu;
pub mod bus;
pub mod color;
pub mod vector;
pub mod monitor;
mod queue;
pub mod gpu_assembly;
pub mod gpu;
