//! A single-hart RV32IMA instruction-set emulator: fetch/decode/execute with
//! the Zicsr and Zifencei extensions, a machine-mode privilege model with
//! trap and timer-interrupt handling, an LR/SC reservation, and a
//! memory-mapped bus connecting RAM, a core-local interruptor (CLINT), a
//! UART-style console and a syscon power register.

pub mod bus;
pub mod bus_interface;
pub mod clint;
pub mod cpu;
pub mod laws;
pub mod timer;
pub mod uart;
pub mod words;

