//! A CHIP-8 virtual machine: memory, registers, timers, display buffer and
//! the fetch-decode-execute engine, each instruction with a proved contract.
//!
//! The machine never blocks. It is stepped by a host, which polls its
//! keyboard, presents the display and runs a 60 Hz clock; an instruction that
//! waits for a key shows as a state of the machine, and an error halts it
//! for good and is returned to the host.
//!
//! No operation of the machine panics, with one exception: `execute` and
//! `emulate_cycle` draw the byte for `Cxnn` from the `rand` crate, whose
//! generator panics when the operating system gives it no entropy. A host
//! that must rule this out brings its own byte and calls `execute_with` or
//! `emulate_cycle_with`.

pub mod cpu;
pub mod decode;
pub mod display;
pub mod font;
pub mod host;
pub mod laws;
pub mod machine;
pub mod ops;
pub mod semantics;
pub mod state;
