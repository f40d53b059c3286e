//! The privileged-call and shutdown layer of a small RISC-V kernel, as a
//! library of decisions: every function here computes *what* the machine
//! must be asked to do (which registers a firmware trap carries, which word
//! goes to the exit device, in which order), and leaves the asking to the
//! caller.

pub mod board;
pub mod sbi;
pub mod console;
pub mod report;
pub mod flow;
