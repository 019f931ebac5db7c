//! Cycle-level model of a pipelined processor's speculative front end, the
//! processing element of a matrix multiplication accelerator, and the Verilog
//! syntax tree that such designs are written out as.
//!
//! Every stage is a pure function from the state latched in the previous
//! cycle and the signals of the current cycle to the next state and the
//! signals it drives, so the behaviour of each stage is stated as a contract.

pub mod cpu;
pub mod gemmini;
pub mod vir;
