//! A cycle-accurate simulator of a five-stage pipelined 32-bit RISC
//! processor.
//!
//! The crate is organised in two layers over a shared instruction-set
//! semantics:
//!
//! - [`isa`] gives the instruction-set semantics as specification
//!   functions: opcode classification, immediate reconstruction,
//!   the arithmetic/logic unit, and the branch comparator.
//! - [`components`] is the pipeline core: the four inter-stage latches
//!   and the per-stage combinational logic, advanced one clock cycle at
//!   a time by [`components::step`], with a purely functional model of
//!   the whole machine state backing every contract.
//! - [`subcomponents`] models each datapath element (program counter,
//!   decoder, multiplexers, ...) as a struct of its own, wired to its
//!   neighbours by references, with the same semantics stated piecewise.
//!
//! [`laws`] states and proves the guarantees that span several
//! functions: the hard-wired zero register, store/load round trips,
//! forwarding correctness, control-transfer targets, and the
//! unwritten-memory default.

pub mod components;
pub mod isa;
pub mod laws;
pub mod subcomponents;
