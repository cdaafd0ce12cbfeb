//! Writeback stage: the MEM/WB latch and the multiplexer that selects
//! the value committed to the register file.

use crate::isa::{OP_BRANCH, OP_JAL, OP_JALR, OP_LOAD, OP_STORE};
use vstd::prelude::*;

verus! {

/// The MEM/WB latch: what the memory stage hands to writeback, held
/// for one cycle.
#[derive(Clone, Copy, Default)]
pub struct MEMWBLatch {
    pub added_pc: u32,
    pub alu_output: u32,
    pub mem_data_out: u32,
    pub rd_index: u8,
    pub opcode: u8,
    pub instruction: u32,
    pub wb_stall: u8,
}

impl MEMWBLatch {
    /// Clears the latch to the values of a pipeline bubble.
    pub fn bubble(&mut self)
        ensures
            *final(self) == (MEMWBLatch {
                added_pc: 0,
                alu_output: 0,
                mem_data_out: 0,
                rd_index: 0,
                opcode: 0,
                instruction: 0,
                ..*old(self)
            }),
    {
        self.added_pc = 0;
        self.alu_output = 0;
        self.mem_data_out = 0;
        self.rd_index = 0;
        self.opcode = 0;
        self.instruction = 0;
    }
}

/// The derived values of the writeback stage.
#[derive(Clone, Copy, Default)]
pub struct WBLogic {
    pub wb_data: u32,
    /// Which input the multiplexer passed: 0 the ALU result, 1 the
    /// memory read, 2 the return address, 3 none.
    pub wb_used: u8,
}

/// The value the writeback stage commits: the return address for
/// JAL/JALR, the memory-stage result for loads, a never-consumed
/// sentinel for branches and stores (their destination index is forced
/// to 0), and the ALU result for everything else.
pub open spec fn wb_value(latch: MEMWBLatch) -> u32 {
    if latch.opcode == OP_JAL || latch.opcode == OP_JALR {
        latch.added_pc
    } else if latch.opcode == OP_LOAD {
        latch.mem_data_out
    } else if latch.opcode == OP_BRANCH || latch.opcode == OP_STORE {
        0xdead_beefu32
    } else {
        latch.alu_output
    }
}

/// Which input the writeback multiplexer passes for an opcode.
pub open spec fn wb_selector(opcode: u8) -> u8 {
    if opcode == OP_JAL || opcode == OP_JALR {
        2u8
    } else if opcode == OP_LOAD {
        1u8
    } else if opcode == OP_BRANCH || opcode == OP_STORE {
        3u8
    } else {
        0u8
    }
}

/// The whole writeback stage as a function of the MEM/WB latch.
pub open spec fn wb_logic_of(latch: MEMWBLatch) -> WBLogic {
    WBLogic { wb_data: wb_value(latch), wb_used: wb_selector(latch.opcode) }
}

/// Recomputes the writeback stage from the MEM/WB latch.
pub fn compute_writeback(latch: &MEMWBLatch) -> (r: WBLogic)
    ensures
        r == wb_logic_of(*latch),
{
    if latch.opcode == OP_JAL || latch.opcode == OP_JALR {
        WBLogic { wb_data: latch.added_pc, wb_used: 2 }
    } else if latch.opcode == OP_LOAD {
        WBLogic { wb_data: latch.mem_data_out, wb_used: 1 }
    } else if latch.opcode == OP_BRANCH || latch.opcode == OP_STORE {
        WBLogic { wb_data: 0xdead_beef, wb_used: 3 }
    } else {
        WBLogic { wb_data: latch.alu_output, wb_used: 0 }
    }
}

} // verus!
