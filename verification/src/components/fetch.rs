//! Fetch stage: the program-counter adder, the next-PC multiplexer,
//! and the instruction fetch from the program image.

use crate::isa::{wrap_add, wrap_add_exec, OP_BRANCH, OP_JAL, OP_JALR};
use vstd::prelude::*;

verus! {

/// The derived values of the fetch stage.
#[derive(Clone, Copy, Default)]
pub struct IFLogic {
    pub pcmux_out: u32,
    pub instruction_out: u32,
    pub pcadder_out: u32,
    pub jumped: bool,
}

/// The whole fetch stage as a function of the program counter, the
/// instruction currently in execute, and the program image. The
/// sequential next PC is the current one plus 4; a jump in execute, or
/// a taken branch there, redirects to the ALU-computed target instead.
/// Past the program image's extent the fetched word is 0, a no-op, so
/// that in-flight instructions drain.
pub open spec fn if_logic_of(
    pc: u32,
    idex_opcode: u8,
    alu_output: u32,
    branch_taken: bool,
    instr_mem: Seq<u32>,
) -> IFLogic {
    let pcadder = wrap_add(pc, 4);
    let jumped = idex_opcode == OP_JAL || idex_opcode == OP_JALR || (idex_opcode == OP_BRANCH
        && branch_taken);
    IFLogic {
        pcmux_out: if jumped {
            alu_output
        } else {
            pcadder
        },
        instruction_out: if pc / 4 >= instr_mem.len() {
            0u32
        } else {
            instr_mem[(pc / 4) as int]
        },
        pcadder_out: pcadder,
        jumped,
    }
}

/// Recomputes the fetch stage; see `if_logic_of`.
pub fn compute_fetch(
    pc: u32,
    idex_opcode: u8,
    alu_output: u32,
    branch_taken: bool,
    instr_mem: &Vec<u32>,
) -> (r: IFLogic)
    ensures
        r == if_logic_of(pc, idex_opcode, alu_output, branch_taken, instr_mem@),
{
    let pcadder: u32 = wrap_add_exec(pc, 4);
    let jumped = idex_opcode == OP_JAL || idex_opcode == OP_JALR || (idex_opcode == OP_BRANCH
        && branch_taken);
    let index: usize = (pc / 4) as usize;
    IFLogic {
        pcmux_out: if jumped {
            alu_output
        } else {
            pcadder
        },
        instruction_out: if index >= instr_mem.len() {
            0
        } else {
            instr_mem[index]
        },
        pcadder_out: pcadder,
        jumped,
    }
}

} // verus!
