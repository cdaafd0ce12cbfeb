//! Execute stage: the ID/EX latch, the two forwarding multiplexers,
//! the operand multiplexers, the branch comparator, and the ALU.

use crate::components::memory::EXMEMLatch;
use crate::isa::{
    alu_compute, alu_result, branch_compare, branch_taken_for, format_of, InstrT, SimError,
    OP_AUIPC, OP_BRANCH, OP_FENCE, OP_IMM, OP_JAL, OP_JALR, OP_LOAD, OP_LUI, OP_REG, OP_STORE,
    OP_SYSTEM,
};
use vstd::prelude::*;

verus! {

/// The ID/EX latch: what decode hands to execute, held for one cycle.
#[derive(Clone, Copy, Default)]
pub struct IDEXLatch {
    pub base_pc: u32,
    pub added_pc: u32,
    pub r1_data: u32,
    pub r2_data: u32,
    pub immediates: u32,
    pub rd_index: u8,
    pub opcode: u8,
    pub funct3: u8,
    pub funct7: u8,
    pub r2_index: u8,
    pub r1_index: u8,
    pub instruction: u32,
    /// Stall or bubble; carried for display, never decided by the core.
    pub ex_stall: u8,
}

impl IDEXLatch {
    /// Clears the latch to the values of a pipeline bubble. The funct7
    /// field rides through unchanged; a bubble's opcode of 0 makes it
    /// irrelevant.
    pub fn bubble(&mut self)
        ensures
            *final(self) == (IDEXLatch {
                base_pc: 0,
                added_pc: 0,
                r1_data: 0,
                r2_data: 0,
                immediates: 0,
                rd_index: 0,
                opcode: 0,
                funct3: 0,
                r1_index: 0,
                r2_index: 0,
                instruction: 0,
                ..*old(self)
            }),
    {
        self.base_pc = 0;
        self.added_pc = 0;
        self.r1_data = 0;
        self.r2_data = 0;
        self.immediates = 0;
        self.rd_index = 0;
        self.opcode = 0;
        self.funct3 = 0;
        self.r1_index = 0;
        self.r2_index = 0;
        self.instruction = 0;
    }
}

/// The derived values of the execute stage.
#[derive(Clone, Copy, Default)]
pub struct EXLogic {
    pub formux_r1: u32,
    pub formux_r2: u32,
    pub op1: u32,
    pub op2: u32,
    pub alu_output: u32,
    pub branch_taken: bool,
    /// How the r1 operand was resolved: 0 no forwarding, 1 EX-EX,
    /// 2 MEM-EX.
    pub r1_forwarded: u8,
    /// How the r2 operand was resolved, with the same encoding.
    pub r2_forwarded: u8,
    pub pc_used: bool,
    pub imm_used: bool,
}

/// Whether an instruction with this opcode reads a first source
/// register: every format but U- and J-type does.
pub open spec fn has_r1(opcode: u8) -> bool {
    !(format_of(opcode) == Some(InstrT::Utype) || format_of(opcode) == Some(InstrT::Jtype))
}

/// Whether an instruction with this opcode reads a second source
/// register: every format but U-, J- and I-type does.
pub open spec fn has_r2(opcode: u8) -> bool {
    !(format_of(opcode) == Some(InstrT::Utype) || format_of(opcode) == Some(InstrT::Jtype)
        || format_of(opcode) == Some(InstrT::Itype))
}

/// Whether operand 1 is the instruction's own address rather than r1:
/// so for the U-, J- and B-type formats.
pub open spec fn uses_pc(opcode: u8) -> bool {
    format_of(opcode) == Some(InstrT::Utype) || format_of(opcode) == Some(InstrT::Jtype)
        || format_of(opcode) == Some(InstrT::Btype)
}

/// Whether operand 2 is the decoded immediate rather than r2: so for
/// every format but R-type.
pub open spec fn uses_imm(opcode: u8) -> bool {
    format_of(opcode) != Some(InstrT::Rtype)
}

/// The forwarding decision for one source register, as selector and
/// value. Priority: index 0 is the hard-wired zero constant and is
/// never forwarded; a format without the operand never forwards; the
/// EX/MEM destination wins over the MEM/WB one (most recent producer
/// first); otherwise the latched value rides through.
pub open spec fn forward_one(
    index: u8,
    present: bool,
    latched: u32,
    exmem_rd: u8,
    exmem_alu: u32,
    memwb_rd: u8,
    wb_data: u32,
) -> (u8, u32) {
    if index == 0 || !present {
        (0u8, latched)
    } else if index == exmem_rd {
        (1u8, exmem_alu)
    } else if index == memwb_rd {
        (2u8, wb_data)
    } else {
        (0u8, latched)
    }
}

/// The whole execute stage as a function of the ID/EX latch, the
/// EX/MEM latch, and the MEM/WB write in flight. The branch comparator
/// reads the unforwarded latch values. The fault, if any, is the
/// ALU's.
pub open spec fn ex_logic_of(
    idex: IDEXLatch,
    exmem: EXMEMLatch,
    memwb_rd: u8,
    wb_data: u32,
) -> Result<EXLogic, SimError> {
    let fw1 = forward_one(
        idex.r1_index,
        has_r1(idex.opcode),
        idex.r1_data,
        exmem.rd_index,
        exmem.alu_output,
        memwb_rd,
        wb_data,
    );
    let fw2 = forward_one(
        idex.r2_index,
        has_r2(idex.opcode),
        idex.r2_data,
        exmem.rd_index,
        exmem.alu_output,
        memwb_rd,
        wb_data,
    );
    let op1 = if uses_pc(idex.opcode) {
        idex.base_pc
    } else {
        fw1.1
    };
    let op2 = if uses_imm(idex.opcode) {
        idex.immediates
    } else {
        fw2.1
    };
    let taken = idex.opcode == OP_BRANCH && branch_taken_for(idex.funct3, idex.r1_data, idex.r2_data);
    match alu_result(idex.opcode, idex.funct3, idex.funct7, op1, op2) {
        Ok(alu) => Ok(
            EXLogic {
                formux_r1: fw1.1,
                formux_r2: fw2.1,
                op1,
                op2,
                alu_output: alu,
                branch_taken: taken,
                r1_forwarded: fw1.0,
                r2_forwarded: fw2.0,
                pc_used: uses_pc(idex.opcode),
                imm_used: uses_imm(idex.opcode),
            },
        ),
        Err(e) => Err(e),
    }
}

/// Whether operand 1 is the instruction's own address; see `uses_pc`.
pub fn uses_pc_exec(opcode: u8) -> (b: bool)
    ensures
        b == uses_pc(opcode),
{
    opcode == OP_LUI || opcode == OP_AUIPC || opcode == OP_JAL || opcode == OP_BRANCH
}

/// Whether the opcode's format reads a first source register; see
/// `has_r1`.
pub fn has_r1_exec(opcode: u8) -> (b: bool)
    ensures
        b == has_r1(opcode),
{
    !(opcode == OP_LUI || opcode == OP_AUIPC || opcode == OP_JAL)
}

/// Whether the opcode's format reads a second source register; see
/// `has_r2`.
pub fn has_r2_exec(opcode: u8) -> (b: bool)
    ensures
        b == has_r2(opcode),
{
    !(opcode == OP_LUI || opcode == OP_AUIPC || opcode == OP_JAL || opcode == OP_JALR || opcode
        == OP_LOAD || opcode == OP_IMM || opcode == OP_FENCE || opcode == OP_SYSTEM)
}

/// Recomputes the execute stage; see `ex_logic_of`.
pub fn compute_execute(idex: &IDEXLatch, exmem: &EXMEMLatch, memwb_rd: u8, wb_data: u32) -> (r:
    Result<EXLogic, SimError>)
    ensures
        r == ex_logic_of(*idex, *exmem, memwb_rd, wb_data),
{
    let (r1_sel, formux_r1): (u8, u32) = if idex.r1_index == 0 || !has_r1_exec(idex.opcode) {
        (0, idex.r1_data)
    } else if idex.r1_index == exmem.rd_index {
        (1, exmem.alu_output)
    } else if idex.r1_index == memwb_rd {
        (2, wb_data)
    } else {
        (0, idex.r1_data)
    };
    let (r2_sel, formux_r2): (u8, u32) = if idex.r2_index == 0 || !has_r2_exec(idex.opcode) {
        (0, idex.r2_data)
    } else if idex.r2_index == exmem.rd_index {
        (1, exmem.alu_output)
    } else if idex.r2_index == memwb_rd {
        (2, wb_data)
    } else {
        (0, idex.r2_data)
    };
    let pc_used = uses_pc_exec(idex.opcode);
    let op1: u32 = if pc_used {
        idex.base_pc
    } else {
        formux_r1
    };
    let imm_used = idex.opcode != OP_REG;
    let op2: u32 = if imm_used {
        idex.immediates
    } else {
        formux_r2
    };
    let taken = idex.opcode == OP_BRANCH && branch_compare(idex.funct3, idex.r1_data, idex.r2_data);
    match alu_compute(idex.opcode, idex.funct3, idex.funct7, op1, op2) {
        Ok(alu) => Ok(
            EXLogic {
                formux_r1,
                formux_r2,
                op1,
                op2,
                alu_output: alu,
                branch_taken: taken,
                r1_forwarded: r1_sel,
                r2_forwarded: r2_sel,
                pc_used,
                imm_used,
            },
        ),
        Err(e) => Err(e),
    }
}

} // verus!
