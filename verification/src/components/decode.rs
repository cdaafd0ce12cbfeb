//! Decode stage: the IF/ID latch, instruction-field extraction, the
//! immediate decoder, and the register-file read with its narrow
//! MEM/WB bypass.

use crate::isa::{
    decode_immediate, format_of, funct3_of, funct7_of, get_instruction_type, imm_for,
    is_supported_opcode, lemma_instr_fields, opcode_of, r1_of, r2_of, rd_field_of, InstrT,
    SimError,
};
use vstd::prelude::*;

verus! {

/// The IF/ID latch: what fetch hands to decode, held for one cycle.
#[derive(Clone, Copy, Default)]
pub struct IFIDLatch {
    pub base_pc: u32,
    pub added_pc: u32,
    pub instruction: u32,
    /// Stall, bubble, or neither; carried for display, never decided
    /// by the core.
    pub id_stall: u8,
}

impl IFIDLatch {
    /// Clears the latch to the values of a pipeline bubble.
    pub fn bubble(&mut self)
        ensures
            *final(self) == (IFIDLatch { base_pc: 0, added_pc: 0, instruction: 0, ..*old(self) }),
    {
        self.base_pc = 0;
        self.added_pc = 0;
        self.instruction = 0;
    }
}

/// The derived values of the decode stage.
#[derive(Clone, Copy, Default)]
pub struct IDLogic {
    pub decode_r1: u8,
    pub decode_r2: u8,
    pub decode_opcode: u8,
    pub decode_rd: u8,
    pub decode_funct3: u8,
    pub decode_funct7: u8,
    pub regmem_r1: u32,
    pub regmem_r2: u32,
    pub immediates: u32,
}

/// The destination-register index decode reports: the rd field, forced
/// to 0 for the S- and B-type formats, which have no destination, and
/// for opcode 0, which is a no-op and must never retire a write.
pub open spec fn decode_rd_of(instr: u32) -> u8 {
    let fmt = format_of(opcode_of(instr));
    if opcode_of(instr) == 0 || fmt == Some(InstrT::Stype) || fmt == Some(InstrT::Btype) {
        0u8
    } else {
        rd_field_of(instr)
    }
}

/// The immediate decode reports: format-specific, 0 for the no-op
/// opcode 0.
pub open spec fn decode_imm_of(instr: u32) -> u32 {
    if opcode_of(instr) == 0 {
        0u32
    } else {
        imm_for(format_of(opcode_of(instr))->Some_0, instr)
    }
}

/// The whole decode stage as a function of the IF/ID latch, the
/// register file, and the MEM/WB write in flight. An instruction whose
/// opcode is neither 0 nor one of the eleven recognized ones is an
/// `UnsupportedOpcode` fault.
///
/// The register read carries one documented special case: a source
/// index — r1 and r2 each considered on its own — that equals the
/// nonzero destination index currently latched in MEM/WB reads the
/// value about to be written back instead of the stale register-file
/// entry. This covers the one-cycle gap that the execute-stage
/// forwarding network cannot reach. Index 0 is the hard-wired zero
/// constant and is never bypassed.
pub open spec fn id_logic_of(
    ifid: IFIDLatch,
    memwb_rd: u8,
    wb_data: u32,
    reg_mem: Seq<u32>,
) -> Result<IDLogic, SimError>
    recommends
        reg_mem.len() == 32,
{
    let instr = ifid.instruction;
    let opcode = opcode_of(instr);
    if opcode != 0 && format_of(opcode) is None {
        Err(SimError::UnsupportedOpcode)
    } else {
        let r1 = r1_of(instr);
        let r2 = r2_of(instr);
        let raw1 = reg_mem[r1 as int];
        let raw2 = reg_mem[r2 as int];
        let bypass1 = r1 != 0 && r1 == memwb_rd;
        let bypass2 = r2 != 0 && r2 == memwb_rd;
        Ok(
            IDLogic {
                decode_r1: r1,
                decode_r2: r2,
                decode_opcode: opcode,
                decode_rd: decode_rd_of(instr),
                decode_funct3: funct3_of(instr),
                decode_funct7: funct7_of(instr),
                regmem_r1: if bypass1 {
                    wb_data
                } else {
                    raw1
                },
                regmem_r2: if bypass2 {
                    wb_data
                } else {
                    raw2
                },
                immediates: decode_imm_of(instr),
            },
        )
    }
}

/// Recomputes the decode stage; see `id_logic_of`.
pub fn compute_decode(ifid: &IFIDLatch, memwb_rd: u8, wb_data: u32, reg_mem: &Vec<u32>) -> (r:
    Result<IDLogic, SimError>)
    requires
        reg_mem@.len() == 32,
    ensures
        r == id_logic_of(*ifid, memwb_rd, wb_data, reg_mem@),
{
    let instr = ifid.instruction;
    proof {
        lemma_instr_fields(instr);
    }
    let opcode: u8 = (instr & 0x7F) as u8;
    if opcode != 0 && !is_supported_opcode(opcode) {
        return Err(SimError::UnsupportedOpcode);
    }
    let r1: u8 = ((instr >> 15) & 0x1F) as u8;
    let r2: u8 = ((instr >> 20) & 0x1F) as u8;
    let rd_field: u8 = ((instr >> 7) & 0x1F) as u8;
    let (rd, imm): (u8, u32) = if opcode == 0 {
        (0, 0)
    } else {
        let fmt = get_instruction_type(opcode);
        let rd: u8 = if fmt == InstrT::Stype || fmt == InstrT::Btype {
            0
        } else {
            rd_field
        };
        (rd, decode_immediate(fmt, instr))
    };
    let raw1: u32 = reg_mem[r1 as usize];
    let raw2: u32 = reg_mem[r2 as usize];
    let bypass1 = r1 != 0 && r1 == memwb_rd;
    let bypass2 = r2 != 0 && r2 == memwb_rd;
    Ok(
        IDLogic {
            decode_r1: r1,
            decode_r2: r2,
            decode_opcode: opcode,
            decode_rd: rd,
            decode_funct3: ((instr >> 12) & 0x7) as u8,
            decode_funct7: ((instr >> 25) & 0x7F) as u8,
            regmem_r1: if bypass1 {
                wb_data
            } else {
                raw1
            },
            regmem_r2: if bypass2 {
                wb_data
            } else {
                raw2
            },
            immediates: imm,
        },
    )
}

} // verus!
