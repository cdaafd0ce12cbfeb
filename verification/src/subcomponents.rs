//! The datapath modelled element by element: each program-counter,
//! decode, multiplexer, ALU and latch component is a struct of its
//! own, holding its input and output ports as fields and references
//! to the neighbours it reads. A component first copies its inputs
//! from its neighbours' output ports (`grab_input`), then computes
//! its outputs (`decide`, `compute`, `open_latch`, ...); the `_chk`
//! flag beside each output port says whether the port has been driven
//! this cycle, and a component only reads ports whose flag is set.
//!
//! The semantics of every computing element is stated against the
//! same specification functions as the pipeline core in
//! [`crate::components`].

use crate::isa::{
    alu_compute, alu_result, branch_compare, branch_taken_for, format_of, funct3_of, funct7_of,
    get_instruction_type, imm_for, opcode_of, r1_of, r2_of, rd_field_of, wrap_add, wrap_add_exec,
    InstrT, OP_BRANCH, OP_JAL, OP_JALR, OP_LOAD, OP_STORE,
};
use crate::components::{uses_imm, uses_pc, wb_value, MEMWBLatch as CoreMEMWBLatch};
use vstd::prelude::*;

verus! {

/// The next-PC multiplexer's ports: sequential count in, jump target
/// in, chosen count out.
pub struct PCMux<'a> {
    pub added_pc_in: u32,
    pub result_in: u32,
    pub count_out: u32,
    pub count_out_chk: bool,
    pub pc_adder_ptr: Option<&'a PCAdder<'a>>,
    pub alu_ptr: Option<&'a ALUnit<'a>>,
}

/// The program counter: stores the address of the instruction being
/// fetched.
pub struct ProgramCounter<'a> {
    pub count_in: u32,
    pub count_out: u32,
    pub count_out_chk: bool,
    pub pc_mux_ptr: Option<&'a PCMux<'a>>,
}

impl ProgramCounter<'_> {
    /// Copies the chosen next count from the PC multiplexer, which
    /// must have driven its output.
    pub fn grab_input(&mut self)
        requires
            old(self).pc_mux_ptr is Some,
            old(self).pc_mux_ptr->Some_0.count_out_chk,
        ensures
            *final(self) == (ProgramCounter {
                count_in: old(self).pc_mux_ptr->Some_0.count_out,
                ..*old(self)
            }),
    {
        self.count_in = self.pc_mux_ptr.unwrap().count_out;
    }

    /// Latches the grabbed count and drives the output.
    pub fn update_count(&mut self)
        ensures
            *final(self) == (ProgramCounter {
                count_out: old(self).count_in,
                count_out_chk: true,
                ..*old(self)
            }),
    {
        self.count_out = self.count_in;
        self.count_out_chk = true;
    }
}

/// The adder that advances the program count to the next sequential
/// instruction slot.
pub struct PCAdder<'a> {
    pub count_in: u32,
    pub count_out: u32,
    pub count_out_chk: bool,
    pub pc_ptr: Option<&'a ProgramCounter<'a>>,
}

impl PCAdder<'_> {
    /// Copies the current count from the program counter, which must
    /// have driven its output.
    pub fn grab_input(&mut self)
        requires
            old(self).pc_ptr is Some,
            old(self).pc_ptr->Some_0.count_out_chk,
        ensures
            *final(self) == (PCAdder {
                count_in: old(self).pc_ptr->Some_0.count_out,
                ..*old(self)
            }),
    {
        self.count_in = self.pc_ptr.unwrap().count_out;
    }

    /// Adds 4 to the count, so it points to the next instruction.
    pub fn add_count(&mut self)
        ensures
            *final(self) == (PCAdder {
                count_out: wrap_add(old(self).count_in, 4),
                count_out_chk: true,
                ..*old(self)
            }),
    {
        self.count_out = wrap_add_exec(self.count_in, 4);
        self.count_out_chk = true;
    }
}

/// The instruction memory: the program image, one 32-bit word per
/// instruction slot, word-addressed.
pub struct InstrMem<'a> {
    pub ins_addr_in: u32,
    pub ins_array: Vec<u32>,
    pub instruction_out: u32,
    pub instruction_out_chk: bool,
    pub pc_ptr: Option<&'a ProgramCounter<'a>>,
}

impl InstrMem<'_> {
    /// Copies the fetch address from the program counter, which must
    /// have driven its output.
    pub fn grab_input(&mut self)
        requires
            old(self).pc_ptr is Some,
            old(self).pc_ptr->Some_0.count_out_chk,
        ensures
            *final(self) == (InstrMem {
                ins_addr_in: old(self).pc_ptr->Some_0.count_out,
                ..*old(self)
            }),
    {
        self.ins_addr_in = self.pc_ptr.unwrap().count_out;
    }

    /// Fetches the instruction word the address refers to: address 0
    /// holds slot 0, address 4 slot 1, and so on. The address must
    /// lie within the program image.
    pub fn fetch_instruction(&mut self)
        requires
            old(self).ins_addr_in / 4 < old(self).ins_array@.len(),
        ensures
            *final(self) == (InstrMem {
                instruction_out: old(self).ins_array@[old(self).ins_addr_in as int / 4],
                instruction_out_chk: true,
                ..*old(self)
            }),
    {
        let index: usize = (self.ins_addr_in / 4) as usize;
        self.instruction_out = self.ins_array[index];
        self.instruction_out_chk = true;
    }
}

/// The IF/ID latch: holds the fetch stage's outputs for one cycle.
pub struct IFIDLatch<'a> {
    pub base_pc_in: u32,
    pub base_pc_out: u32,
    pub base_pc_out_chk: bool,
    pub added_pc_in: u32,
    pub added_pc_out: u32,
    pub added_pc_out_chk: bool,
    pub instruction_in: u32,
    pub instruction_out: u32,
    pub instruction_out_chk: bool,
    pub pc_ptr: Option<&'a ProgramCounter<'a>>,
    pub pc_adder_ptr: Option<&'a PCAdder<'a>>,
    pub instr_mem_ptr: Option<&'a InstrMem<'a>>,
}

impl IFIDLatch<'_> {
    /// Copies the base count, added count and fetched instruction from
    /// the fetch-stage components, which must all have driven their
    /// outputs.
    pub fn grab_input(&mut self)
        requires
            old(self).pc_ptr is Some,
            old(self).pc_ptr->Some_0.count_out_chk,
            old(self).pc_adder_ptr is Some,
            old(self).pc_adder_ptr->Some_0.count_out_chk,
            old(self).instr_mem_ptr is Some,
            old(self).instr_mem_ptr->Some_0.instruction_out_chk,
        ensures
            *final(self) == (IFIDLatch {
                base_pc_in: old(self).pc_ptr->Some_0.count_out,
                added_pc_in: old(self).pc_adder_ptr->Some_0.count_out,
                instruction_in: old(self).instr_mem_ptr->Some_0.instruction_out,
                ..*old(self)
            }),
    {
        self.base_pc_in = self.pc_ptr.unwrap().count_out;
        self.added_pc_in = self.pc_adder_ptr.unwrap().count_out;
        self.instruction_in = self.instr_mem_ptr.unwrap().instruction_out;
    }

    /// Opens the latch: the grabbed inputs pass through to the outputs.
    pub fn open_latch(&mut self)
        ensures
            *final(self) == (IFIDLatch {
                base_pc_out: old(self).base_pc_in,
                added_pc_out: old(self).added_pc_in,
                instruction_out: old(self).instruction_in,
                base_pc_out_chk: true,
                added_pc_out_chk: true,
                instruction_out_chk: true,
                ..*old(self)
            }),
    {
        self.base_pc_out = self.base_pc_in;
        self.added_pc_out = self.added_pc_in;
        self.instruction_out = self.instruction_in;
        self.base_pc_out_chk = true;
        self.added_pc_out_chk = true;
        self.instruction_out_chk = true;
    }
}

/// The instruction decoder: slices the raw instruction word into its
/// fixed bit fields.
pub struct InstrDecoder<'a> {
    pub instruction_in: u32,
    pub ifid_latch_ptr: Option<&'a IFIDLatch<'a>>,
    pub opcode_out: u8,
    pub opcode_out_chk: bool,
    pub r1_index_out: u8,
    pub r1_index_out_chk: bool,
    pub r2_index_out: u8,
    pub r2_index_out_chk: bool,
    pub rd_index_out: u8,
    pub rd_index_out_chk: bool,
    pub funct3_out: u8,
    pub funct3_out_chk: bool,
    pub funct7_out: u8,
    pub funct7_out_chk: bool,
}

impl InstrDecoder<'_> {
    /// Copies the instruction word from the IF/ID latch, which must
    /// have driven it.
    pub fn grab_input(&mut self)
        requires
            old(self).ifid_latch_ptr is Some,
            old(self).ifid_latch_ptr->Some_0.instruction_out_chk,
        ensures
            *final(self) == (InstrDecoder {
                instruction_in: old(self).ifid_latch_ptr->Some_0.instruction_out,
                ..*old(self)
            }),
    {
        self.instruction_in = self.ifid_latch_ptr.unwrap().instruction_out;
    }

    /// Extracts opcode, register indices and funct codes from the
    /// instruction word, whether or not the format uses them.
    pub fn decode(&mut self)
        ensures
            *final(self) == (InstrDecoder {
                opcode_out: opcode_of(old(self).instruction_in),
                r1_index_out: r1_of(old(self).instruction_in),
                r2_index_out: r2_of(old(self).instruction_in),
                rd_index_out: rd_field_of(old(self).instruction_in),
                funct3_out: funct3_of(old(self).instruction_in),
                funct7_out: funct7_of(old(self).instruction_in),
                opcode_out_chk: true,
                r1_index_out_chk: true,
                r2_index_out_chk: true,
                rd_index_out_chk: true,
                funct3_out_chk: true,
                funct7_out_chk: true,
                ..*old(self)
            }),
    {
        let instr = self.instruction_in;
        proof {
            crate::isa::lemma_instr_fields(instr);
        }
        self.opcode_out = (instr & 0x7F) as u8;
        self.opcode_out_chk = true;
        self.r1_index_out = ((instr >> 15) & 0x1F) as u8;
        self.r1_index_out_chk = true;
        self.r2_index_out = ((instr >> 20) & 0x1F) as u8;
        self.r2_index_out_chk = true;
        self.rd_index_out = ((instr >> 7) & 0x1F) as u8;
        self.rd_index_out_chk = true;
        self.funct3_out = ((instr >> 12) & 0x7) as u8;
        self.funct3_out_chk = true;
        self.funct7_out = ((instr >> 25) & 0x7F) as u8;
        self.funct7_out_chk = true;
    }
}

/// The register file: 32 registers, each holding a 32-bit value.
/// Register 0 is the hard-wired zero constant.
pub struct RegMem<'a> {
    pub r1_index_in: u8,
    pub r2_index_in: u8,
    pub rd_index_in: u8,
    pub wb_data_in: u32,
    pub registers: Vec<u32>,
    pub r1_data_out: u32,
    pub r1_data_out_chk: bool,
    pub r2_data_out: u32,
    pub r2_data_out_chk: bool,
    pub instr_dec_ptr: Option<&'a InstrDecoder<'a>>,
    pub memwb_latch_ptr: Option<&'a MEMWBLatch<'a>>,
    pub wb_mux_ptr: Option<&'a WBMux<'a>>,
}

impl RegMem<'_> {
    /// Copies the two source indices from the decoder, the retiring
    /// destination index from the MEM/WB latch, and the writeback data
    /// from the WB multiplexer; all must have driven their outputs.
    pub fn grab_input(&mut self)
        requires
            old(self).instr_dec_ptr is Some,
            old(self).instr_dec_ptr->Some_0.r1_index_out_chk,
            old(self).instr_dec_ptr->Some_0.r2_index_out_chk,
            old(self).memwb_latch_ptr is Some,
            old(self).memwb_latch_ptr->Some_0.rd_index_out_chk,
            old(self).wb_mux_ptr is Some,
            old(self).wb_mux_ptr->Some_0.wb_data_out_chk,
        ensures
            *final(self) == (RegMem {
                r1_index_in: old(self).instr_dec_ptr->Some_0.r1_index_out,
                r2_index_in: old(self).instr_dec_ptr->Some_0.r2_index_out,
                rd_index_in: old(self).memwb_latch_ptr->Some_0.rd_index_out,
                wb_data_in: old(self).wb_mux_ptr->Some_0.wb_data_out,
                ..*old(self)
            }),
    {
        self.r1_index_in = self.instr_dec_ptr.unwrap().r1_index_out;
        self.r2_index_in = self.instr_dec_ptr.unwrap().r2_index_out;
        self.rd_index_in = self.memwb_latch_ptr.unwrap().rd_index_out;
        self.wb_data_in = self.wb_mux_ptr.unwrap().wb_data_out;
    }

    /// Commits the writeback data to the destination register. A write
    /// to register 0 is silently discarded, never applied and never an
    /// error; only an index of 32 or more is out of range.
    pub fn write_data(&mut self)
        requires
            old(self).registers@.len() == 32,
            old(self).rd_index_in < 32,
        ensures
            final(self).registers@ == if old(self).rd_index_in != 0 {
                old(self).registers@.update(old(self).rd_index_in as int, old(self).wb_data_in)
            } else {
                old(self).registers@
            },
            final(self).r1_index_in == old(self).r1_index_in,
            final(self).r2_index_in == old(self).r2_index_in,
            final(self).rd_index_in == old(self).rd_index_in,
            final(self).wb_data_in == old(self).wb_data_in,
            final(self).r1_data_out == old(self).r1_data_out,
            final(self).r1_data_out_chk == old(self).r1_data_out_chk,
            final(self).r2_data_out == old(self).r2_data_out,
            final(self).r2_data_out_chk == old(self).r2_data_out_chk,
            final(self).instr_dec_ptr == old(self).instr_dec_ptr,
            final(self).memwb_latch_ptr == old(self).memwb_latch_ptr,
            final(self).wb_mux_ptr == old(self).wb_mux_ptr,
    {
        if self.rd_index_in != 0 {
            let index: usize = self.rd_index_in as usize;
            self.registers.set(index, self.wb_data_in);
        }
    }

    /// Reads the two source registers and drives the data outputs.
    pub fn fetch_registers(&mut self)
        requires
            old(self).registers@.len() == 32,
            old(self).r1_index_in < 32,
            old(self).r2_index_in < 32,
        ensures
            *final(self) == (RegMem {
                r1_data_out: old(self).registers@[old(self).r1_index_in as int],
                r2_data_out: old(self).registers@[old(self).r2_index_in as int],
                r1_data_out_chk: true,
                r2_data_out_chk: true,
                ..*old(self)
            }),
    {
        self.r1_data_out = self.registers[self.r1_index_in as usize];
        self.r1_data_out_chk = true;
        self.r2_data_out = self.registers[self.r2_index_in as usize];
        self.r2_data_out_chk = true;
    }
}

/// The immediate decoder: reassembles the format-specific immediate
/// so the ALU finds it where it expects it.
pub struct ImmDecoder<'a> {
    pub opcode_in: u8,
    pub instr_dec_ptr: Option<&'a InstrDecoder<'a>>,
    pub instruction_in: u32,
    pub ifid_latch_ptr: Option<&'a IFIDLatch<'a>>,
    pub immediates_out: u32,
    pub immediates_out_chk: bool,
}

impl ImmDecoder<'_> {
    /// Copies the opcode from the decoder and the raw word from the
    /// IF/ID latch; both must have driven their outputs.
    pub fn grab_input(&mut self)
        requires
            old(self).instr_dec_ptr is Some,
            old(self).instr_dec_ptr->Some_0.opcode_out_chk,
            old(self).ifid_latch_ptr is Some,
            old(self).ifid_latch_ptr->Some_0.instruction_out_chk,
        ensures
            *final(self) == (ImmDecoder {
                opcode_in: old(self).instr_dec_ptr->Some_0.opcode_out,
                instruction_in: old(self).ifid_latch_ptr->Some_0.instruction_out,
                ..*old(self)
            }),
    {
        self.opcode_in = self.instr_dec_ptr.unwrap().opcode_out;
        self.instruction_in = self.ifid_latch_ptr.unwrap().instruction_out;
    }

    /// Rearranges the immediate bits by instruction format, with
    /// sign-extension where the format defines a signed immediate.
    /// An R-type instruction has no immediate; a sentinel stands in.
    /// The opcode must be a recognized one.
    pub fn decode(&mut self)
        requires
            format_of(old(self).opcode_in) is Some,
        ensures
            *final(self) == (ImmDecoder {
                immediates_out: if format_of(old(self).opcode_in) == Some(InstrT::Rtype) {
                    0xdead_beefu32
                } else {
                    imm_for(format_of(old(self).opcode_in)->Some_0, old(self).instruction_in)
                },
                immediates_out_chk: true,
                ..*old(self)
            }),
    {
        let fmt = get_instruction_type(self.opcode_in);
        self.immediates_out = if fmt == InstrT::Rtype {
            0xdead_beef
        } else {
            crate::isa::decode_immediate(fmt, self.instruction_in)
        };
        self.immediates_out_chk = true;
    }
}

/// The ID/EX latch: holds the decode stage's outputs for one cycle.
pub struct IDEXLatch<'a> {
    pub base_pc_in: u32,
    pub base_pc_out: u32,
    pub base_pc_out_chk: bool,
    pub added_pc_in: u32,
    pub added_pc_out: u32,
    pub added_pc_out_chk: bool,
    pub r1_data_in: u32,
    pub r1_data_out: u32,
    pub r1_data_out_chk: bool,
    pub r2_data_in: u32,
    pub r2_data_out: u32,
    pub r2_data_out_chk: bool,
    pub immediates_in: u32,
    pub immediates_out: u32,
    pub immediates_out_chk: bool,
    pub rd_index_in: u8,
    pub rd_index_out: u8,
    pub rd_index_out_chk: bool,
    pub ifid_latch_ptr: Option<&'a IFIDLatch<'a>>,
    pub reg_mem_ptr: Option<&'a RegMem<'a>>,
    pub imm_dec_ptr: Option<&'a ImmDecoder<'a>>,
    pub instr_dec_ptr: Option<&'a InstrDecoder<'a>>,
    pub opcode_in: u8,
    pub opcode_out: u8,
    pub opcode_out_chk: bool,
    pub funct3_in: u8,
    pub funct3_out: u8,
    pub funct3_out_chk: bool,
    pub funct7_in: u8,
    pub funct7_out: u8,
    pub funct7_out_chk: bool,
    pub r1_index_in: u8,
    pub r1_index_out: u8,
    pub r1_index_out_chk: bool,
    pub r2_index_in: u8,
    pub r2_index_out: u8,
    pub r2_index_out_chk: bool,
}

impl IDEXLatch<'_> {
    /// Copies the program counts from the IF/ID latch, the register
    /// data from the register file, the immediate from the immediate
    /// decoder, and the index and funct fields from the instruction
    /// decoder; all must have driven their outputs.
    pub fn grab_input(&mut self)
        requires
            old(self).ifid_latch_ptr is Some,
            old(self).ifid_latch_ptr->Some_0.base_pc_out_chk,
            old(self).ifid_latch_ptr->Some_0.added_pc_out_chk,
            old(self).reg_mem_ptr is Some,
            old(self).reg_mem_ptr->Some_0.r1_data_out_chk,
            old(self).reg_mem_ptr->Some_0.r2_data_out_chk,
            old(self).imm_dec_ptr is Some,
            old(self).imm_dec_ptr->Some_0.immediates_out_chk,
            old(self).instr_dec_ptr is Some,
            old(self).instr_dec_ptr->Some_0.rd_index_out_chk,
            old(self).instr_dec_ptr->Some_0.r1_index_out_chk,
            old(self).instr_dec_ptr->Some_0.r2_index_out_chk,
            old(self).instr_dec_ptr->Some_0.opcode_out_chk,
            old(self).instr_dec_ptr->Some_0.funct3_out_chk,
            old(self).instr_dec_ptr->Some_0.funct7_out_chk,
        ensures
            *final(self) == (IDEXLatch {
                base_pc_in: old(self).ifid_latch_ptr->Some_0.base_pc_out,
                added_pc_in: old(self).ifid_latch_ptr->Some_0.added_pc_out,
                r1_data_in: old(self).reg_mem_ptr->Some_0.r1_data_out,
                r2_data_in: old(self).reg_mem_ptr->Some_0.r2_data_out,
                immediates_in: old(self).imm_dec_ptr->Some_0.immediates_out,
                rd_index_in: old(self).instr_dec_ptr->Some_0.rd_index_out,
                opcode_in: old(self).instr_dec_ptr->Some_0.opcode_out,
                funct3_in: old(self).instr_dec_ptr->Some_0.funct3_out,
                funct7_in: old(self).instr_dec_ptr->Some_0.funct7_out,
                r1_index_in: old(self).instr_dec_ptr->Some_0.r1_index_out,
                r2_index_in: old(self).instr_dec_ptr->Some_0.r2_index_out,
                ..*old(self)
            }),
    {
        self.base_pc_in = self.ifid_latch_ptr.unwrap().base_pc_out;
        self.added_pc_in = self.ifid_latch_ptr.unwrap().added_pc_out;
        self.r1_data_in = self.reg_mem_ptr.unwrap().r1_data_out;
        self.r2_data_in = self.reg_mem_ptr.unwrap().r2_data_out;
        self.immediates_in = self.imm_dec_ptr.unwrap().immediates_out;
        self.rd_index_in = self.instr_dec_ptr.unwrap().rd_index_out;
        self.opcode_in = self.instr_dec_ptr.unwrap().opcode_out;
        self.funct3_in = self.instr_dec_ptr.unwrap().funct3_out;
        self.funct7_in = self.instr_dec_ptr.unwrap().funct7_out;
        self.r1_index_in = self.instr_dec_ptr.unwrap().r1_index_out;
        self.r2_index_in = self.instr_dec_ptr.unwrap().r2_index_out;
    }

    /// Opens the latch: the grabbed inputs pass through to the outputs.
    pub fn open_latch(&mut self)
        ensures
            *final(self) == (IDEXLatch {
                base_pc_out: old(self).base_pc_in,
                added_pc_out: old(self).added_pc_in,
                r1_data_out: old(self).r1_data_in,
                r2_data_out: old(self).r2_data_in,
                immediates_out: old(self).immediates_in,
                rd_index_out: old(self).rd_index_in,
                opcode_out: old(self).opcode_in,
                funct3_out: old(self).funct3_in,
                funct7_out: old(self).funct7_in,
                r1_index_out: old(self).r1_index_in,
                r2_index_out: old(self).r2_index_in,
                base_pc_out_chk: true,
                added_pc_out_chk: true,
                r1_data_out_chk: true,
                r2_data_out_chk: true,
                immediates_out_chk: true,
                rd_index_out_chk: true,
                opcode_out_chk: true,
                funct3_out_chk: true,
                funct7_out_chk: true,
                r1_index_out_chk: true,
                r2_index_out_chk: true,
                ..*old(self)
            }),
    {
        self.base_pc_out = self.base_pc_in;
        self.added_pc_out = self.added_pc_in;
        self.r1_data_out = self.r1_data_in;
        self.r2_data_out = self.r2_data_in;
        self.immediates_out = self.immediates_in;
        self.rd_index_out = self.rd_index_in;
        self.base_pc_out_chk = true;
        self.added_pc_out_chk = true;
        self.r1_data_out_chk = true;
        self.r2_data_out_chk = true;
        self.immediates_out_chk = true;
        self.rd_index_out_chk = true;
        self.opcode_out = self.opcode_in;
        self.opcode_out_chk = true;
        self.funct3_out = self.funct3_in;
        self.funct3_out_chk = true;
        self.funct7_out = self.funct7_in;
        self.funct7_out_chk = true;
        self.r1_index_out = self.r1_index_in;
        self.r1_index_out_chk = true;
        self.r2_index_out = self.r2_index_in;
        self.r2_index_out_chk = true;
    }
}

/// The forwarding multiplexer for the first source operand: chooses
/// among the latched register value, the EX/MEM result one
/// instruction ahead, and the MEM/WB writeback value two ahead.
pub struct R1ForMux<'a> {
    pub normal_r1_in: u32,
    pub exex_r1_in: u32,
    pub memex_r1_in: u32,
    pub r1_out: u32,
    pub r1_out_chk: bool,
    pub idex_latch_ptr: Option<&'a IDEXLatch<'a>>,
    pub exmem_latch_ptr: Option<&'a EXMEMLatch<'a>>,
    pub memwb_latch_ptr: Option<&'a MEMWBLatch<'a>>,
    pub wb_mux_ptr: Option<&'a WBMux<'a>>,
    pub exex_rd_in: u8,
    pub memex_rd_in: u8,
    pub r1_index_in: u8,
}

impl R1ForMux<'_> {
    /// Copies the latched value and index from the ID/EX latch, the
    /// ALU result and destination from the EX/MEM latch, the
    /// destination from the MEM/WB latch, and the writeback value from
    /// the WB multiplexer; all must have driven their outputs.
    pub fn grab_input(&mut self)
        requires
            old(self).idex_latch_ptr is Some,
            old(self).idex_latch_ptr->Some_0.r1_data_out_chk,
            old(self).idex_latch_ptr->Some_0.r1_index_out_chk,
            old(self).exmem_latch_ptr is Some,
            old(self).exmem_latch_ptr->Some_0.rd_index_out_chk,
            old(self).exmem_latch_ptr->Some_0.result_out_chk,
            old(self).memwb_latch_ptr is Some,
            old(self).memwb_latch_ptr->Some_0.rd_index_out_chk,
            old(self).wb_mux_ptr is Some,
            old(self).wb_mux_ptr->Some_0.wb_data_out_chk,
        ensures
            *final(self) == (R1ForMux {
                normal_r1_in: old(self).idex_latch_ptr->Some_0.r1_data_out,
                exex_r1_in: old(self).exmem_latch_ptr->Some_0.result_out,
                memex_r1_in: old(self).wb_mux_ptr->Some_0.wb_data_out,
                exex_rd_in: old(self).exmem_latch_ptr->Some_0.rd_index_out,
                memex_rd_in: old(self).memwb_latch_ptr->Some_0.rd_index_out,
                r1_index_in: old(self).idex_latch_ptr->Some_0.r1_index_out,
                ..*old(self)
            }),
    {
        self.normal_r1_in = self.idex_latch_ptr.unwrap().r1_data_out;
        self.exex_r1_in = self.exmem_latch_ptr.unwrap().result_out;
        self.memex_r1_in = self.wb_mux_ptr.unwrap().wb_data_out;
        self.exex_rd_in = self.exmem_latch_ptr.unwrap().rd_index_out;
        self.memex_rd_in = self.memwb_latch_ptr.unwrap().rd_index_out;
        self.r1_index_in = self.idex_latch_ptr.unwrap().r1_index_out;
    }

    /// Resolves the hazard: index 0, the hard-wired zero constant, is
    /// never forwarded; otherwise the EX/MEM destination wins over the
    /// MEM/WB one (most recent producer first); with no match the
    /// latched value rides through.
    pub fn decide(&mut self)
        ensures
            *final(self) == (R1ForMux {
                r1_out: if old(self).r1_index_in != 0 && old(self).r1_index_in
                    == old(self).exex_rd_in {
                    old(self).exex_r1_in
                } else if old(self).r1_index_in != 0 && old(self).r1_index_in
                    == old(self).memex_rd_in {
                    old(self).memex_r1_in
                } else {
                    old(self).normal_r1_in
                },
                r1_out_chk: true,
                ..*old(self)
            }),
    {
        if self.r1_index_in == 0 {
            self.r1_out = self.normal_r1_in;
        } else if self.r1_index_in == self.exex_rd_in {
            self.r1_out = self.exex_r1_in;
        } else if self.r1_index_in == self.memex_rd_in {
            self.r1_out = self.memex_r1_in;
        } else {
            self.r1_out = self.normal_r1_in;
        }
        self.r1_out_chk = true;
    }
}

/// The forwarding multiplexer for the second source operand; the
/// mirror image of `R1ForMux`.
pub struct R2ForMux<'a> {
    pub normal_r2_in: u32,
    pub exex_r2_in: u32,
    pub memex_r2_in: u32,
    pub r2_out: u32,
    pub r2_out_chk: bool,
    pub idex_latch_ptr: Option<&'a IDEXLatch<'a>>,
    pub exmem_latch_ptr: Option<&'a EXMEMLatch<'a>>,
    pub memwb_latch_ptr: Option<&'a MEMWBLatch<'a>>,
    pub wb_mux_ptr: Option<&'a WBMux<'a>>,
    pub exex_rd_in: u8,
    pub memex_rd_in: u8,
    pub r2_index_in: u8,
}

impl R2ForMux<'_> {
    /// Copies its inputs from its neighbours; see `R1ForMux::grab_input`.
    pub fn grab_input(&mut self)
        requires
            old(self).idex_latch_ptr is Some,
            old(self).idex_latch_ptr->Some_0.r2_data_out_chk,
            old(self).idex_latch_ptr->Some_0.r2_index_out_chk,
            old(self).exmem_latch_ptr is Some,
            old(self).exmem_latch_ptr->Some_0.rd_index_out_chk,
            old(self).exmem_latch_ptr->Some_0.result_out_chk,
            old(self).memwb_latch_ptr is Some,
            old(self).memwb_latch_ptr->Some_0.rd_index_out_chk,
            old(self).wb_mux_ptr is Some,
            old(self).wb_mux_ptr->Some_0.wb_data_out_chk,
        ensures
            *final(self) == (R2ForMux {
                normal_r2_in: old(self).idex_latch_ptr->Some_0.r2_data_out,
                exex_r2_in: old(self).exmem_latch_ptr->Some_0.result_out,
                memex_r2_in: old(self).wb_mux_ptr->Some_0.wb_data_out,
                exex_rd_in: old(self).exmem_latch_ptr->Some_0.rd_index_out,
                memex_rd_in: old(self).memwb_latch_ptr->Some_0.rd_index_out,
                r2_index_in: old(self).idex_latch_ptr->Some_0.r2_index_out,
                ..*old(self)
            }),
    {
        self.normal_r2_in = self.idex_latch_ptr.unwrap().r2_data_out;
        self.exex_r2_in = self.exmem_latch_ptr.unwrap().result_out;
        self.memex_r2_in = self.wb_mux_ptr.unwrap().wb_data_out;
        self.exex_rd_in = self.exmem_latch_ptr.unwrap().rd_index_out;
        self.memex_rd_in = self.memwb_latch_ptr.unwrap().rd_index_out;
        self.r2_index_in = self.idex_latch_ptr.unwrap().r2_index_out;
    }

    /// Resolves the hazard; see `R1ForMux::decide`.
    pub fn decide(&mut self)
        ensures
            *final(self) == (R2ForMux {
                r2_out: if old(self).r2_index_in != 0 && old(self).r2_index_in
                    == old(self).exex_rd_in {
                    old(self).exex_r2_in
                } else if old(self).r2_index_in != 0 && old(self).r2_index_in
                    == old(self).memex_rd_in {
                    old(self).memex_r2_in
                } else {
                    old(self).normal_r2_in
                },
                r2_out_chk: true,
                ..*old(self)
            }),
    {
        if self.r2_index_in == 0 {
            self.r2_out = self.normal_r2_in;
        } else if self.r2_index_in == self.exex_rd_in {
            self.r2_out = self.exex_r2_in;
        } else if self.r2_index_in == self.memex_rd_in {
            self.r2_out = self.memex_r2_in;
        } else {
            self.r2_out = self.normal_r2_in;
        }
        self.r2_out_chk = true;
    }
}

/// The multiplexer that selects operand 1: the instruction's own
/// address for the U-, J- and B-type formats, the (possibly
/// forwarded) r1 value otherwise.
pub struct R1PCMux<'a> {
    pub r1_in: u32,
    pub pc_in: u32,
    pub opcode_in: u8,
    pub op1_out: u32,
    pub op1_out_chk: bool,
    pub idex_latch_ptr: Option<&'a IDEXLatch<'a>>,
    pub r1for_mux_ptr: Option<&'a R1ForMux<'a>>,
}

impl R1PCMux<'_> {
    /// Copies the opcode and base count from the ID/EX latch and the
    /// resolved r1 value from the forwarding multiplexer; all must
    /// have driven their outputs.
    pub fn grab_input(&mut self)
        requires
            old(self).idex_latch_ptr is Some,
            old(self).idex_latch_ptr->Some_0.opcode_out_chk,
            old(self).idex_latch_ptr->Some_0.base_pc_out_chk,
            old(self).r1for_mux_ptr is Some,
            old(self).r1for_mux_ptr->Some_0.r1_out_chk,
        ensures
            *final(self) == (R1PCMux {
                r1_in: old(self).r1for_mux_ptr->Some_0.r1_out,
                pc_in: old(self).idex_latch_ptr->Some_0.base_pc_out,
                opcode_in: old(self).idex_latch_ptr->Some_0.opcode_out,
                ..*old(self)
            }),
    {
        self.r1_in = self.r1for_mux_ptr.unwrap().r1_out;
        self.pc_in = self.idex_latch_ptr.unwrap().base_pc_out;
        self.opcode_in = self.idex_latch_ptr.unwrap().opcode_out;
    }

    /// Chooses operand 1 by instruction format. The opcode must be a
    /// recognized one.
    pub fn decide(&mut self)
        requires
            format_of(old(self).opcode_in) is Some,
        ensures
            *final(self) == (R1PCMux {
                op1_out: if uses_pc(old(self).opcode_in) {
                    old(self).pc_in
                } else {
                    old(self).r1_in
                },
                op1_out_chk: true,
                ..*old(self)
            }),
    {
        let fmt = get_instruction_type(self.opcode_in);
        if fmt == InstrT::Utype || fmt == InstrT::Jtype || fmt == InstrT::Btype {
            self.op1_out = self.pc_in;
        } else {
            self.op1_out = self.r1_in;
        }
        self.op1_out_chk = true;
    }
}

/// The multiplexer that selects operand 2: the (possibly forwarded)
/// r2 value for the R-type format, the decoded immediate otherwise.
pub struct R2ImmMux<'a> {
    pub r2_in: u32,
    pub immediates_in: u32,
    pub opcode_in: u8,
    pub op2_out: u32,
    pub op2_out_chk: bool,
    pub idex_latch_ptr: Option<&'a IDEXLatch<'a>>,
    pub r2for_mux_ptr: Option<&'a R2ForMux<'a>>,
}

impl R2ImmMux<'_> {
    /// Copies the opcode and immediate from the ID/EX latch and the
    /// resolved r2 value from the forwarding multiplexer; all must
    /// have driven their outputs.
    pub fn grab_input(&mut self)
        requires
            old(self).idex_latch_ptr is Some,
            old(self).idex_latch_ptr->Some_0.opcode_out_chk,
            old(self).idex_latch_ptr->Some_0.immediates_out_chk,
            old(self).r2for_mux_ptr is Some,
            old(self).r2for_mux_ptr->Some_0.r2_out_chk,
        ensures
            *final(self) == (R2ImmMux {
                r2_in: old(self).r2for_mux_ptr->Some_0.r2_out,
                immediates_in: old(self).idex_latch_ptr->Some_0.immediates_out,
                opcode_in: old(self).idex_latch_ptr->Some_0.opcode_out,
                ..*old(self)
            }),
    {
        self.r2_in = self.r2for_mux_ptr.unwrap().r2_out;
        self.immediates_in = self.idex_latch_ptr.unwrap().immediates_out;
        self.opcode_in = self.idex_latch_ptr.unwrap().opcode_out;
    }

    /// Chooses operand 2 by instruction format. The opcode must be a
    /// recognized one.
    pub fn decide(&mut self)
        requires
            format_of(old(self).opcode_in) is Some,
        ensures
            *final(self) == (R2ImmMux {
                op2_out: if uses_imm(old(self).opcode_in) {
                    old(self).immediates_in
                } else {
                    old(self).r2_in
                },
                op2_out_chk: true,
                ..*old(self)
            }),
    {
        let fmt = get_instruction_type(self.opcode_in);
        if fmt == InstrT::Rtype {
            self.op2_out = self.r2_in;
        } else {
            self.op2_out = self.immediates_in;
        }
        self.op2_out_chk = true;
    }
}

/// The branch comparator: while the ALU computes the jump target, it
/// compares the two source values per funct3 to decide whether a
/// branch is taken.
pub struct BranchComparator<'a> {
    pub r1_in: u32,
    pub r2_in: u32,
    pub branches_out: bool,
    pub branches_out_chk: bool,
    pub r1for_mux_ptr: &'a R1ForMux<'a>,
    pub r2for_mux_ptr: &'a R2ForMux<'a>,
    pub funct3_in: u8,
    pub idex_latch_ptr: &'a IDEXLatch<'a>,
}

impl BranchComparator<'_> {
    /// Copies the resolved source values from the forwarding
    /// multiplexers and the funct3 code from the ID/EX latch; all must
    /// have driven their outputs.
    pub fn grab_input(&mut self)
        requires
            old(self).r1for_mux_ptr.r1_out_chk,
            old(self).r2for_mux_ptr.r2_out_chk,
            old(self).idex_latch_ptr.funct3_out_chk,
        ensures
            *final(self) == (BranchComparator {
                r1_in: old(self).r1for_mux_ptr.r1_out,
                r2_in: old(self).r2for_mux_ptr.r2_out,
                funct3_in: old(self).idex_latch_ptr.funct3_out,
                ..*old(self)
            }),
    {
        self.r1_in = self.r1for_mux_ptr.r1_out;
        self.r2_in = self.r2for_mux_ptr.r2_out;
        self.funct3_in = self.idex_latch_ptr.funct3_out;
    }

    /// Evaluates the branch condition funct3 selects: 000 equal, 001
    /// not equal, 100 signed less-than, 101 signed greater-or-equal,
    /// 110 unsigned less-than, 111 unsigned greater-or-equal; any
    /// other code is never taken.
    pub fn compare(&mut self)
        ensures
            *final(self) == (BranchComparator {
                branches_out: branch_taken_for(old(self).funct3_in, old(self).r1_in, old(self).r2_in),
                ..*old(self)
            }),
    {
        self.branches_out = branch_compare(self.funct3_in, self.r1_in, self.r2_in);
    }
}

/// The arithmetic/logic unit.
pub struct ALUnit<'a> {
    pub op1_in: u32,
    pub op2_in: u32,
    pub result_out: u32,
    pub result_out_chk: bool,
    pub r1pc_mux_ptr: Option<&'a R1PCMux<'a>>,
    pub r2imm_mux_ptr: Option<&'a R2ImmMux<'a>>,
    pub opcode_in: u8,
    pub funct3_in: u8,
    pub funct7_in: u8,
    pub idex_latch_ptr: Option<&'a IDEXLatch<'a>>,
}

impl ALUnit<'_> {
    /// Copies the two operands from the operand multiplexers and the
    /// opcode and funct codes from the ID/EX latch; all must have
    /// driven their outputs.
    pub fn grab_input(&mut self)
        requires
            old(self).r1pc_mux_ptr is Some,
            old(self).r1pc_mux_ptr->Some_0.op1_out_chk,
            old(self).r2imm_mux_ptr is Some,
            old(self).r2imm_mux_ptr->Some_0.op2_out_chk,
            old(self).idex_latch_ptr is Some,
            old(self).idex_latch_ptr->Some_0.opcode_out_chk,
            old(self).idex_latch_ptr->Some_0.funct3_out_chk,
            old(self).idex_latch_ptr->Some_0.funct7_out_chk,
        ensures
            *final(self) == (ALUnit {
                op1_in: old(self).r1pc_mux_ptr->Some_0.op1_out,
                op2_in: old(self).r2imm_mux_ptr->Some_0.op2_out,
                opcode_in: old(self).idex_latch_ptr->Some_0.opcode_out,
                funct3_in: old(self).idex_latch_ptr->Some_0.funct3_out,
                funct7_in: old(self).idex_latch_ptr->Some_0.funct7_out,
                ..*old(self)
            }),
    {
        self.op1_in = self.r1pc_mux_ptr.unwrap().op1_out;
        self.op2_in = self.r2imm_mux_ptr.unwrap().op2_out;
        self.opcode_in = self.idex_latch_ptr.unwrap().opcode_out;
        self.funct3_in = self.idex_latch_ptr.unwrap().funct3_out;
        self.funct7_in = self.idex_latch_ptr.unwrap().funct7_out;
    }

    /// Computes the instruction's result; the architectural meaning of
    /// every opcode and funct combination is `alu_result`, whose fatal
    /// conditions the caller must have ruled out.
    pub fn compute(&mut self)
        requires
            alu_result(
                old(self).opcode_in,
                old(self).funct3_in,
                old(self).funct7_in,
                old(self).op1_in,
                old(self).op2_in,
            ) is Ok,
        ensures
            *final(self) == (ALUnit {
                result_out: alu_result(
                    old(self).opcode_in,
                    old(self).funct3_in,
                    old(self).funct7_in,
                    old(self).op1_in,
                    old(self).op2_in,
                )->Ok_0,
                result_out_chk: true,
                ..*old(self)
            }),
    {
        let r = alu_compute(self.opcode_in, self.funct3_in, self.funct7_in, self.op1_in, self.op2_in);
        self.result_out = match r {
            Ok(v) => v,
            Err(_) => vstd::pervasive::unreached(),
        };
        self.result_out_chk = true;
    }
}

/// The EX/MEM latch: holds the execute stage's outputs for one cycle.
pub struct EXMEMLatch<'a> {
    pub added_pc_in: u32,
    pub added_pc_out: u32,
    pub added_pc_out_chk: bool,
    pub result_in: u32,
    pub result_out: u32,
    pub result_out_chk: bool,
    pub mem_data_in: u32,
    pub mem_data_out: u32,
    pub mem_data_out_chk: bool,
    pub rd_index_in: u8,
    pub rd_index_out: u8,
    pub rd_index_out_chk: bool,
    pub idex_latch_ptr: Option<&'a IDEXLatch<'a>>,
    pub alu_ptr: Option<&'a ALUnit<'a>>,
    pub r2for_mux_ptr: Option<&'a R2ForMux<'a>>,
    pub opcode_in: u8,
    pub opcode_out: u8,
    pub opcode_out_chk: bool,
    pub funct3_in: u8,
    pub funct3_out: u8,
    pub funct3_out_chk: bool,
}

impl EXMEMLatch<'_> {
    /// Copies the added count, destination index, opcode and funct3
    /// from the ID/EX latch, the result from the ALU, and the (store)
    /// memory data from the r2 forwarding multiplexer; all must have
    /// driven their outputs.
    pub fn grab_input(&mut self)
        requires
            old(self).idex_latch_ptr is Some,
            old(self).idex_latch_ptr->Some_0.added_pc_out_chk,
            old(self).idex_latch_ptr->Some_0.rd_index_out_chk,
            old(self).idex_latch_ptr->Some_0.opcode_out_chk,
            old(self).idex_latch_ptr->Some_0.funct3_out_chk,
            old(self).alu_ptr is Some,
            old(self).alu_ptr->Some_0.result_out_chk,
            old(self).r2for_mux_ptr is Some,
            old(self).r2for_mux_ptr->Some_0.r2_out_chk,
        ensures
            *final(self) == (EXMEMLatch {
                added_pc_in: old(self).idex_latch_ptr->Some_0.added_pc_out,
                result_in: old(self).alu_ptr->Some_0.result_out,
                mem_data_in: old(self).r2for_mux_ptr->Some_0.r2_out,
                rd_index_in: old(self).idex_latch_ptr->Some_0.rd_index_out,
                opcode_in: old(self).idex_latch_ptr->Some_0.opcode_out,
                funct3_in: old(self).idex_latch_ptr->Some_0.funct3_out,
                ..*old(self)
            }),
    {
        self.added_pc_in = self.idex_latch_ptr.unwrap().added_pc_out;
        self.result_in = self.alu_ptr.unwrap().result_out;
        self.mem_data_in = self.r2for_mux_ptr.unwrap().r2_out;
        self.rd_index_in = self.idex_latch_ptr.unwrap().rd_index_out;
        self.opcode_in = self.idex_latch_ptr.unwrap().opcode_out;
        self.funct3_in = self.idex_latch_ptr.unwrap().funct3_out;
    }

    /// Opens the latch: the grabbed inputs pass through to the outputs.
    pub fn open_latch(&mut self)
        ensures
            *final(self) == (EXMEMLatch {
                added_pc_out: old(self).added_pc_in,
                result_out: old(self).result_in,
                mem_data_out: old(self).mem_data_in,
                rd_index_out: old(self).rd_index_in,
                opcode_out: old(self).opcode_in,
                funct3_out: old(self).funct3_in,
                added_pc_out_chk: true,
                result_out_chk: true,
                mem_data_out_chk: true,
                rd_index_out_chk: true,
                opcode_out_chk: true,
                funct3_out_chk: true,
                ..*old(self)
            }),
    {
        self.added_pc_out = self.added_pc_in;
        self.added_pc_out_chk = true;
        self.result_out = self.result_in;
        self.result_out_chk = true;
        self.mem_data_out = self.mem_data_in;
        self.mem_data_out_chk = true;
        self.rd_index_out = self.rd_index_in;
        self.rd_index_out_chk = true;
        self.opcode_out = self.opcode_in;
        self.opcode_out_chk = true;
        self.funct3_out = self.funct3_in;
        self.funct3_out_chk = true;
    }
}

/// The data memory's port shell: how the memory subcomponents face
/// the rest of the processor.
pub struct DataMem<'a> {
    pub address_in: u32,
    pub data_in: u32,
    pub mem_read_out: u32,
    pub mem_read_out_chk: bool,
    pub exmem_latch_ptr: Option<&'a EXMEMLatch<'a>>,
    pub opcode_in: u8,
    pub funct3_in: u8,
}

/// The MEM/WB latch: holds the memory stage's outputs for one cycle.
pub struct MEMWBLatch<'a> {
    pub added_pc_in: u32,
    pub added_pc_out: u32,
    pub added_pc_out_chk: bool,
    pub result_in: u32,
    pub result_out: u32,
    pub result_out_chk: bool,
    pub mem_read_in: u32,
    pub mem_read_out: u32,
    pub mem_read_out_chk: bool,
    pub rd_index_in: u8,
    pub rd_index_out: u8,
    pub rd_index_out_chk: bool,
    pub exmem_latch_ptr: Option<&'a EXMEMLatch<'a>>,
    pub data_mem_ptr: Option<&'a DataMem<'a>>,
    pub opcode_in: u8,
    pub opcode_out: u8,
    pub opcode_out_chk: bool,
}

impl MEMWBLatch<'_> {
    /// Copies the added count, result, destination index and opcode
    /// from the EX/MEM latch and the read data from the data memory;
    /// all must have driven their outputs.
    pub fn grab_input(&mut self)
        requires
            old(self).exmem_latch_ptr is Some,
            old(self).exmem_latch_ptr->Some_0.added_pc_out_chk,
            old(self).exmem_latch_ptr->Some_0.result_out_chk,
            old(self).exmem_latch_ptr->Some_0.rd_index_out_chk,
            old(self).exmem_latch_ptr->Some_0.opcode_out_chk,
            old(self).data_mem_ptr is Some,
            old(self).data_mem_ptr->Some_0.mem_read_out_chk,
        ensures
            *final(self) == (MEMWBLatch {
                added_pc_in: old(self).exmem_latch_ptr->Some_0.added_pc_out,
                result_in: old(self).exmem_latch_ptr->Some_0.result_out,
                mem_read_in: old(self).data_mem_ptr->Some_0.mem_read_out,
                rd_index_in: old(self).exmem_latch_ptr->Some_0.rd_index_out,
                opcode_in: old(self).exmem_latch_ptr->Some_0.opcode_out,
                ..*old(self)
            }),
    {
        self.added_pc_in = self.exmem_latch_ptr.unwrap().added_pc_out;
        self.result_in = self.exmem_latch_ptr.unwrap().result_out;
        self.mem_read_in = self.data_mem_ptr.unwrap().mem_read_out;
        self.rd_index_in = self.exmem_latch_ptr.unwrap().rd_index_out;
        self.opcode_in = self.exmem_latch_ptr.unwrap().opcode_out;
    }

    /// Opens the latch: the grabbed inputs pass through to the outputs.
    pub fn open_latch(&mut self)
        ensures
            *final(self) == (MEMWBLatch {
                added_pc_out: old(self).added_pc_in,
                result_out: old(self).result_in,
                mem_read_out: old(self).mem_read_in,
                rd_index_out: old(self).rd_index_in,
                opcode_out: old(self).opcode_in,
                added_pc_out_chk: true,
                result_out_chk: true,
                mem_read_out_chk: true,
                rd_index_out_chk: true,
                opcode_out_chk: true,
                ..*old(self)
            }),
    {
        self.added_pc_out = self.added_pc_in;
        self.added_pc_out_chk = true;
        self.result_out = self.result_in;
        self.result_out_chk = true;
        self.mem_read_out = self.mem_read_in;
        self.mem_read_out_chk = true;
        self.rd_index_out = self.rd_index_in;
        self.rd_index_out_chk = true;
        self.opcode_out = self.opcode_in;
        self.opcode_out_chk = true;
    }
}

/// The writeback multiplexer: selects the value committed to the
/// register file.
pub struct WBMux<'a> {
    pub added_pc_in: u32,
    pub result_in: u32,
    pub mem_read_in: u32,
    pub wb_data_out: u32,
    pub wb_data_out_chk: bool,
    pub memwb_latch_ptr: Option<&'a MEMWBLatch<'a>>,
    pub opcode_in: u8,
}

impl WBMux<'_> {
    /// Copies the added count, result, memory read data and opcode
    /// from the MEM/WB latch, which must have driven its outputs.
    pub fn grab_input(&mut self)
        requires
            old(self).memwb_latch_ptr is Some,
            old(self).memwb_latch_ptr->Some_0.added_pc_out_chk,
            old(self).memwb_latch_ptr->Some_0.result_out_chk,
            old(self).memwb_latch_ptr->Some_0.mem_read_out_chk,
            old(self).memwb_latch_ptr->Some_0.opcode_out_chk,
        ensures
            *final(self) == (WBMux {
                added_pc_in: old(self).memwb_latch_ptr->Some_0.added_pc_out,
                result_in: old(self).memwb_latch_ptr->Some_0.result_out,
                mem_read_in: old(self).memwb_latch_ptr->Some_0.mem_read_out,
                opcode_in: old(self).memwb_latch_ptr->Some_0.opcode_out,
                ..*old(self)
            }),
    {
        self.added_pc_in = self.memwb_latch_ptr.unwrap().added_pc_out;
        self.result_in = self.memwb_latch_ptr.unwrap().result_out;
        self.mem_read_in = self.memwb_latch_ptr.unwrap().mem_read_out;
        self.opcode_in = self.memwb_latch_ptr.unwrap().opcode_out;
    }

    /// Selects the writeback value: the return address for JAL/JALR,
    /// the memory read data for loads, a never-consumed sentinel for
    /// branches and stores, and the ALU result for everything else —
    /// the same selection the core's writeback stage makes.
    pub fn decide(&mut self)
        ensures
            *final(self) == (WBMux {
                wb_data_out: wb_value(
                    CoreMEMWBLatch {
                        added_pc: old(self).added_pc_in,
                        alu_output: old(self).result_in,
                        mem_data_out: old(self).mem_read_in,
                        rd_index: 0,
                        opcode: old(self).opcode_in,
                        instruction: 0,
                        wb_stall: 0,
                    },
                ),
                wb_data_out_chk: true,
                ..*old(self)
            }),
    {
        if self.opcode_in == OP_JAL || self.opcode_in == OP_JALR {
            self.wb_data_out = self.added_pc_in;
        } else if self.opcode_in == OP_LOAD {
            self.wb_data_out = self.mem_read_in;
        } else if self.opcode_in == OP_BRANCH || self.opcode_in == OP_STORE {
            self.wb_data_out = 0xdead_beef;
        } else {
            self.wb_data_out = self.result_in;
        }
        self.wb_data_out_chk = true;
    }
}

} // verus!
