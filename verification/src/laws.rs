//! The library's standing guarantees, each proved once and for all
//! over the specification functions the pipeline's contracts are
//! written in.

use crate::components::{
    end_of_program_count, extract_byte, extract_half, has_r1, has_r2, load_value, logic_of,
    mem_word, run_spec, sign_extend_byte, sign_extend_half, step_spec, store_word_merge, uses_imm,
    uses_pc, wb_value, Logic, RegModel, SimError,
};
use crate::isa::{r1_of, r2_of, wrap_add, OP_BRANCH, OP_JAL, OP_JALR};
use vstd::prelude::*;

verus! {

/// Register 0 is the hard-wired zero constant: no clock cycle changes
/// the register file's entry 0, whatever instruction retires. A write
/// whose destination index is 0 is discarded, never applied. In
/// particular a machine started with entry 0 at 0 keeps it at 0
/// forever.
pub proof fn lemma_register_zero_preserved(m: RegModel, l: Logic)
    requires
        m.wf(),
    ensures
        step_spec(m, l).0.reg_mem[0] == m.reg_mem[0],
{
}

/// Word round trip: storing a word at an aligned address and loading
/// a word back from the same address yields the stored value.
pub proof fn lemma_store_load_word(m: Map<u32, u32>, addr: u32, v: u32)
    requires
        addr % 4 == 0,
    ensures
        ({
            let nw = store_word_merge(0b010, addr % 4, mem_word(m, addr / 4), v)->Ok_0;
            load_value(0b010, addr, m.insert(addr / 4, nw)) == Ok::<u32, SimError>(v)
        }),
{
}

/// A byte store changes exactly its own byte of the containing word:
/// the stored byte reads back as the low 8 bits of the data, and the
/// three untouched byte positions keep their old values.
pub proof fn lemma_byte_store_touches_one_byte(w: u32, v: u32, a: u32)
    requires
        a < 4,
    ensures
        ({
            let nw = store_word_merge(0b000, a, w, v)->Ok_0;
            &&& extract_byte(nw, a) == v & 0xFF
            &&& (a != 0 ==> extract_byte(nw, 0) == extract_byte(w, 0))
            &&& (a != 1 ==> extract_byte(nw, 1) == extract_byte(w, 1))
            &&& (a != 2 ==> extract_byte(nw, 2) == extract_byte(w, 2))
            &&& (a != 3 ==> extract_byte(nw, 3) == extract_byte(w, 3))
        }),
{
    assert({
        let nw = if a == 0 {
            (w & 0xFFFF_FF00) | (v & 0xFF)
        } else if a == 1 {
            (w & 0xFFFF_00FF) | ((v & 0xFF) << 8)
        } else if a == 2 {
            (w & 0xFF00_FFFF) | ((v & 0xFF) << 16)
        } else {
            (w & 0x00FF_FFFF) | ((v & 0xFF) << 24)
        };
        &&& (a == 0 ==> nw & 0xFF == v & 0xFF)
        &&& (a == 1 ==> (nw >> 8) & 0xFF == v & 0xFF)
        &&& (a == 2 ==> (nw >> 16) & 0xFF == v & 0xFF)
        &&& (a == 3 ==> nw >> 24 == v & 0xFF)
        &&& (a != 0 ==> nw & 0xFF == w & 0xFF)
        &&& (a != 1 ==> (nw >> 8) & 0xFF == (w >> 8) & 0xFF)
        &&& (a != 2 ==> (nw >> 16) & 0xFF == (w >> 16) & 0xFF)
        &&& (a != 3 && a < 4 ==> nw >> 24 == w >> 24)
    }) by (bit_vector);
}

/// A half-word store changes exactly its own half of the containing
/// word: the stored half reads back as the low 16 bits of the data,
/// and the untouched half keeps its old value.
pub proof fn lemma_half_store_touches_one_half(w: u32, v: u32, a: u32)
    requires
        a == 0 || a == 2,
    ensures
        ({
            let nw = store_word_merge(0b001, a, w, v)->Ok_0;
            &&& extract_half(nw, a) == v & 0xFFFF
            &&& (a != 0 ==> extract_half(nw, 0) == extract_half(w, 0))
            &&& (a != 2 ==> extract_half(nw, 2) == extract_half(w, 2))
        }),
{
    assert({
        let nw = if a == 0 {
            (w & 0xFFFF_0000) | (v & 0xFFFF)
        } else {
            (w & 0x0000_FFFF) | ((v & 0xFFFF) << 16)
        };
        &&& (a == 0 ==> nw & 0xFFFF == v & 0xFFFF)
        &&& (a != 0 ==> nw >> 16 == v & 0xFFFF)
        &&& (a == 0 ==> nw >> 16 == w >> 16)
        &&& (a != 0 ==> nw & 0xFFFF == w & 0xFFFF)
    }) by (bit_vector);
}

/// Byte round trip: after a byte store, an unsigned byte load from
/// the same address yields the low 8 bits of the stored data, and a
/// signed byte load their sign-extension; the three other bytes of
/// the containing word keep their old values.
pub proof fn lemma_store_load_byte(m: Map<u32, u32>, addr: u32, v: u32)
    ensures
        ({
            let a = addr % 4;
            let nw = store_word_merge(0b000, a, mem_word(m, addr / 4), v)->Ok_0;
            let m2 = m.insert(addr / 4, nw);
            &&& load_value(0b100, addr, m2) == Ok::<u32, SimError>(v & 0xFF)
            &&& load_value(0b000, addr, m2) == Ok::<u32, SimError>(sign_extend_byte(v & 0xFF))
            &&& (a != 0 ==> extract_byte(nw, 0) == extract_byte(mem_word(m, addr / 4), 0))
            &&& (a != 1 ==> extract_byte(nw, 1) == extract_byte(mem_word(m, addr / 4), 1))
            &&& (a != 2 ==> extract_byte(nw, 2) == extract_byte(mem_word(m, addr / 4), 2))
            &&& (a != 3 ==> extract_byte(nw, 3) == extract_byte(mem_word(m, addr / 4), 3))
        }),
{
    lemma_byte_store_touches_one_byte(mem_word(m, addr / 4), v, addr % 4);
    assert(v & 0xFF < 0x100) by (bit_vector);
}

/// Half-word round trip: after a half-word store at an even offset,
/// an unsigned half-word load from the same address yields the low 16
/// bits of the stored data, and a signed half-word load their
/// sign-extension; the other half of the containing word keeps its
/// old value.
pub proof fn lemma_store_load_half(m: Map<u32, u32>, addr: u32, v: u32)
    requires
        addr % 4 == 0 || addr % 4 == 2,
    ensures
        ({
            let a = addr % 4;
            let nw = store_word_merge(0b001, a, mem_word(m, addr / 4), v)->Ok_0;
            let m2 = m.insert(addr / 4, nw);
            &&& load_value(0b101, addr, m2) == Ok::<u32, SimError>(v & 0xFFFF)
            &&& load_value(0b001, addr, m2) == Ok::<u32, SimError>(sign_extend_half(v & 0xFFFF))
            &&& (a != 0 ==> extract_half(nw, 0) == extract_half(mem_word(m, addr / 4), 0))
            &&& (a != 2 ==> extract_half(nw, 2) == extract_half(mem_word(m, addr / 4), 2))
        }),
{
    lemma_half_store_touches_one_half(mem_word(m, addr / 4), v, addr % 4);
    assert(v & 0xFFFF < 0x1_0000) by (bit_vector);
}

/// A word the data memory has never held reads as 0, through every
/// load width and signedness whose alignment is legal. Reading is a
/// pure function of the memory value and the memory stage never
/// writes, so repeated reads of an unwritten word return 0 no matter
/// how often or in what order they happen.
pub proof fn lemma_unwritten_word_reads_zero(m: Map<u32, u32>, addr: u32, funct3: u8)
    requires
        !m.contains_key(addr / 4),
        funct3 == 0b000 || funct3 == 0b001 || funct3 == 0b010 || funct3 == 0b100 || funct3
            == 0b101,
        funct3 == 0b001 || funct3 == 0b101 ==> addr % 4 == 0 || addr % 4 == 2,
        funct3 == 0b010 ==> addr % 4 == 0,
    ensures
        load_value(funct3, addr, m) == Ok::<u32, SimError>(0),
{
    assert(0u32 & 0xFF == 0 && (0u32 >> 8) & 0xFF == 0 && (0u32 >> 16) & 0xFF == 0 && 0u32 >> 24
        == 0 && 0u32 & 0xFFFF == 0 && 0u32 >> 16 == 0) by (bit_vector);
}

/// Forwarding correctness at the execute stage. A source register
/// whose index matches the destination latched in EX/MEM — the
/// adjacent previous instruction — resolves to that instruction's ALU
/// result; failing that, an index matching the destination latched in
/// MEM/WB — two instructions back — resolves to the value about to be
/// written back. No stall cycle is involved: the multiplexer output
/// feeds the ALU in the same cycle. Register 0 is never forwarded.
pub proof fn lemma_forwarding_in_cycle(m: RegModel)
    requires
        m.wf(),
        logic_of(m) is Ok,
    ensures
        ({
            let l = logic_of(m)->Ok_0;
            &&& (m.idex.r1_index != 0 && has_r1(m.idex.opcode) && m.idex.r1_index
                == m.exmem.rd_index ==> l.execute.formux_r1 == m.exmem.alu_output)
            &&& (m.idex.r1_index != 0 && has_r1(m.idex.opcode) && m.idex.r1_index
                != m.exmem.rd_index && m.idex.r1_index == m.memwb.rd_index
                ==> l.execute.formux_r1 == wb_value(m.memwb))
            &&& (m.idex.r2_index != 0 && has_r2(m.idex.opcode) && m.idex.r2_index
                == m.exmem.rd_index ==> l.execute.formux_r2 == m.exmem.alu_output)
            &&& (m.idex.r2_index != 0 && has_r2(m.idex.opcode) && m.idex.r2_index
                != m.exmem.rd_index && m.idex.r2_index == m.memwb.rd_index
                ==> l.execute.formux_r2 == wb_value(m.memwb))
            &&& (!uses_pc(m.idex.opcode) ==> l.execute.op1 == l.execute.formux_r1)
            &&& (!uses_imm(m.idex.opcode) ==> l.execute.op2 == l.execute.formux_r2)
        }),
{
}

/// The decode-stage MEM/WB bypass applies to each source register
/// independently and never to index 0: a source whose nonzero index
/// equals the destination latched in MEM/WB reads the value about to
/// be written back — on both ports at once when both indices match —
/// while index 0 and unmatched indices read the register file.
pub proof fn lemma_decode_bypass(m: RegModel)
    requires
        m.wf(),
        logic_of(m) is Ok,
    ensures
        ({
            let l = logic_of(m)->Ok_0;
            let r1 = r1_of(m.ifid.instruction);
            let r2 = r2_of(m.ifid.instruction);
            &&& (r1 != 0 && r1 == m.memwb.rd_index ==> l.decode.regmem_r1 == wb_value(m.memwb))
            &&& (r2 != 0 && r2 == m.memwb.rd_index ==> l.decode.regmem_r2 == wb_value(m.memwb))
            &&& (r1 == 0 || r1 != m.memwb.rd_index ==> l.decode.regmem_r1 == m.reg_mem[r1 as int])
            &&& (r2 == 0 || r2 != m.memwb.rd_index ==> l.decode.regmem_r2 == m.reg_mem[r2 as int])
        }),
{
}

/// Branch and jump targets. With a JAL in execute the next program
/// counter is the instruction's own address plus its immediate; with
/// a JALR it is the (possibly forwarded) r1 value plus the immediate,
/// bit 0 forced to 0; an untaken branch falls through to the
/// sequential program counter plus 4.
pub proof fn lemma_control_transfer_targets(m: RegModel)
    requires
        m.wf(),
        logic_of(m) is Ok,
    ensures
        ({
            let l = logic_of(m)->Ok_0;
            &&& (m.idex.opcode == OP_JAL ==> l.fetch.pcmux_out == wrap_add(
                m.idex.base_pc,
                m.idex.immediates,
            ))
            &&& (m.idex.opcode == OP_JALR ==> l.fetch.pcmux_out == wrap_add(
                l.execute.formux_r1,
                m.idex.immediates,
            ) & 0xFFFF_FFFEu32)
            &&& (m.idex.opcode == OP_BRANCH && !l.execute.branch_taken ==> l.fetch.pcmux_out
                == wrap_add(m.pc, 4))
        }),
{
}

/// A run that ends without a fault or fuel exhaustion has carried the
/// program counter to or past the end-of-program count, and no clock
/// cycle ever changes the program image.
pub proof fn lemma_run_end(m: RegModel, l: Logic, fuel: nat)
    requires
        m.wf(),
    ensures
        run_spec(m, l, fuel).2 == Ok::<bool, SimError>(true) ==> run_spec(m, l, fuel).0.pc
            >= end_of_program_count(run_spec(m, l, fuel).0),
        run_spec(m, l, fuel).0.instr_mem == m.instr_mem,
    decreases fuel,
{
    if fuel > 0 {
        let stepped = step_spec(m, l);
        if stepped.2 is Ok && stepped.0.pc < end_of_program_count(stepped.0) {
            lemma_run_end(stepped.0, stepped.1, (fuel - 1) as nat);
        }
    }
}

} // verus!
