//! Instruction-set semantics shared by the pipeline core and the
//! datapath subcomponents: opcode classification, instruction-field
//! extraction, immediate reconstruction, two's-complement arithmetic
//! helpers, the arithmetic/logic unit, and the branch comparator.

use vstd::prelude::*;

verus! {

/// Opcode of LUI (load upper immediate, U-type).
pub const OP_LUI: u8 = 0b0110111;
/// Opcode of AUIPC (add upper immediate to PC, U-type).
pub const OP_AUIPC: u8 = 0b0010111;
/// Opcode of JAL (jump and link, J-type).
pub const OP_JAL: u8 = 0b1101111;
/// Opcode of JALR (jump and link register, I-type).
pub const OP_JALR: u8 = 0b1100111;
/// Opcode of the conditional branches BEQ/BNE/BLT/BGE/BLTU/BGEU (B-type).
pub const OP_BRANCH: u8 = 0b1100011;
/// Opcode of the loads LB/LH/LW/LBU/LHU (I-type).
pub const OP_LOAD: u8 = 0b0000011;
/// Opcode of the stores SB/SH/SW (S-type).
pub const OP_STORE: u8 = 0b0100011;
/// Opcode of the register-immediate ALU operations (I-type).
pub const OP_IMM: u8 = 0b0010011;
/// Opcode of the register-register ALU operations (R-type).
pub const OP_REG: u8 = 0b0110011;
/// Opcode of the FENCE family (classified I-type, no execute semantics).
pub const OP_FENCE: u8 = 0b0001111;
/// Opcode of the ECALL/EBREAK/CSR family (classified I-type, no execute
/// semantics).
pub const OP_SYSTEM: u8 = 0b1110011;

/// The six instruction-encoding formats.
#[derive(Clone, Copy, Debug, PartialEq, Eq, Structural)]
pub enum InstrT {
    Rtype,
    Itype,
    Stype,
    Btype,
    Utype,
    Jtype,
}

/// The fatal error conditions of the core. Every error aborts the run;
/// none is recoverable.
#[derive(Clone, Copy, Debug, PartialEq, Eq, Structural)]
pub enum SimError {
    /// An opcode outside the recognized set reached decode or execute.
    UnsupportedOpcode,
    /// A recognized opcode carries an invalid funct3/funct7 combination,
    /// or an immediate shift amount of 32 or more.
    MalformedInstruction,
    /// A half-word access at an odd byte offset, or a word access at a
    /// non-zero byte offset.
    MisalignedAccess,
    /// A register-file write with a destination index of 32 or more.
    /// (A write to register 0 is silently discarded, never an error.)
    InvalidRegisterWrite,
    /// A store whose computed byte address is exactly 0, disallowed by
    /// convention so that the untouched-memory default stays apart from
    /// legitimate writes.
    StoreAddressZero,
}

/// Maps an opcode to its encoding format; `None` for any opcode outside
/// the eleven recognized ones. The all-zero no-op word has opcode 0 and
/// is deliberately not classified.
pub open spec fn format_of(opcode: u8) -> Option<InstrT> {
    if opcode == OP_LUI {
        Some(InstrT::Utype)
    } else if opcode == OP_AUIPC {
        Some(InstrT::Utype)
    } else if opcode == OP_JAL {
        Some(InstrT::Jtype)
    } else if opcode == OP_JALR {
        Some(InstrT::Itype)
    } else if opcode == OP_BRANCH {
        Some(InstrT::Btype)
    } else if opcode == OP_LOAD {
        Some(InstrT::Itype)
    } else if opcode == OP_STORE {
        Some(InstrT::Stype)
    } else if opcode == OP_IMM {
        Some(InstrT::Itype)
    } else if opcode == OP_REG {
        Some(InstrT::Rtype)
    } else if opcode == OP_FENCE {
        Some(InstrT::Itype)
    } else if opcode == OP_SYSTEM {
        Some(InstrT::Itype)
    } else {
        None
    }
}

/// Whether an opcode is one of the eleven recognized ones.
pub fn is_supported_opcode(opcode: u8) -> (b: bool)
    ensures
        b == (format_of(opcode) is Some),
{
    opcode == OP_LUI || opcode == OP_AUIPC || opcode == OP_JAL || opcode == OP_JALR || opcode
        == OP_BRANCH || opcode == OP_LOAD || opcode == OP_STORE || opcode == OP_IMM || opcode
        == OP_REG || opcode == OP_FENCE || opcode == OP_SYSTEM
}

/// Classifies an opcode into its instruction format. An opcode outside
/// the recognized set is an `UnsupportedOpcode` condition, which callers
/// rule out up front; see `format_of`.
pub fn get_instruction_type(opcode: u8) -> (t: InstrT)
    requires
        format_of(opcode) is Some,
    ensures
        format_of(opcode) == Some(t),
{
    if opcode == OP_LUI {
        InstrT::Utype
    } else if opcode == OP_AUIPC {
        InstrT::Utype
    } else if opcode == OP_JAL {
        InstrT::Jtype
    } else if opcode == OP_JALR {
        InstrT::Itype
    } else if opcode == OP_BRANCH {
        InstrT::Btype
    } else if opcode == OP_LOAD {
        InstrT::Itype
    } else if opcode == OP_STORE {
        InstrT::Stype
    } else if opcode == OP_IMM {
        InstrT::Itype
    } else if opcode == OP_REG {
        InstrT::Rtype
    } else if opcode == OP_FENCE {
        InstrT::Itype
    } else {
        InstrT::Itype
    }
}

// ---------------------------------------------------------------------
// Two's-complement arithmetic on 32-bit words
// ---------------------------------------------------------------------

/// The signed value a 32-bit word represents in two's complement.
pub open spec fn to_signed(x: u32) -> int {
    if x < 0x8000_0000 {
        x as int
    } else {
        x - 0x1_0000_0000
    }
}

/// Addition modulo 2^32.
pub open spec fn wrap_add(a: u32, b: u32) -> u32 {
    if a + b > 0xFFFF_FFFF {
        (a + b - 0x1_0000_0000) as u32
    } else {
        (a + b) as u32
    }
}

/// Subtraction modulo 2^32.
pub open spec fn wrap_sub(a: u32, b: u32) -> u32 {
    if a - b < 0 {
        (a - b + 0x1_0000_0000) as u32
    } else {
        (a - b) as u32
    }
}

/// Signed comparison of two words taken as two's complement.
pub open spec fn signed_lt(a: u32, b: u32) -> bool {
    to_signed(a) < to_signed(b)
}

/// Arithmetic right shift: the sign bit is replicated into the vacated
/// high bits.
pub open spec fn shift_right_arith(x: u32, s: u32) -> u32
    recommends
        s < 32,
{
    if s == 0 {
        x
    } else if x < 0x8000_0000 {
        x >> s
    } else {
        (x >> s) | (0xFFFF_FFFFu32 << ((32 - s) as u32))
    }
}

/// Addition modulo 2^32.
pub fn wrap_add_exec(a: u32, b: u32) -> (r: u32)
    ensures
        r == wrap_add(a, b),
{
    a.wrapping_add(b)
}

/// Subtraction modulo 2^32.
pub fn wrap_sub_exec(a: u32, b: u32) -> (r: u32)
    ensures
        r == wrap_sub(a, b),
{
    a.wrapping_sub(b)
}

/// Signed comparison of two words taken as two's complement.
pub fn signed_lt_exec(a: u32, b: u32) -> (r: bool)
    ensures
        r == signed_lt(a, b),
{
    if (a >= 0x8000_0000) == (b >= 0x8000_0000) {
        a < b
    } else {
        a >= 0x8000_0000
    }
}

/// Arithmetic right shift by `s` places, `s < 32`.
pub fn shift_right_arith_exec(x: u32, s: u32) -> (r: u32)
    requires
        s < 32,
    ensures
        r == shift_right_arith(x, s),
{
    if s == 0 {
        x
    } else if x < 0x8000_0000 {
        x >> s
    } else {
        (x >> s) | (0xFFFF_FFFFu32 << (32 - s))
    }
}

// ---------------------------------------------------------------------
// Instruction fields
// ---------------------------------------------------------------------

/// Bits [6:0]: the opcode.
pub open spec fn opcode_of(instr: u32) -> u8 {
    (instr & 0x7F) as u8
}

/// Bits [19:15]: the first source register index.
pub open spec fn r1_of(instr: u32) -> u8 {
    ((instr >> 15) & 0x1F) as u8
}

/// Bits [24:20]: the second source register index.
pub open spec fn r2_of(instr: u32) -> u8 {
    ((instr >> 20) & 0x1F) as u8
}

/// Bits [11:7]: the destination register field as encoded (not yet
/// forced to 0 for the formats without a destination).
pub open spec fn rd_field_of(instr: u32) -> u8 {
    ((instr >> 7) & 0x1F) as u8
}

/// Bits [14:12]: the funct3 code.
pub open spec fn funct3_of(instr: u32) -> u8 {
    ((instr >> 12) & 0x7) as u8
}

/// Bits [31:25]: the funct7 code.
pub open spec fn funct7_of(instr: u32) -> u8 {
    ((instr >> 25) & 0x7F) as u8
}

/// The masked instruction fields all fit their nominal widths; in
/// particular both register indices are below 32.
pub proof fn lemma_instr_fields(i: u32)
    ensures
        i & 0x7F < 0x80,
        (i >> 15) & 0x1F < 32,
        (i >> 20) & 0x1F < 32,
        (i >> 7) & 0x1F < 32,
        (i >> 12) & 0x7 < 8,
        (i >> 25) & 0x7F < 0x80,
{
    assert(i & 0x7F < 0x80 && (i >> 15) & 0x1F < 32 && (i >> 20) & 0x1F < 32 && (i >> 7) & 0x1F
        < 32 && (i >> 12) & 0x7 < 8 && (i >> 25) & 0x7F < 0x80) by (bit_vector);
}

// ---------------------------------------------------------------------
// Immediate reconstruction
// ---------------------------------------------------------------------

/// I-type immediate: bits [31:20], sign-extended from bit 11.
pub open spec fn imm_i(instr: u32) -> u32 {
    if instr >= 0x8000_0000 {
        (instr >> 20) | 0xFFFF_F000u32
    } else {
        instr >> 20
    }
}

/// S-type immediate: bits [31:25] over bits [11:7], sign-extended from
/// bit 11.
pub open spec fn imm_s(instr: u32) -> u32 {
    if instr >= 0x8000_0000 {
        (((instr >> 25) & 0x7F) << 5) | ((instr >> 7) & 0x1F) | 0xFFFF_F000u32
    } else {
        (((instr >> 25) & 0x7F) << 5) | ((instr >> 7) & 0x1F)
    }
}

/// B-type immediate: bit 31 to position 12, bits [30:25] to [10:5],
/// bits [11:8] to [4:1], bit 7 to position 11; bit 0 always 0;
/// sign-extended from bit 12.
pub open spec fn imm_b(instr: u32) -> u32 {
    let base = (((instr >> 25) & 0x3F) << 5) | (((instr >> 8) & 0xF) << 1) | (((instr >> 7) & 0x1)
        << 11);
    if instr >= 0x8000_0000 {
        base | 0xFFFF_F000u32
    } else {
        base
    }
}

/// U-type immediate: bits [31:12] in place, low 12 bits zero, never
/// sign-extended.
pub open spec fn imm_u(instr: u32) -> u32 {
    instr & 0xFFFF_F000u32
}

/// J-type immediate: bit 31 to position 20, bits [30:21] to [10:1],
/// bit 20 to position 11, bits [19:12] in place; bit 0 always 0;
/// sign-extended from bit 20.
pub open spec fn imm_j(instr: u32) -> u32 {
    let base = (((instr >> 21) & 0x3FF) << 1) | (((instr >> 20) & 0x1) << 11) | (instr
        & 0x000F_F000u32);
    if instr >= 0x8000_0000 {
        base | 0xFFF0_0000u32
    } else {
        base
    }
}

/// The immediate an instruction of the given format carries. An R-type
/// instruction has none; 0 stands in for it.
pub open spec fn imm_for(format: InstrT, instr: u32) -> u32 {
    match format {
        InstrT::Rtype => 0,
        InstrT::Itype => imm_i(instr),
        InstrT::Stype => imm_s(instr),
        InstrT::Btype => imm_b(instr),
        InstrT::Utype => imm_u(instr),
        InstrT::Jtype => imm_j(instr),
    }
}

/// Reassembles the format-specific immediate of an instruction word.
pub fn decode_immediate(format: InstrT, instr: u32) -> (r: u32)
    ensures
        r == imm_for(format, instr),
{
    match format {
        InstrT::Rtype => 0,
        InstrT::Itype => {
            if instr >= 0x8000_0000 {
                (instr >> 20) | 0xFFFF_F000u32
            } else {
                instr >> 20
            }
        },
        InstrT::Stype => {
            let base: u32 = (((instr >> 25) & 0x7F) << 5) | ((instr >> 7) & 0x1F);
            if instr >= 0x8000_0000 {
                base | 0xFFFF_F000u32
            } else {
                base
            }
        },
        InstrT::Btype => {
            let base: u32 = (((instr >> 25) & 0x3F) << 5) | (((instr >> 8) & 0xF) << 1) | (((instr
                >> 7) & 0x1) << 11);
            if instr >= 0x8000_0000 {
                base | 0xFFFF_F000u32
            } else {
                base
            }
        },
        InstrT::Utype => instr & 0xFFFF_F000u32,
        InstrT::Jtype => {
            let base: u32 = (((instr >> 21) & 0x3FF) << 1) | (((instr >> 20) & 0x1) << 11) | (instr
                & 0x000F_F000u32);
            if instr >= 0x8000_0000 {
                base | 0xFFF0_0000u32
            } else {
                base
            }
        },
    }
}

// ---------------------------------------------------------------------
// Branch comparator
// ---------------------------------------------------------------------

/// Whether a branch with the given funct3 is taken on source values
/// `a` and `b`: 000 equal, 001 not equal, 100 signed less-than,
/// 101 signed greater-or-equal, 110 unsigned less-than, 111 unsigned
/// greater-or-equal; any other code is never taken.
pub open spec fn branch_taken_for(funct3: u8, a: u32, b: u32) -> bool {
    if funct3 == 0b000 {
        a == b
    } else if funct3 == 0b001 {
        a != b
    } else if funct3 == 0b100 {
        signed_lt(a, b)
    } else if funct3 == 0b101 {
        !signed_lt(a, b)
    } else if funct3 == 0b110 {
        a < b
    } else if funct3 == 0b111 {
        a >= b
    } else {
        false
    }
}

/// Evaluates the branch condition selected by funct3 on `a` and `b`.
pub fn branch_compare(funct3: u8, a: u32, b: u32) -> (r: bool)
    ensures
        r == branch_taken_for(funct3, a, b),
{
    if funct3 == 0b000 {
        a == b
    } else if funct3 == 0b001 {
        a != b
    } else if funct3 == 0b100 {
        signed_lt_exec(a, b)
    } else if funct3 == 0b101 {
        !signed_lt_exec(a, b)
    } else if funct3 == 0b110 {
        a < b
    } else if funct3 == 0b111 {
        a >= b
    } else {
        false
    }
}

// ---------------------------------------------------------------------
// Arithmetic/logic unit
// ---------------------------------------------------------------------

/// Facts about shift-amount encodings: a 5-bit masked amount is a legal
/// shift, a right-shift immediate with clear upper bits is below 32,
/// and the arithmetic-variant marker places the immediate in
/// [1024, 1055].
pub proof fn lemma_shift_amounts(x: u32)
    ensures
        x & 0x1F < 32,
        (x >> 5) == 0 ==> x < 32,
        (x >> 5) == 0b0100000 ==> 1024 <= x <= 1055,
{
    assert(x & 0x1F < 32 && ((x >> 5) == 0 ==> x < 32) && ((x >> 5) == 0b0100000 ==> 1024 <= x
        <= 1055)) by (bit_vector);
}

/// Result of a register-immediate ALU operation, dispatched on funct3.
/// An immediate shift amount of 32 or more, or an unrecognized
/// right-shift marker in the upper immediate bits, is malformed.
pub open spec fn alu_imm_result(funct3: u8, op1: u32, op2: u32) -> Result<u32, SimError> {
    if funct3 == 0b000 {  // ADDI
        Ok(wrap_add(op1, op2))
    } else if funct3 == 0b010 {  // SLTI
        Ok(if signed_lt(op1, op2) { 1u32 } else { 0u32 })
    } else if funct3 == 0b011 {  // SLTIU
        Ok(if op1 < op2 { 1u32 } else { 0u32 })
    } else if funct3 == 0b100 {  // XORI
        Ok(op1 ^ op2)
    } else if funct3 == 0b110 {  // ORI
        Ok(op1 | op2)
    } else if funct3 == 0b111 {  // ANDI
        Ok(op1 & op2)
    } else if funct3 == 0b001 {  // SLLI
        if op2 > 31 {
            Err(SimError::MalformedInstruction)
        } else {
            Ok(op1 << op2)
        }
    } else if funct3 == 0b101 {  // SRLI / SRAI
        if op2 >> 5 == 0b0000000 {
            Ok(op1 >> op2)
        } else if op2 >> 5 == 0b0100000 {
            Ok(shift_right_arith(op1, (op2 - 0b010000000000) as u32))
        } else {
            Err(SimError::MalformedInstruction)
        }
    } else {
        Err(SimError::MalformedInstruction)
    }
}

/// Result of a register-register ALU operation, dispatched on funct3
/// and, for ADD/SUB and the right shifts, funct7. Register shift
/// amounts come from the low 5 bits of operand 2.
pub open spec fn alu_reg_result(funct3: u8, funct7: u8, op1: u32, op2: u32) -> Result<
    u32,
    SimError,
> {
    if funct3 == 0b000 {  // ADD / SUB
        if funct7 == 0b0000000 {
            Ok(wrap_add(op1, op2))
        } else if funct7 == 0b0100000 {
            Ok(wrap_sub(op1, op2))
        } else {
            Err(SimError::MalformedInstruction)
        }
    } else if funct3 == 0b001 {  // SLL
        Ok(op1 << (op2 & 0x1F))
    } else if funct3 == 0b010 {  // SLT
        Ok(if signed_lt(op1, op2) { 1u32 } else { 0u32 })
    } else if funct3 == 0b011 {  // SLTU
        Ok(if op1 < op2 { 1u32 } else { 0u32 })
    } else if funct3 == 0b100 {  // XOR
        Ok(op1 ^ op2)
    } else if funct3 == 0b101 {  // SRL / SRA
        if funct7 == 0b0000000 {
            Ok(op1 >> (op2 & 0x1F))
        } else if funct7 == 0b0100000 {
            Ok(shift_right_arith(op1, op2 & 0x1F))
        } else {
            Err(SimError::MalformedInstruction)
        }
    } else if funct3 == 0b110 {  // OR
        Ok(op1 | op2)
    } else if funct3 == 0b111 {  // AND
        Ok(op1 & op2)
    } else {
        Err(SimError::MalformedInstruction)
    }
}

/// The architectural ALU result for an instruction, or the fatal
/// condition it raises. LUI passes operand 2 through; AUIPC, JAL,
/// branches, loads and stores add the operands modulo 2^32 (a target
/// address, a memory address, or an upper-immediate sum); JALR adds and
/// forces bit 0 to 0; the register-immediate and register-register
/// groups dispatch on their funct codes; opcode 0 is a no-op producing
/// 0; anything else has no execute-stage semantics.
pub open spec fn alu_result(opcode: u8, funct3: u8, funct7: u8, op1: u32, op2: u32) -> Result<
    u32,
    SimError,
> {
    if opcode == OP_LUI {
        Ok(op2)
    } else if opcode == OP_AUIPC || opcode == OP_JAL || opcode == OP_BRANCH || opcode == OP_LOAD
        || opcode == OP_STORE {
        Ok(wrap_add(op1, op2))
    } else if opcode == OP_JALR {
        Ok(wrap_add(op1, op2) & 0xFFFF_FFFEu32)
    } else if opcode == OP_IMM {
        alu_imm_result(funct3, op1, op2)
    } else if opcode == OP_REG {
        alu_reg_result(funct3, funct7, op1, op2)
    } else if opcode == 0 {
        Ok(0)
    } else {
        Err(SimError::UnsupportedOpcode)
    }
}

/// Computes the ALU result for an instruction; see `alu_result`.
pub fn alu_compute(opcode: u8, funct3: u8, funct7: u8, op1: u32, op2: u32) -> (r: Result<
    u32,
    SimError,
>)
    ensures
        r == alu_result(opcode, funct3, funct7, op1, op2),
{
    if opcode == OP_LUI {
        Ok(op2)
    } else if opcode == OP_AUIPC || opcode == OP_JAL || opcode == OP_BRANCH || opcode == OP_LOAD
        || opcode == OP_STORE {
        Ok(wrap_add_exec(op1, op2))
    } else if opcode == OP_JALR {
        Ok(wrap_add_exec(op1, op2) & 0xFFFF_FFFEu32)
    } else if opcode == OP_IMM {
        alu_compute_imm(funct3, op1, op2)
    } else if opcode == OP_REG {
        alu_compute_reg(funct3, funct7, op1, op2)
    } else if opcode == 0 {
        Ok(0)
    } else {
        Err(SimError::UnsupportedOpcode)
    }
}

/// Computes a register-immediate ALU operation; see `alu_imm_result`.
pub fn alu_compute_imm(funct3: u8, op1: u32, op2: u32) -> (r: Result<u32, SimError>)
    ensures
        r == alu_imm_result(funct3, op1, op2),
{
    if funct3 == 0b000 {
        Ok(wrap_add_exec(op1, op2))
    } else if funct3 == 0b010 {
        Ok(if signed_lt_exec(op1, op2) { 1u32 } else { 0u32 })
    } else if funct3 == 0b011 {
        Ok(if op1 < op2 { 1u32 } else { 0u32 })
    } else if funct3 == 0b100 {
        Ok(op1 ^ op2)
    } else if funct3 == 0b110 {
        Ok(op1 | op2)
    } else if funct3 == 0b111 {
        Ok(op1 & op2)
    } else if funct3 == 0b001 {
        if op2 > 31 {
            Err(SimError::MalformedInstruction)
        } else {
            Ok(op1 << op2)
        }
    } else if funct3 == 0b101 {
        proof {
            lemma_shift_amounts(op2);
        }
        if op2 >> 5 == 0b0000000 {
            Ok(op1 >> op2)
        } else if op2 >> 5 == 0b0100000 {
            Ok(shift_right_arith_exec(op1, op2 - 0b010000000000))
        } else {
            Err(SimError::MalformedInstruction)
        }
    } else {
        Err(SimError::MalformedInstruction)
    }
}

/// Computes a register-register ALU operation; see `alu_reg_result`.
pub fn alu_compute_reg(funct3: u8, funct7: u8, op1: u32, op2: u32) -> (r: Result<u32, SimError>)
    ensures
        r == alu_reg_result(funct3, funct7, op1, op2),
{
    proof {
        lemma_shift_amounts(op2);
    }
    if funct3 == 0b000 {
        if funct7 == 0b0000000 {
            Ok(wrap_add_exec(op1, op2))
        } else if funct7 == 0b0100000 {
            Ok(wrap_sub_exec(op1, op2))
        } else {
            Err(SimError::MalformedInstruction)
        }
    } else if funct3 == 0b001 {
        Ok(op1 << (op2 & 0x1F))
    } else if funct3 == 0b010 {
        Ok(if signed_lt_exec(op1, op2) { 1u32 } else { 0u32 })
    } else if funct3 == 0b011 {
        Ok(if op1 < op2 { 1u32 } else { 0u32 })
    } else if funct3 == 0b100 {
        Ok(op1 ^ op2)
    } else if funct3 == 0b101 {
        if funct7 == 0b0000000 {
            Ok(op1 >> (op2 & 0x1F))
        } else if funct7 == 0b0100000 {
            Ok(shift_right_arith_exec(op1, op2 & 0x1F))
        } else {
            Err(SimError::MalformedInstruction)
        }
    } else if funct3 == 0b110 {
        Ok(op1 | op2)
    } else if funct3 == 0b111 {
        Ok(op1 & op2)
    } else {
        Err(SimError::MalformedInstruction)
    }
}

} // verus!
