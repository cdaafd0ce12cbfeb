//! Memory stage: the EX/MEM latch, byte/half-word/word aligned loads
//! and stores against the sparse word-addressed data memory, with
//! sign-extension and alignment-fault detection.

use crate::isa::{r2_of, SimError, OP_LOAD};
use std::collections::hash_map::HashMap;
use vstd::prelude::*;

verus! {

broadcast use vstd::std_specs::hash::group_hash_axioms;

/// The EX/MEM latch: what execute hands to the memory stage, held for
/// one cycle.
#[derive(Clone, Copy, Default)]
pub struct EXMEMLatch {
    pub added_pc: u32,
    pub alu_output: u32,
    pub mem_data_in: u32,
    pub rd_index: u8,
    pub opcode: u8,
    pub funct3: u8,
    pub instruction: u32,
    /// Stall or bubble; carried for display, never decided by the core.
    pub mem_stall: u8,
}

impl EXMEMLatch {
    /// Clears the latch to the values of a pipeline bubble. The address
    /// field takes a sentinel well away from data address 0, which a
    /// store may not touch.
    pub fn bubble(&mut self)
        ensures
            *final(self) == (EXMEMLatch {
                added_pc: 0,
                alu_output: 0xdead_beef,
                mem_data_in: 0,
                rd_index: 0,
                opcode: 0,
                funct3: 0,
                instruction: 0,
                ..*old(self)
            }),
    {
        self.added_pc = 0;
        self.alu_output = 0xdead_beef;
        self.mem_data_in = 0;
        self.rd_index = 0;
        self.opcode = 0;
        self.funct3 = 0;
        self.instruction = 0;
    }
}

/// The derived values of the memory stage.
#[derive(Clone, Copy, Default)]
pub struct MEMLogic {
    pub mem_data_out: u32,
}

/// The word the sparse data memory holds at a word address: absent
/// keys read as 0.
pub open spec fn mem_word(m: Map<u32, u32>, w: u32) -> u32 {
    if m.contains_key(w) {
        m[w]
    } else {
        0u32
    }
}

/// The byte of a word at byte offset `align` (0 to 3), as a value
/// below 256.
pub open spec fn extract_byte(word: u32, align: u32) -> u32 {
    if align == 0 {
        word & 0xFF
    } else if align == 1 {
        (word >> 8) & 0xFF
    } else if align == 2 {
        (word >> 16) & 0xFF
    } else {
        word >> 24
    }
}

/// Sign-extension of a byte value into a 32-bit word.
pub open spec fn sign_extend_byte(b: u32) -> u32 {
    if b >= 0x80 {
        b | 0xFFFF_FF00u32
    } else {
        b
    }
}

/// The half-word of a word at byte offset 0 or 2.
pub open spec fn extract_half(word: u32, align: u32) -> u32 {
    if align == 0 {
        word & 0xFFFF
    } else {
        word >> 16
    }
}

/// Sign-extension of a half-word value into a 32-bit word.
pub open spec fn sign_extend_half(h: u32) -> u32 {
    if h >= 0x8000 {
        h | 0xFFFF_0000u32
    } else {
        h
    }
}

/// The value a load returns from the data memory, or its fault.
/// funct3 selects width and signedness: 000 signed byte, 001 signed
/// half-word, 010 word, 100 unsigned byte, 101 unsigned half-word.
/// Byte loads accept any offset within the word; half-word loads only
/// offsets 0 and 2; word loads only offset 0. A word never written
/// reads as 0.
pub open spec fn load_value(funct3: u8, addr: u32, m: Map<u32, u32>) -> Result<u32, SimError> {
    let word = mem_word(m, addr / 4);
    let align = addr % 4;
    if funct3 == 0b000 {
        Ok(sign_extend_byte(extract_byte(word, align)))
    } else if funct3 == 0b001 {
        if align == 0 || align == 2 {
            Ok(sign_extend_half(extract_half(word, align)))
        } else {
            Err(SimError::MisalignedAccess)
        }
    } else if funct3 == 0b010 {
        if align == 0 {
            Ok(word)
        } else {
            Err(SimError::MisalignedAccess)
        }
    } else if funct3 == 0b100 {
        Ok(extract_byte(word, align))
    } else if funct3 == 0b101 {
        if align == 0 || align == 2 {
            Ok(extract_half(word, align))
        } else {
            Err(SimError::MisalignedAccess)
        }
    } else {
        Err(SimError::MalformedInstruction)
    }
}

/// The whole memory stage as a function of the EX/MEM latch and the
/// data memory: a load reads at the ALU-computed address; any other
/// opcode yields a never-consumed sentinel.
pub open spec fn mem_logic_of(exmem: EXMEMLatch, m: Map<u32, u32>) -> Result<MEMLogic, SimError> {
    if exmem.opcode == OP_LOAD {
        match load_value(exmem.funct3, exmem.alu_output, m) {
            Ok(v) => Ok(MEMLogic { mem_data_out: v }),
            Err(e) => Err(e),
        }
    } else {
        Ok(MEMLogic { mem_data_out: 0xdead_beefu32 })
    }
}

/// The word that results from storing `data` into `old_word` at byte
/// offset `align` with the width funct3 selects (000 byte, 001
/// half-word, 010 word), or the store's fault. Byte and half-word
/// stores preserve the untouched bytes of the word.
pub open spec fn store_word_merge(funct3: u8, align: u32, old_word: u32, data: u32) -> Result<
    u32,
    SimError,
> {
    if funct3 == 0b000 {
        if align == 0 {
            Ok((old_word & 0xFFFF_FF00) | (data & 0xFF))
        } else if align == 1 {
            Ok((old_word & 0xFFFF_00FF) | ((data & 0xFF) << 8))
        } else if align == 2 {
            Ok((old_word & 0xFF00_FFFF) | ((data & 0xFF) << 16))
        } else {
            Ok((old_word & 0x00FF_FFFF) | ((data & 0xFF) << 24))
        }
    } else if funct3 == 0b001 {
        if align == 0 {
            Ok((old_word & 0xFFFF_0000) | (data & 0xFFFF))
        } else if align == 2 {
            Ok((old_word & 0x0000_FFFF) | ((data & 0xFFFF) << 16))
        } else {
            Err(SimError::MisalignedAccess)
        }
    } else if funct3 == 0b010 {
        if align == 0 {
            Ok(data)
        } else {
            Err(SimError::MisalignedAccess)
        }
    } else {
        Err(SimError::MalformedInstruction)
    }
}

/// The single memory write a store in EX/MEM performs, as the word
/// address and the word to put there, or its fault. A store to byte
/// address 0 is disallowed by convention. The stored value is normally
/// the r2 value latched alongside the address; the one exception is
/// the load-store hazard: when the store's r2 index equals the nonzero
/// destination index that was latched in MEM/WB, the value about to be
/// written back is stored instead.
pub open spec fn store_write_spec(
    exmem: EXMEMLatch,
    memwb_rd: u8,
    wb_data: u32,
    m: Map<u32, u32>,
) -> Result<(u32, u32), SimError> {
    if exmem.alu_output == 0 {
        Err(SimError::StoreAddressZero)
    } else {
        let w = exmem.alu_output / 4;
        let align = exmem.alu_output % 4;
        let sr2 = r2_of(exmem.instruction);
        let data = if sr2 != 0 && sr2 == memwb_rd {
            wb_data
        } else {
            exmem.mem_data_in
        };
        match store_word_merge(exmem.funct3, align, mem_word(m, w), data) {
            Ok(nw) => Ok((w, nw)),
            Err(e) => Err(e),
        }
    }
}

/// The data memory after the store in EX/MEM, or its fault.
pub open spec fn store_result(
    exmem: EXMEMLatch,
    memwb_rd: u8,
    wb_data: u32,
    m: Map<u32, u32>,
) -> Result<Map<u32, u32>, SimError> {
    match store_write_spec(exmem, memwb_rd, wb_data, m) {
        Ok((w, nw)) => Ok(m.insert(w, nw)),
        Err(e) => Err(e),
    }
}

/// Reads the word the sparse data memory holds at a word address;
/// absent keys read as 0.
pub fn read_mem_word(m: &HashMap<u32, u32>, w: u32) -> (r: u32)
    ensures
        r == mem_word(m@, w),
{
    match m.get(&w) {
        Some(v) => *v,
        None => 0,
    }
}

/// Recomputes the memory stage; see `mem_logic_of`.
pub fn compute_mem_read(exmem: &EXMEMLatch, m: &HashMap<u32, u32>) -> (r: Result<
    MEMLogic,
    SimError,
>)
    ensures
        r == mem_logic_of(*exmem, m@),
{
    if exmem.opcode != OP_LOAD {
        return Ok(MEMLogic { mem_data_out: 0xdead_beef });
    }
    let addr = exmem.alu_output;
    let word: u32 = read_mem_word(m, addr / 4);
    let align: u32 = addr % 4;
    let f3 = exmem.funct3;
    if f3 == 0b000 {
        let b: u32 = if align == 0 {
            word & 0xFF
        } else if align == 1 {
            (word >> 8) & 0xFF
        } else if align == 2 {
            (word >> 16) & 0xFF
        } else {
            word >> 24
        };
        Ok(MEMLogic { mem_data_out: if b >= 0x80 { b | 0xFFFF_FF00 } else { b } })
    } else if f3 == 0b001 {
        if align == 0 || align == 2 {
            let h: u32 = if align == 0 {
                word & 0xFFFF
            } else {
                word >> 16
            };
            Ok(MEMLogic { mem_data_out: if h >= 0x8000 { h | 0xFFFF_0000 } else { h } })
        } else {
            Err(SimError::MisalignedAccess)
        }
    } else if f3 == 0b010 {
        if align == 0 {
            Ok(MEMLogic { mem_data_out: word })
        } else {
            Err(SimError::MisalignedAccess)
        }
    } else if f3 == 0b100 {
        let b: u32 = if align == 0 {
            word & 0xFF
        } else if align == 1 {
            (word >> 8) & 0xFF
        } else if align == 2 {
            (word >> 16) & 0xFF
        } else {
            word >> 24
        };
        Ok(MEMLogic { mem_data_out: b })
    } else if f3 == 0b101 {
        if align == 0 || align == 2 {
            let h: u32 = if align == 0 {
                word & 0xFFFF
            } else {
                word >> 16
            };
            Ok(MEMLogic { mem_data_out: h })
        } else {
            Err(SimError::MisalignedAccess)
        }
    } else {
        Err(SimError::MalformedInstruction)
    }
}

/// Computes the word address and merged word a store writes; see
/// `store_write_spec`.
pub fn compute_store_write(exmem: &EXMEMLatch, memwb_rd: u8, wb_data: u32, m: &HashMap<u32, u32>)
    -> (r: Result<(u32, u32), SimError>)
    ensures
        r == store_write_spec(*exmem, memwb_rd, wb_data, m@),
{
    if exmem.alu_output == 0 {
        return Err(SimError::StoreAddressZero);
    }
    let w: u32 = exmem.alu_output / 4;
    let align: u32 = exmem.alu_output % 4;
    proof {
        crate::isa::lemma_instr_fields(exmem.instruction);
    }
    let sr2: u8 = ((exmem.instruction >> 20) & 0x1F) as u8;
    let data: u32 = if sr2 != 0 && sr2 == memwb_rd {
        wb_data
    } else {
        exmem.mem_data_in
    };
    let old_word: u32 = read_mem_word(m, w);
    let f3 = exmem.funct3;
    if f3 == 0b000 {
        let nw: u32 = if align == 0 {
            (old_word & 0xFFFF_FF00) | (data & 0xFF)
        } else if align == 1 {
            (old_word & 0xFFFF_00FF) | ((data & 0xFF) << 8)
        } else if align == 2 {
            (old_word & 0xFF00_FFFF) | ((data & 0xFF) << 16)
        } else {
            (old_word & 0x00FF_FFFF) | ((data & 0xFF) << 24)
        };
        Ok((w, nw))
    } else if f3 == 0b001 {
        if align == 0 {
            Ok((w, (old_word & 0xFFFF_0000) | (data & 0xFFFF)))
        } else if align == 2 {
            Ok((w, (old_word & 0x0000_FFFF) | ((data & 0xFFFF) << 16)))
        } else {
            Err(SimError::MisalignedAccess)
        }
    } else if f3 == 0b010 {
        if align == 0 {
            Ok((w, data))
        } else {
            Err(SimError::MisalignedAccess)
        }
    } else {
        Err(SimError::MalformedInstruction)
    }
}

} // verus!
