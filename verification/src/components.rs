//! The pipeline core: the stateful side (`Registers`: the four
//! inter-stage latches, the program counter, and the three memories)
//! and the combinational side (`Logic`: the five per-stage bundles of
//! derived values), advanced together one clock cycle at a time by
//! [`step`].
//!
//! A cycle is two strictly ordered phases. First `Registers::update`
//! commits the latch transfers the previous cycle's logic decided;
//! then `Logic::update` recomputes all five stages from the new
//! snapshot. Mixing the phases would let a stage observe values the
//! clock edge has not yet made visible.
//!
//! Every contract is stated against a purely functional model of the
//! machine: [`RegModel`] is the view of `Registers`, and the spec
//! functions [`step_regs`], [`logic_of`], [`step_spec`] and
//! [`run_spec`] give the exact state after one phase, one cycle, or a
//! whole run.

mod decode;
mod execute;
mod fetch;
mod memory;
mod writeback;

pub use crate::isa::InstrT;
pub use crate::isa::SimError;
pub use decode::{compute_decode, id_logic_of, IDLogic, IFIDLatch};
pub use execute::{
    compute_execute, ex_logic_of, forward_one, has_r1, has_r2, uses_imm, uses_pc, EXLogic,
    IDEXLatch,
};
pub use fetch::{compute_fetch, if_logic_of, IFLogic};
pub use memory::{
    compute_mem_read, compute_store_write, extract_byte, extract_half, load_value, mem_logic_of,
    mem_word, sign_extend_byte, sign_extend_half, store_result, store_word_merge,
    store_write_spec, EXMEMLatch, MEMLogic,
};
pub use writeback::{compute_writeback, wb_logic_of, wb_selector, wb_value, MEMWBLatch, WBLogic};

use crate::isa::OP_STORE;
use std::collections::hash_map::HashMap;
use vstd::prelude::*;

verus! {

broadcast use vstd::std_specs::hash::group_hash_axioms;

/// The stateful components of the processor: each pipeline latch, the
/// program counter, the program image, the register file, and the
/// sparse data memory.
#[derive(Clone)]
pub struct Registers {
    pub ifid: IFIDLatch,
    pub idex: IDEXLatch,
    pub exmem: EXMEMLatch,
    pub memwb: MEMWBLatch,
    pub pc: u32,
    pub instr_mem: Vec<u32>,
    pub reg_mem: Vec<u32>,
    pub data_mem: HashMap<u32, u32>,
}

/// The combinational side: the five per-stage bundles of derived
/// values, fully recomputed every cycle from the current `Registers`
/// snapshot. It carries no state of its own across cycles.
#[derive(Clone, Default)]
pub struct Logic {
    pub fetch: IFLogic,
    pub decode: IDLogic,
    pub execute: EXLogic,
    pub memory: MEMLogic,
    pub writeback: WBLogic,
}

/// The mathematical model of the machine state: `Registers` with its
/// program image and register file as sequences and its data memory as
/// a map.
#[verifier::ext_equal]
pub ghost struct RegModel {
    pub ifid: IFIDLatch,
    pub idex: IDEXLatch,
    pub exmem: EXMEMLatch,
    pub memwb: MEMWBLatch,
    pub pc: u32,
    pub instr_mem: Seq<u32>,
    pub reg_mem: Seq<u32>,
    pub data_mem: Map<u32, u32>,
}

impl RegModel {
    /// Structural soundness of a machine state: the register file has
    /// exactly 32 entries, and the program image is small enough that
    /// the end-of-program count fits a 32-bit word.
    pub open spec fn wf(self) -> bool {
        self.reg_mem.len() == 32 && self.instr_mem.len() <= 0x00FF_FFFF
    }
}

impl View for Registers {
    type V = RegModel;

    open spec fn view(&self) -> RegModel {
        RegModel {
            ifid: self.ifid,
            idex: self.idex,
            exmem: self.exmem,
            memwb: self.memwb,
            pc: self.pc,
            instr_mem: self.instr_mem@,
            reg_mem: self.reg_mem@,
            data_mem: self.data_mem@,
        }
    }
}

impl Registers {
    /// Structural soundness; see `RegModel::wf`.
    pub open spec fn wf(&self) -> bool {
        self@.wf()
    }
}

/// The machine state after the clock edge: every latch takes the value
/// the previous cycle's logic decided for it, the store in EX/MEM (if
/// any) reaches the data memory, the retiring MEM/WB destination is
/// written to the register file (writes to register 0 are discarded),
/// and the program counter takes the next-PC the fetch logic chose.
///
/// A taken jump or branch redirects the program counter from execute,
/// so the two younger instructions already fetched down the sequential
/// path are wrong-path: both latches behind execute become bubbles and
/// those instructions never produce a result.
///
/// The faults, in the order they are checked: the store's, then a
/// retiring destination index of 32 or more.
pub open spec fn step_regs(m: RegModel, l: Logic) -> Result<RegModel, SimError>
    recommends
        m.wf(),
{
    let old_rd = m.memwb.rd_index;
    let dm = if m.exmem.opcode == OP_STORE {
        store_result(m.exmem, old_rd, l.writeback.wb_data, m.data_mem)
    } else {
        Ok(m.data_mem)
    };
    let ifid_next = IFIDLatch {
        base_pc: m.pc,
        added_pc: l.fetch.pcadder_out,
        instruction: l.fetch.instruction_out,
        id_stall: m.ifid.id_stall,
    };
    let idex_next = IDEXLatch {
        base_pc: m.ifid.base_pc,
        added_pc: m.ifid.added_pc,
        r1_data: l.decode.regmem_r1,
        r2_data: l.decode.regmem_r2,
        immediates: l.decode.immediates,
        rd_index: l.decode.decode_rd,
        opcode: l.decode.decode_opcode,
        funct3: l.decode.decode_funct3,
        funct7: l.decode.decode_funct7,
        r2_index: l.decode.decode_r2,
        r1_index: l.decode.decode_r1,
        instruction: m.ifid.instruction,
        ex_stall: m.idex.ex_stall,
    };
    match dm {
        Err(e) => Err(e),
        Ok(data_mem2) => if old_rd >= 32 {
            Err(SimError::InvalidRegisterWrite)
        } else {
            Ok(
                RegModel {
                    ifid: if l.fetch.jumped {
                        IFIDLatch { base_pc: 0, added_pc: 0, instruction: 0, ..ifid_next }
                    } else {
                        ifid_next
                    },
                    idex: if l.fetch.jumped {
                        IDEXLatch {
                            base_pc: 0,
                            added_pc: 0,
                            r1_data: 0,
                            r2_data: 0,
                            immediates: 0,
                            rd_index: 0,
                            opcode: 0,
                            funct3: 0,
                            r1_index: 0,
                            r2_index: 0,
                            instruction: 0,
                            ..idex_next
                        }
                    } else {
                        idex_next
                    },
                    exmem: EXMEMLatch {
                        added_pc: m.idex.added_pc,
                        alu_output: l.execute.alu_output,
                        mem_data_in: l.execute.formux_r2,
                        rd_index: m.idex.rd_index,
                        opcode: m.idex.opcode,
                        funct3: m.idex.funct3,
                        instruction: m.idex.instruction,
                        mem_stall: m.exmem.mem_stall,
                    },
                    memwb: MEMWBLatch {
                        added_pc: m.exmem.added_pc,
                        alu_output: m.exmem.alu_output,
                        mem_data_out: l.memory.mem_data_out,
                        rd_index: m.exmem.rd_index,
                        opcode: m.exmem.opcode,
                        instruction: m.exmem.instruction,
                        wb_stall: m.memwb.wb_stall,
                    },
                    pc: l.fetch.pcmux_out,
                    instr_mem: m.instr_mem,
                    reg_mem: if old_rd != 0 {
                        m.reg_mem.update(old_rd as int, l.writeback.wb_data)
                    } else {
                        m.reg_mem
                    },
                    data_mem: data_mem2,
                },
            )
        },
    }
}

/// All five stages of combinational logic as a function of a machine
/// state. The faults, in the order the stages are evaluated: the
/// execute stage's (an opcode without execute semantics, a malformed
/// funct combination, an oversized shift), then decode's (an
/// unrecognized opcode), then the memory stage's (a misaligned or
/// malformed load).
pub open spec fn logic_of(m: RegModel) -> Result<Logic, SimError>
    recommends
        m.wf(),
{
    let wb = wb_logic_of(m.memwb);
    match ex_logic_of(m.idex, m.exmem, m.memwb.rd_index, wb.wb_data) {
        Err(e) => Err(e),
        Ok(ex) => match id_logic_of(m.ifid, m.memwb.rd_index, wb.wb_data, m.reg_mem) {
            Err(e) => Err(e),
            Ok(id) => match mem_logic_of(m.exmem, m.data_mem) {
                Err(e) => Err(e),
                Ok(meml) => Ok(
                    Logic {
                        fetch: if_logic_of(
                            m.pc,
                            m.idex.opcode,
                            ex.alu_output,
                            ex.branch_taken,
                            m.instr_mem,
                        ),
                        decode: id,
                        execute: ex,
                        memory: meml,
                        writeback: wb,
                    },
                ),
            },
        },
    }
}

/// One whole clock cycle over the model: the register phase, then the
/// logic phase on its outcome. The triple gives the exact machine
/// state, logic, and verdict afterwards; on a fault the phases before
/// it have taken effect and nothing after it has.
pub open spec fn step_spec(m: RegModel, l: Logic) -> (RegModel, Logic, Result<(), SimError>) {
    match step_regs(m, l) {
        Err(e) => (m, l, Err(e)),
        Ok(m2) => match logic_of(m2) {
            Err(e) => (m2, l, Err(e)),
            Ok(l2) => (m2, l2, Ok(())),
        },
    }
}

/// The program count at which a run is over: the pipeline has fetched
/// past the program image and a drain buffer of 5 slots.
pub open spec fn end_of_program_count(m: RegModel) -> int {
    (m.instr_mem.len() as int + 5) * 4
}

/// A bounded run over the model: up to `fuel` cycles, stopping after
/// the first cycle that leaves the program counter at or past the
/// end-of-program count, or at the first fault. The verdict is
/// `Ok(true)` when the end was reached, `Ok(false)` when the fuel ran
/// out first.
pub open spec fn run_spec(m: RegModel, l: Logic, fuel: nat) -> (RegModel, Logic, Result<
    bool,
    SimError,
>)
    decreases fuel,
{
    if fuel == 0 {
        (m, l, Ok(false))
    } else {
        let stepped = step_spec(m, l);
        match stepped.2 {
            Err(e) => (stepped.0, stepped.1, Err(e)),
            Ok(_) => if stepped.0.pc >= end_of_program_count(stepped.0) {
                (stepped.0, stepped.1, Ok(true))
            } else {
                run_spec(stepped.0, stepped.1, (fuel - 1) as nat)
            },
        }
    }
}

impl Registers {
    /// The register phase of a cycle: commits every latch transfer,
    /// the data-memory store, and the register-file write that
    /// `logic`, computed from the previous snapshot, decided. On a
    /// fault nothing is changed.
    pub fn update(&mut self, logic: &Logic) -> (r: Result<(), SimError>)
        requires
            old(self).wf(),
        ensures
            match step_regs(old(self)@, *logic) {
                Ok(m2) => r is Ok && final(self)@ == m2,
                Err(e) => r == Err::<(), SimError>(e) && final(self)@ == old(self)@,
            },
            final(self).wf(),
    {
        let old_rd = self.memwb.rd_index;
        let store_write: Option<(u32, u32)> = if self.exmem.opcode == OP_STORE {
            match compute_store_write(&self.exmem, old_rd, logic.writeback.wb_data, &self.data_mem) {
                Ok(p) => Some(p),
                Err(e) => {
                    return Err(e);
                },
            }
        } else {
            None
        };
        if old_rd >= 32 {
            return Err(SimError::InvalidRegisterWrite);
        }
        // MEM-WB latch, from the old EX-MEM latch.
        self.memwb.added_pc = self.exmem.added_pc;
        self.memwb.alu_output = self.exmem.alu_output;
        self.memwb.mem_data_out = logic.memory.mem_data_out;
        self.memwb.rd_index = self.exmem.rd_index;
        self.memwb.opcode = self.exmem.opcode;
        self.memwb.instruction = self.exmem.instruction;
        // Data memory, from the store the old EX-MEM latch held.
        match store_write {
            Some((w, nw)) => {
                self.data_mem.insert(w, nw);
            },
            None => {},
        }
        // EX-MEM latch, from the old ID-EX latch and the execute logic.
        self.exmem.added_pc = self.idex.added_pc;
        self.exmem.alu_output = logic.execute.alu_output;
        self.exmem.mem_data_in = logic.execute.formux_r2;
        self.exmem.rd_index = self.idex.rd_index;
        self.exmem.opcode = self.idex.opcode;
        self.exmem.funct3 = self.idex.funct3;
        self.exmem.instruction = self.idex.instruction;
        // ID-EX latch, from the old IF-ID latch and the decode logic.
        self.idex.base_pc = self.ifid.base_pc;
        self.idex.added_pc = self.ifid.added_pc;
        self.idex.r1_data = logic.decode.regmem_r1;
        self.idex.r2_data = logic.decode.regmem_r2;
        self.idex.immediates = logic.decode.immediates;
        self.idex.rd_index = logic.decode.decode_rd;
        self.idex.opcode = logic.decode.decode_opcode;
        self.idex.funct3 = logic.decode.decode_funct3;
        self.idex.funct7 = logic.decode.decode_funct7;
        self.idex.r2_index = logic.decode.decode_r2;
        self.idex.r1_index = logic.decode.decode_r1;
        self.idex.instruction = self.ifid.instruction;
        // Register file, from the retiring MEM-WB destination; a write
        // to register 0 is discarded, never applied.
        if old_rd != 0 {
            self.reg_mem.set(old_rd as usize, logic.writeback.wb_data);
        }
        // IF-ID latch and program counter, from the fetch logic.
        self.ifid.base_pc = self.pc;
        self.ifid.added_pc = logic.fetch.pcadder_out;
        self.ifid.instruction = logic.fetch.instruction_out;
        self.pc = logic.fetch.pcmux_out;
        // A taken jump or branch squashes the two wrong-path
        // instructions fetched down the sequential path.
        if logic.fetch.jumped {
            self.ifid.bubble();
            self.idex.bubble();
        }
        proof {
            assert(self@ =~= step_regs(old(self)@, *logic)->Ok_0);
        }
        Ok(())
    }
}

impl Logic {
    /// The logic phase of a cycle: recomputes all five stages'
    /// combinational outputs from the current `Registers` snapshot.
    /// On a fault nothing is changed.
    pub fn update(&mut self, state: &Registers) -> (r: Result<(), SimError>)
        requires
            state.wf(),
        ensures
            match logic_of(state@) {
                Ok(l2) => r is Ok && *final(self) == l2,
                Err(e) => r == Err::<(), SimError>(e) && *final(self) == *old(self),
            },
    {
        let wb = compute_writeback(&state.memwb);
        let ex = match compute_execute(&state.idex, &state.exmem, state.memwb.rd_index, wb.wb_data)
            {
            Ok(x) => x,
            Err(e) => {
                return Err(e);
            },
        };
        let id = match compute_decode(&state.ifid, state.memwb.rd_index, wb.wb_data, &state.reg_mem)
            {
            Ok(x) => x,
            Err(e) => {
                return Err(e);
            },
        };
        let meml = match compute_mem_read(&state.exmem, &state.data_mem) {
            Ok(x) => x,
            Err(e) => {
                return Err(e);
            },
        };
        let f = compute_fetch(state.pc, state.idex.opcode, ex.alu_output, ex.branch_taken, &state.instr_mem);
        self.fetch = f;
        self.decode = id;
        self.execute = ex;
        self.memory = meml;
        self.writeback = wb;
        Ok(())
    }
}

/// Advances the simulation one clock cycle: first the latch transfers
/// decided by the previous cycle's logic are committed, then all five
/// stages of logic are recomputed from the new snapshot. On a fault
/// the phases before it have taken effect and nothing after it has;
/// `step_spec` gives the state, logic and verdict exactly.
pub fn step(state: &mut Registers, logic: &mut Logic) -> (r: Result<(), SimError>)
    requires
        old(state).wf(),
    ensures
        ({
            let stepped = step_spec(old(state)@, *old(logic));
            final(state)@ == stepped.0 && *final(logic) == stepped.1 && r == stepped.2
        }),
        final(state).wf(),
{
    match state.update(logic) {
        Ok(_) => {},
        Err(e) => {
            return Err(e);
        },
    }
    match logic.update(state) {
        Ok(_) => {},
        Err(e) => {
            return Err(e);
        },
    }
    Ok(())
}

/// Runs the simulated processor for at most `max_steps` cycles,
/// stopping after the first cycle that carries the program counter to
/// or past the end-of-program count (the program image's length plus a
/// drain buffer of 5 slots, in words of 4). Returns `Ok(true)` when
/// the program ran to that point, `Ok(false)` when the cycle budget
/// ran out first, and the fault if one arose; `run_spec` gives the
/// state, logic and verdict exactly.
pub fn run_program(state: &mut Registers, logic: &mut Logic, max_steps: u64) -> (r: Result<
    bool,
    SimError,
>)
    requires
        old(state).wf(),
    ensures
        ({
            let ran = run_spec(old(state)@, *old(logic), max_steps as nat);
            final(state)@ == ran.0 && *final(logic) == ran.1 && r == ran.2
        }),
        final(state).wf(),
{
    let eop_program_count: u32 = ((state.instr_mem.len() as u32) + 5) * 4;
    let mut steps_left: u64 = max_steps;
    loop
        invariant
            state.wf(),
            eop_program_count == end_of_program_count(state@),
            run_spec(old(state)@, *old(logic), max_steps as nat) == run_spec(
                state@,
                *logic,
                steps_left as nat,
            ),
        decreases steps_left,
    {
        if steps_left == 0 {
            return Ok(false);
        }
        match step(state, logic) {
            Ok(_) => {},
            Err(e) => {
                return Err(e);
            },
        }
        steps_left = steps_left - 1;
        if state.pc >= eop_program_count {
            return Ok(true);
        }
    }
}

} // verus!
