use pipeline_sim::components::{
    run_program, EXMEMLatch, IDEXLatch, IFIDLatch, Logic, MEMWBLatch, Registers,
};
use std::collections::hash_map::HashMap;

#[test]
fn smoke_test() {
    // A single huge program with many varied instructions.
    // Serves as a simple "are there bugs?" test, like a cheksum.
    let instructions = Vec::<u32>::from([
        0b00000000000100000000000010010011, //addi $r1, $r0, 1,
        0b00000000001000000000000100010011, //addi $r2, $r0, 2
        0b00000000011000010000000110010011, //addi $r3, $r2, 6
        0b00000000001000000000001000010011, //addi $r4, $r0, 2
        0b00000000000100000000001010010011, //addi $r5, $r0, 1
    ]);

    let mut state = Registers {
        ifid: IFIDLatch::default(),
        idex: IDEXLatch::default(),
        exmem: EXMEMLatch::default(),
        memwb: MEMWBLatch::default(),

        pc: 0,

        instr_mem: instructions,
        reg_mem: vec![0; 32], //makes a vector of 32 zeroes.
        data_mem: HashMap::new(),
    };

    let mut logic = Logic::default();

    assert_eq!(run_program(&mut state, &mut logic, 100000), Ok(true));

    //Checks for output correctness.
    assert_eq!(state.reg_mem[0], 0);
    assert_eq!(state.reg_mem[1], 1);
    assert_eq!(state.reg_mem[2], 2);
    assert_eq!(state.reg_mem[3], 8);
    assert_eq!(state.reg_mem[4], 2);
    assert_eq!(state.reg_mem[5], 1);
    for i in 6..32 {
        assert_eq!(state.reg_mem[i], 0);
    }
}

#[test]
fn lui() {
    // tries a few LUI instructions.
    // Load Upper Immediate:
    // rd = imm << 12
    let instructions = Vec::<u32>::from([
        //    immediate      || rd||opcod|
        0b00000000000000000001000010110111, //lui $r1, 1
        0b00000000000000000010000100110111, //lui $r2, 2
        0b00000000000000001000000110110111, //lui $r3, 8
        0b00000000000000000010001000110111, //lui $r4, 2
        0b11111111111111111111001010110111, //lui $r5, 0b1111111...
    ]);

    let mut state = Registers {
        ifid: IFIDLatch::default(),
        idex: IDEXLatch::default(),
        exmem: EXMEMLatch::default(),
        memwb: MEMWBLatch::default(),

        pc: 0,

        instr_mem: instructions,
        reg_mem: vec![0; 32],
        data_mem: HashMap::new(),
    };

    let mut logic = Logic::default();

    assert_eq!(run_program(&mut state, &mut logic, 100000), Ok(true));

    //Checks for output correctness.
    // rd = imm << 12
    assert_eq!(state.reg_mem[0], (0 as u32) << 12);
    assert_eq!(state.reg_mem[1], (1 as u32) << 12);
    assert_eq!(state.reg_mem[2], (2 as u32) << 12);
    assert_eq!(state.reg_mem[3], (8 as u32) << 12);
    assert_eq!(state.reg_mem[4], (2 as u32) << 12);
    assert_eq!(state.reg_mem[5], (0b11111111111111111111 as u32) << 12);
}

#[test]
fn auipc() {
    // tries a few AUIPC instructions.
    // Add Upper Immediate (to) Program Count:
    // rd = PC + (imm << 12)
    let instructions = Vec::<u32>::from([
        //    immediate      || rd||opcod|
        0b00000000000000001000000010010111, //auipc $r1, 8
        0b00000000000000000100000100010111, //auipc $r2, 4
        0b00000000000000001000000110010111, //auipc $r3, 8
        0b00000000000000000100001000010111, //auipc $r4, 4
        0b00000000000000000000001010010111, //auipc $r5, 0
    ]);

    let mut state = Registers {
        ifid: IFIDLatch::default(),
        idex: IDEXLatch::default(),
        exmem: EXMEMLatch::default(),
        memwb: MEMWBLatch::default(),

        pc: 0,

        instr_mem: instructions,
        reg_mem: vec![0; 32],
        data_mem: HashMap::new(),
    };

    let mut logic = Logic::default();

    assert_eq!(run_program(&mut state, &mut logic, 100000), Ok(true));

    //Checks for output correctness.
    // rd = (imm << 12) + PC
    assert_eq!(state.reg_mem[0], (0 as u32) << 12);
    assert_eq!(state.reg_mem[1], (8 as u32) << 12); //PC = 0
    assert_eq!(state.reg_mem[2], ((4 as u32) << 12) + 4); //PC = 4
    assert_eq!(state.reg_mem[3], ((8 as u32) << 12) + 8); //PC = 8
    assert_eq!(state.reg_mem[4], ((4 as u32) << 12) + 12); //PC = 12
    assert_eq!(state.reg_mem[5], ((0 as u32) << 12) + 16); //PC = 16
}

#[test]
fn addi() {
    // ADD Immediate:
    // rd = r1 + imm
    let instructions = Vec::<u32>::from([
        //I-Type:           f3
        //|__imm_____||_r1|000|_rd||__op_|
        0b00000000000100000000000010010011, //addi $r1, $r0, 1
        0b00000000001000000000000100010011, //addi $r2, $r0, 2
        0b00000000011000010000000110010011, //addi $r3, $r2, 6
        0b00000000001000000000001000010011, //addi $r4, $r0, 2
        0b00000000000100000000001010010011, //addi $r5, $r0, 1
    ]);

    let mut state = Registers {
        ifid: IFIDLatch::default(),
        idex: IDEXLatch::default(),
        exmem: EXMEMLatch::default(),
        memwb: MEMWBLatch::default(),

        pc: 0,

        instr_mem: instructions,
        reg_mem: vec![0; 32],
        data_mem: HashMap::new(),
    };

    let mut logic = Logic::default();

    assert_eq!(run_program(&mut state, &mut logic, 100000), Ok(true));

    //Checks for output correctness.
    assert_eq!(state.reg_mem[0], 0);
    assert_eq!(state.reg_mem[1], 1);
    assert_eq!(state.reg_mem[2], 2);
    assert_eq!(state.reg_mem[3], 8);
    assert_eq!(state.reg_mem[4], 2);
    assert_eq!(state.reg_mem[5], 1);
    for i in 6..32 {
        assert_eq!(state.reg_mem[i], 0);
    }
}

#[test]
fn slti() {
    // Set Less Than Immediate:
    // rd = if (r1 < imm) then 1, else 0
    let instructions = Vec::<u32>::from([
        //I-Type:           f3
        //|__imm_____||_r1|000|_rd||__op_|
        0b00000000000100000000000010010011, //addi $r1, $r0, 1,
        0b00000000001000000000000100010011, //addi $r2, $r0, 2
        0b00000000011000010000000110010011, //addi $r3, $r2, 6
        0b00000000001000000000001000010011, //addi $r4, $r0, 2
        0b00000000000100000000001010010011, //addi $r5, $r0, 1
        //U-type:
        //|_____imm__________||_rd||__op_|
        0b11111111111111111111001100110111, //lui $r6, 0b1111111...
        //I-Type:           f3
        //|__imm_____||_r1|010|_rd||__op_|
        0b00000000010000001010001110010011, //slti $r7, $r1, 4
        0b00000000010000010010010000010011, //slti $r8, $r2, 4
        0b00000000010000011010010010010011, //slti $r9, $r3, 4
        0b00000000010000100010010100010011, //slti $r10, $r4, 4
        0b00000000010000101010010110010011, //slti $r11, $r5, 4
        0b00000000010000110010011000010011, //slti $r12, $r6, 4
    ]);

    let mut state = Registers {
        ifid: IFIDLatch::default(),
        idex: IDEXLatch::default(),
        exmem: EXMEMLatch::default(),
        memwb: MEMWBLatch::default(),

        pc: 0,

        instr_mem: instructions,
        reg_mem: vec![0; 32],
        data_mem: HashMap::new(),
    };

    let mut logic = Logic::default();

    assert_eq!(run_program(&mut state, &mut logic, 100000), Ok(true));

    //Checks for output correctness.
    assert_eq!(state.reg_mem[0], 0);
    assert_eq!(state.reg_mem[1], 1);
    assert_eq!(state.reg_mem[2], 2);
    assert_eq!(state.reg_mem[3], 8);
    assert_eq!(state.reg_mem[4], 2);
    assert_eq!(state.reg_mem[5], 1);
    assert_eq!(state.reg_mem[6], 0b11111111111111111111 << 12);
    assert_eq!(state.reg_mem[7], 1);
    assert_eq!(state.reg_mem[8], 1);
    assert_eq!(state.reg_mem[9], 0);
    assert_eq!(state.reg_mem[10], 1);
    assert_eq!(state.reg_mem[11], 1);
    //This is signed,  so $r6 should be read as a negative number. This IS less than!
    assert_eq!(state.reg_mem[12], 1);
    for i in 13..32 {
        assert_eq!(state.reg_mem[i], 0);
    }
}

#[test]
fn sltiu() {
    // Set Less Than Immediate Unsigned:
    // rd = if (r1 < imm {unsigned}) then 1, else 0
    let instructions = Vec::<u32>::from([
        //I-Type:           f3
        //|__imm_____||_r1|000|_rd||__op_|
        0b00000000000100000000000010010011, //addi $r1, $r0, 1,
        0b00000000001000000000000100010011, //addi $r2, $r0, 2
        0b00000000011000010000000110010011, //addi $r3, $r2, 6
        0b00000000001000000000001000010011, //addi $r4, $r0, 2
        0b00000000000100000000001010010011, //addi $r5, $r0, 1
        //U-type:
        //|_____imm__________||_rd||__op_|
        0b11111111111111111111001100110111, //lui $r6, 0b1111111...
        //I-Type:           f3
        //|__imm_____||_r1|011|_rd||__op_|
        0b00000000010000001011001110010011, //sltiu $r7, $r1, 4
        0b00000000010000010011010000010011, //sltiu $r8, $r2, 4
        0b00000000010000011011010010010011, //sltiu $r9, $r3, 4
        0b00000000010000100011010100010011, //sltiu $r10, $r4, 4
        0b00000000010000101011010110010011, //sltiu $r11, $r5, 4
        0b00000000010000110011011000010011, //sltiu $r12, $r6, 4
    ]);

    let mut state = Registers {
        ifid: IFIDLatch::default(),
        idex: IDEXLatch::default(),
        exmem: EXMEMLatch::default(),
        memwb: MEMWBLatch::default(),

        pc: 0,

        instr_mem: instructions,
        reg_mem: vec![0; 32],
        data_mem: HashMap::new(),
    };

    let mut logic = Logic::default();

    assert_eq!(run_program(&mut state, &mut logic, 100000), Ok(true));

    //Checks for output correctness.
    assert_eq!(state.reg_mem[0], 0);
    assert_eq!(state.reg_mem[1], 1);
    assert_eq!(state.reg_mem[2], 2);
    assert_eq!(state.reg_mem[3], 8);
    assert_eq!(state.reg_mem[4], 2);
    assert_eq!(state.reg_mem[5], 1);
    assert_eq!(state.reg_mem[6], 0b11111111111111111111 << 12);
    assert_eq!(state.reg_mem[7], 1);
    assert_eq!(state.reg_mem[8], 1);
    assert_eq!(state.reg_mem[9], 0);
    assert_eq!(state.reg_mem[10], 1);
    assert_eq!(state.reg_mem[11], 1);
    //This is unsigned,  so $r6 should be read as a huge positive number. This IS NOT less than!
    assert_eq!(state.reg_mem[12], 0);
    for i in 13..32 {
        assert_eq!(state.reg_mem[i], 0);
    }
}

#[test]
fn xori() {
    // eXclusive OR Immediate:
    // rd = r1 xor imm
    let instructions = Vec::<u32>::from([
        0b00000000000100000000000010010011, //addi $r1, $r0, 1
        0b00000000001000000000000100010011, //addi $r2, $r0, 2
        0b00000000011000010000000110010011, //addi $r3, $r2, 6
        //I-Type:           f3
        //|__imm_____||_r1|100|_rd||__op_|
        0b01111111111100001100001000010011, //xori $r4, $r1, 0b011111111111
        0b01111111111100010100001010010011, //xori $r5, $r2, 0b011111111111
        0b01111111111100011100001100010011, //xori $r6, $r3, 0b011111111111
    ]);

    let mut state = Registers {
        ifid: IFIDLatch::default(),
        idex: IDEXLatch::default(),
        exmem: EXMEMLatch::default(),
        memwb: MEMWBLatch::default(),

        pc: 0,

        instr_mem: instructions,
        reg_mem: vec![0; 32],
        data_mem: HashMap::new(),
    };

    let mut logic = Logic::default();

    assert_eq!(run_program(&mut state, &mut logic, 100000), Ok(true));

    //Checks for output correctness.
    assert_eq!(state.reg_mem[0], 0);
    assert_eq!(state.reg_mem[1], 1);
    assert_eq!(state.reg_mem[2], 2);
    assert_eq!(state.reg_mem[3], 8);
    assert_eq!(state.reg_mem[4], 0b011111111110);
    assert_eq!(state.reg_mem[5], 0b011111111101);
    assert_eq!(state.reg_mem[6], 0b011111110111);
    for i in 7..32 {
        assert_eq!(state.reg_mem[i], 0);
    }
}

#[test]
fn ori() {
    // OR Immediate:
    // rd = r1 | imm
    let instructions = Vec::<u32>::from([
        0b00000000000100000000000010010011, //addi $r1, $r0, 1
        0b00000000001000000000000100010011, //addi $r2, $r0, 2
        0b00000000011000010000000110010011, //addi $r3, $r2, 6
        0b00000000000000000000000000000000,
        0b00000000000000000000000000000000,
        0b00000000000000000000000000000000,
        //I-Type:           f3
        //|__imm_____||_r1|110|_rd||__op_|
        0b01111111000100001110001000010011, //ori $r4, $r1, 0b011111110001
        0b01111111000100010110001010010011, //ori $r5, $r2, 0b011111110001
        0b01111111000100011110001100010011, //ori $r6, $r3, 0b011111110001
    ]);

    let mut state = Registers {
        ifid: IFIDLatch::default(),
        idex: IDEXLatch::default(),
        exmem: EXMEMLatch::default(),
        memwb: MEMWBLatch::default(),

        pc: 0,

        instr_mem: instructions,
        reg_mem: vec![0; 32],
        data_mem: HashMap::new(),
    };

    let mut logic = Logic::default();

    assert_eq!(run_program(&mut state, &mut logic, 100000), Ok(true));

    //Checks for output correctness.
    assert_eq!(state.reg_mem[0], 0);
    assert_eq!(state.reg_mem[1], 1);
    assert_eq!(state.reg_mem[2], 2);
    assert_eq!(state.reg_mem[3], 8);
    assert_eq!(state.reg_mem[4], 0b011111110001);
    assert_eq!(state.reg_mem[5], 0b011111110011);
    assert_eq!(state.reg_mem[6], 0b011111111001);
    for i in 7..32 {
        assert_eq!(state.reg_mem[i], 0);
    }
}

#[test]
fn andi() {
    // AND Immediate:
    // rd = r1 & imm
    let instructions = Vec::<u32>::from([
        0b00000001000100000000000010010011, //addi $r1, $r0, 17
        0b00000001001000000000000100010011, //addi $r2, $r0, 18
        0b00000001100000000000000110010011, //addi $r3, $r0, 24
        0b00000000000000000000000000000000,
        0b00000000000000000000000000000000,
        0b00000000000000000000000000000000,
        //I-Type:           f3
        //|__imm_____||_r1|111|_rd||__op_|
        0b01111110111100001111001000010011, //andi $r4, $r1, 0b011111101111
        0b01111110111100010111001010010011, //andi $r5, $r2, 0b011111101111
        0b01111110111100011111001100010011, //andi $r6, $r3, 0b011111101111
    ]);

    let mut state = Registers {
        ifid: IFIDLatch::default(),
        idex: IDEXLatch::default(),
        exmem: EXMEMLatch::default(),
        memwb: MEMWBLatch::default(),

        pc: 0,

        instr_mem: instructions,
        reg_mem: vec![0; 32],
        data_mem: HashMap::new(),
    };

    let mut logic = Logic::default();

    assert_eq!(run_program(&mut state, &mut logic, 100000), Ok(true));

    //Checks for output correctness.
    assert_eq!(state.reg_mem[0], 0);
    assert_eq!(state.reg_mem[1], 17);
    assert_eq!(state.reg_mem[2], 18);
    assert_eq!(state.reg_mem[3], 24);
    assert_eq!(state.reg_mem[4], 1);
    assert_eq!(state.reg_mem[5], 2);
    assert_eq!(state.reg_mem[6], 8);
    for i in 7..32 {
        assert_eq!(state.reg_mem[i], 0);
    }
}

#[test]
fn slli() {
    // Shift Left Logical Immediate
    // rd = r1 << shf
    let instructions = Vec::<u32>::from([
        0b01010101010100000000000010010011, //addi $r1, $r0, 0b010101010101
        0b00000000000000000000000000000000,
        0b00000000000000000000000000000000,
        0b00000000000000000000000000000000,
        // I-type: Shift variation
        //0000000|shf||_r1|001|_rd||__op_|
        0b00000000000100001001000100010011, //slli $r2, $r1, 1
        0b00000000001000001001000110010011, //slli $r3, $r1, 2
        0b00000000001100001001001000010011, //slli $r4, $r1, 3
        0b00000001111100001001001010010011, //slli $r5, $r1, 31
    ]);

    let mut state = Registers {
        ifid: IFIDLatch::default(),
        idex: IDEXLatch::default(),
        exmem: EXMEMLatch::default(),
        memwb: MEMWBLatch::default(),

        pc: 0,

        instr_mem: instructions,
        reg_mem: vec![0; 32],
        data_mem: HashMap::new(),
    };

    let mut logic = Logic::default();

    assert_eq!(run_program(&mut state, &mut logic, 100000), Ok(true));

    //Checks for output correctness.
    assert_eq!(state.reg_mem[0], 0);
    assert_eq!(state.reg_mem[1], 0b010101010101);
    assert_eq!(state.reg_mem[2], 0b0101010101010);
    assert_eq!(state.reg_mem[3], 0b01010101010100);
    assert_eq!(state.reg_mem[4], 0b010101010101000);
    assert_eq!(state.reg_mem[5], 0b10000000000000000000000000000000);
    for i in 6..32 {
        assert_eq!(state.reg_mem[i], 0);
    }
}

#[test]
fn srli() {
    // Shift Right Logical Immediate
    // rd = r1 << shf  {shift 0's into new bits}
    let instructions = Vec::<u32>::from([
        0b10010010010010010011000010110111, //lui $r1, 0b10010010010010010011
        0b00000000000000000000000000000000,
        0b00000000000000000000000000000000,
        0b00000000000000000000000000000000,
        0b00000000000000000000000000000000,
        // I-type: Shift variation
        //0000000|shf||_r1|101|_rd||__op_|
        0b00000000000100001101000100010011, //srli $r2, $r1, 1
        0b00000000001000001101000110010011, //srli $r3, $r1, 2
        0b00000000001100001101001000010011, //srli $r4, $r1, 3
        0b00000001111100001101001010010011, //srli $r5, $r1, 31
    ]);

    let mut state = Registers {
        ifid: IFIDLatch::default(),
        idex: IDEXLatch::default(),
        exmem: EXMEMLatch::default(),
        memwb: MEMWBLatch::default(),

        pc: 0,

        instr_mem: instructions,
        reg_mem: vec![0; 32],
        data_mem: HashMap::new(),
    };

    let mut logic = Logic::default();

    assert_eq!(run_program(&mut state, &mut logic, 100000), Ok(true));

    //Checks for output correctness.
    assert_eq!(state.reg_mem[0], 0);
    assert_eq!(state.reg_mem[1], 0b10010010010010010011 << 12);
    assert_eq!(state.reg_mem[2], 0b10010010010010010011 << 11);
    assert_eq!(state.reg_mem[3], 0b10010010010010010011 << 10);
    assert_eq!(state.reg_mem[4], 0b10010010010010010011 << 9);
    assert_eq!(state.reg_mem[5], 1);
    for i in 6..32 {
        assert_eq!(state.reg_mem[i], 0);
    }
}

#[test]
fn srai() {
    // Shift Right Arithmetic Immediate
    // rd = r1 << shf {shift sign bit into new bits}
    let instructions = Vec::<u32>::from([
        0b10010010010010010011000010110111, //lui $r1, 0b10010010010010010011
        0b01010010010010010011000100110111, //lui $r2, 0b01010010010010010011
        0b00000000000000000000000000000000,
        0b00000000000000000000000000000000,
        0b00000000000000000000000000000000,
        0b00000000000000000000000000000000,
        // I-type: Shift variation
        //0100000|shf||_r1|101|_rd||__op_|
        0b01000000000100001101000110010011, //srai $r3, $r1, 1
        0b01000000001000001101001000010011, //srai $r4, $r1, 2
        0b01000000001100001101001010010011, //srai $r5, $r1, 3
        0b01000001111100001101001100010011, //srai $r6, $r1, 31
        0b01000000000100010101001110010011, //srai $r7, $r2, 1
        0b01000000001000010101010000010011, //srai $r8, $r2, 2
        0b01000000001100010101010010010011, //srai $r9, $r2, 3
        0b01000001111100010101010100010011, //srai $r10, $r2, 31
    ]);

    let mut state = Registers {
        ifid: IFIDLatch::default(),
        idex: IDEXLatch::default(),
        exmem: EXMEMLatch::default(),
        memwb: MEMWBLatch::default(),

        pc: 0,

        instr_mem: instructions,
        reg_mem: vec![0; 32],
        data_mem: HashMap::new(),
    };

    let mut logic = Logic::default();

    assert_eq!(run_program(&mut state, &mut logic, 100000), Ok(true));

    //Checks for output correctness.
    assert_eq!(state.reg_mem[0], 0);
    assert_eq!(state.reg_mem[1], 0b10010010010010010011 << 12);
    assert_eq!(state.reg_mem[2], 0b01010010010010010011 << 12);
    assert_eq!(state.reg_mem[3], 0b110010010010010010011 << 11);
    assert_eq!(state.reg_mem[4], 0b1110010010010010010011 << 10);
    assert_eq!(state.reg_mem[5], 0b11110010010010010010011 << 9);
    assert_eq!(state.reg_mem[6], 0b11111111111111111111111111111111);
    assert_eq!(state.reg_mem[7], 0b01010010010010010011 << 11);
    assert_eq!(state.reg_mem[8], 0b01010010010010010011 << 10);
    assert_eq!(state.reg_mem[9], 0b01010010010010010011 << 9);
    assert_eq!(state.reg_mem[10], 0);

    for i in 11..32 {
        assert_eq!(state.reg_mem[i], 0);
    }
}

#[test]
fn add() {
    // ADD:
    // rd = r1 + r2
    let instructions = Vec::<u32>::from([
        //I-Type:           f3
        //|__imm_____||_r1|000|_rd||__op_|
        0b00000000001100000000000010010011, //addi $r1, $r0, 3
        0b00000000011000000000000100010011, //addi $r2, $r0, 6
        //R-Type:           f3
        //0000000|_r2||_r1|000|_rd||__op_|
        0b00000000001000001000000110110011, //add $r3, $r1, $r2
    ]);

    let mut state = Registers {
        ifid: IFIDLatch::default(),
        idex: IDEXLatch::default(),
        exmem: EXMEMLatch::default(),
        memwb: MEMWBLatch::default(),

        pc: 0,

        instr_mem: instructions,
        reg_mem: vec![0; 32],
        data_mem: HashMap::new(),
    };

    let mut logic = Logic::default();

    assert_eq!(run_program(&mut state, &mut logic, 100000), Ok(true));

    //Checks for output correctness.
    assert_eq!(state.reg_mem[0], 0);
    assert_eq!(state.reg_mem[1], 3);
    assert_eq!(state.reg_mem[2], 6);
    assert_eq!(state.reg_mem[3], 9);
    for i in 4..32 {
        assert_eq!(state.reg_mem[i], 0);
    }
}

#[test]
fn sub() {
    // SUB:
    // rd = r1 = r2
    let instructions = Vec::<u32>::from([
        //I-Type:           f3
        //|__imm_____||_r1|000|_rd||__op_|
        0b00000000001100000000000010010011, //addi $r1, $r0, 3
        0b00000000011000000000000100010011, //addi $r2, $r0, 6
        //R-Type:           f3
        //0100000|_r2||_r1|000|_rd||__op_|
        0b01000000000100010000000110110011, //sub $r3, $r2, $r1
        0b01000000001000001000001000110011, //sub $r4, $r1, $r2
    ]);

    let mut state = Registers {
        ifid: IFIDLatch::default(),
        idex: IDEXLatch::default(),
        exmem: EXMEMLatch::default(),
        memwb: MEMWBLatch::default(),

        pc: 0,

        instr_mem: instructions,
        reg_mem: vec![0; 32],
        data_mem: HashMap::new(),
    };

    let mut logic = Logic::default();

    assert_eq!(run_program(&mut state, &mut logic, 100000), Ok(true));

    //Checks for output correctness.
    assert_eq!(state.reg_mem[0], 0);
    assert_eq!(state.reg_mem[1], 3);
    assert_eq!(state.reg_mem[2], 6);
    assert_eq!(state.reg_mem[3], 3);
    assert_eq!(state.reg_mem[4], (i32::from(-3)) as u32);
    for i in 5..32 {
        assert_eq!(state.reg_mem[i], 0);
    }
}

#[test]
fn sll() {
    // Shift Left Logical
    // rd = r1 << r2[0:4]
    let instructions = Vec::<u32>::from([
        0b01010101010100000000000010010011, //addi $r1, $r0, 0b010101010101
        0b00000000000100000000001100010011, //addi $r6, $r0, 1
        0b00000000001000000000001110010011, //addi $r7, $r0, 2
        0b00000000001100000000010000010011, //addi $r8, $r0, 3
        0b00000001111100000000010010010011, //addi $r9, $r0, 31
        0b00000000000000000000000000000000,
        0b00000000000000000000000000000000,
        0b00000000000000000000000000000000,
        // R-type:
        //0000000|_r2||_r1|001|_rd||__op_|
        0b00000000011000001001000100110011, //sll $r2, $r1, $r6
        0b00000000011100001001000110110011, //sll $r3, $r1, $r7
        0b00000000100000001001001000110011, //sll $r4, $r1, $r8
        0b00000000100100001001001010110011, //sll $r5, $r1, $r9
    ]);

    let mut state = Registers {
        ifid: IFIDLatch::default(),
        idex: IDEXLatch::default(),
        exmem: EXMEMLatch::default(),
        memwb: MEMWBLatch::default(),

        pc: 0,

        instr_mem: instructions,
        reg_mem: vec![0; 32],
        data_mem: HashMap::new(),
    };

    let mut logic = Logic::default();

    assert_eq!(run_program(&mut state, &mut logic, 100000), Ok(true));

    //Checks for output correctness.
    assert_eq!(state.reg_mem[0], 0);
    assert_eq!(state.reg_mem[1], 0b010101010101);
    assert_eq!(state.reg_mem[2], 0b0101010101010);
    assert_eq!(state.reg_mem[3], 0b01010101010100);
    assert_eq!(state.reg_mem[4], 0b010101010101000);
    assert_eq!(state.reg_mem[5], 0b10000000000000000000000000000000);
    assert_eq!(state.reg_mem[6], 1);
    assert_eq!(state.reg_mem[7], 2);
    assert_eq!(state.reg_mem[8], 3);
    assert_eq!(state.reg_mem[9], 31);
    for i in 10..32 {
        assert_eq!(state.reg_mem[i], 0);
    }
}

#[test]
fn slt() {
    // Set Less Than:
    // rd = if (r1 < r2) then 1, else 0
    let instructions = Vec::<u32>::from([
        //I-Type:           f3
        //|__imm_____||_r1|000|_rd||__op_|
        0b00000000000100000000000010010011, //addi $r1, $r0, 1,
        0b00000000001000000000000100010011, //addi $r2, $r0, 2
        0b00000000011000010000000110010011, //addi $r3, $r2, 6
        0b00000000001000000000001000010011, //addi $r4, $r0, 2
        0b00000000000100000000001010010011, //addi $r5, $r0, 1
        0b00000000010000000000011010010011, //addi $r13, $r0, 4
        //U-type:
        //|_____imm__________||_rd||__op_|
        0b11111111111111111111001100110111, //lui $r6, 0b1111111...
        //R-Type:           f3
        //0000000|_r2||_r1|010|_rd||__op_|
        0b00000000110100001010001110110011, //slt $r7, $r1, $r13
        0b00000000110100010010010000110011, //slt $r8, $r2, $r13
        0b00000000110100011010010010110011, //slt $r9, $r3, $r13
        0b00000000110100100010010100110011, //slt $r10, $r4, $r13
        0b00000000110100101010010110110011, //slt $r11, $r5, $r13
        0b00000000110100110010011000110011, //slt $r12, $r6, $r13
    ]);

    let mut state = Registers {
        ifid: IFIDLatch::default(),
        idex: IDEXLatch::default(),
        exmem: EXMEMLatch::default(),
        memwb: MEMWBLatch::default(),

        pc: 0,

        instr_mem: instructions,
        reg_mem: vec![0; 32],
        data_mem: HashMap::new(),
    };

    let mut logic = Logic::default();

    assert_eq!(run_program(&mut state, &mut logic, 100000), Ok(true));

    //Checks for output correctness.
    assert_eq!(state.reg_mem[0], 0);
    assert_eq!(state.reg_mem[1], 1);
    assert_eq!(state.reg_mem[2], 2);
    assert_eq!(state.reg_mem[3], 8);
    assert_eq!(state.reg_mem[4], 2);
    assert_eq!(state.reg_mem[5], 1);
    assert_eq!(state.reg_mem[6], 0b11111111111111111111 << 12);
    assert_eq!(state.reg_mem[7], 1);
    assert_eq!(state.reg_mem[8], 1);
    assert_eq!(state.reg_mem[9], 0);
    assert_eq!(state.reg_mem[10], 1);
    assert_eq!(state.reg_mem[11], 1);
    //This is signed,  so $r6 should be read as a negative number. This IS less than!
    assert_eq!(state.reg_mem[12], 1);
    assert_eq!(state.reg_mem[13], 4);
    for i in 14..32 {
        assert_eq!(state.reg_mem[i], 0);
    }
}

#[test]
fn sltu() {
    // Set Less Than Unsigned:
    // rd = if (r1 <{unsigned} r2) then 1, else 0
    let instructions = Vec::<u32>::from([
        //I-Type:           f3
        //|__imm_____||_r1|000|_rd||__op_|
        0b00000000000100000000000010010011, //addi $r1, $r0, 1,
        0b00000000001000000000000100010011, //addi $r2, $r0, 2
        0b00000000011000010000000110010011, //addi $r3, $r2, 6
        0b00000000001000000000001000010011, //addi $r4, $r0, 2
        0b00000000000100000000001010010011, //addi $r5, $r0, 1
        0b00000000010000000000011010010011, //addi $r13, $r0, 4
        //U-type:
        //|_____imm__________||_rd||__op_|
        0b11111111111111111111001100110111, //lui $r6, 0b1111111...
        //R-Type:           f3
        //0000000|_r2||_r1|011|_rd||__op_|
        0b00000000110100001011001110110011, //sltu $r7, $r1, $r13
        0b00000000110100010011010000110011, //sltu $r8, $r2, $r13
        0b00000000110100011011010010110011, //sltu $r9, $r3, $r13
        0b00000000110100100011010100110011, //sltu $r10, $r4, $r13
        0b00000000110100101011010110110011, //sltu $r11, $r5, $r13
        0b00000000110100110011011000110011, //sltu $r12, $r6, $r13
    ]);

    let mut state = Registers {
        ifid: IFIDLatch::default(),
        idex: IDEXLatch::default(),
        exmem: EXMEMLatch::default(),
        memwb: MEMWBLatch::default(),

        pc: 0,

        instr_mem: instructions,
        reg_mem: vec![0; 32],
        data_mem: HashMap::new(),
    };

    let mut logic = Logic::default();

    assert_eq!(run_program(&mut state, &mut logic, 100000), Ok(true));

    //Checks for output correctness.
    assert_eq!(state.reg_mem[0], 0);
    assert_eq!(state.reg_mem[1], 1);
    assert_eq!(state.reg_mem[2], 2);
    assert_eq!(state.reg_mem[3], 8);
    assert_eq!(state.reg_mem[4], 2);
    assert_eq!(state.reg_mem[5], 1);
    assert_eq!(state.reg_mem[6], 0b11111111111111111111 << 12);
    assert_eq!(state.reg_mem[7], 1);
    assert_eq!(state.reg_mem[8], 1);
    assert_eq!(state.reg_mem[9], 0);
    assert_eq!(state.reg_mem[10], 1);
    assert_eq!(state.reg_mem[11], 1);
    //This is unsigned,  so $r6 should be read as a big positive number. This IS NOT less than!
    assert_eq!(state.reg_mem[12], 0);
    assert_eq!(state.reg_mem[13], 4);
    for i in 14..32 {
        assert_eq!(state.reg_mem[i], 0);
    }
}

#[test]
fn xor() {
    // eXclusive OR:
    // rd = r1 xor r2
    let instructions = Vec::<u32>::from([
        0b00000000000100000000000010010011, //addi $r1, $r0, 1
        0b00000000001000000000000100010011, //addi $r2, $r0, 2
        0b00000000011000010000000110010011, //addi $r3, $r2, 6
        0b01111111111100000000001110010011, //addi $r7, $r0, 0b011111111111
        //R-Type:           f3
        //0000000|_r2||_r1|100|_rd||__op_|
        0b00000000011100001100001000110011, //xor $r4, $r1, 0b011111111111
        0b00000000011100010100001010110011, //xor $r5, $r2, 0b011111111111
        0b00000000011100011100001100110011, //xor $r6, $r3, 0b011111111111
    ]);

    let mut state = Registers {
        ifid: IFIDLatch::default(),
        idex: IDEXLatch::default(),
        exmem: EXMEMLatch::default(),
        memwb: MEMWBLatch::default(),

        pc: 0,

        instr_mem: instructions,
        reg_mem: vec![0; 32],
        data_mem: HashMap::new(),
    };

    let mut logic = Logic::default();

    assert_eq!(run_program(&mut state, &mut logic, 100000), Ok(true));

    //Checks for output correctness.
    assert_eq!(state.reg_mem[0], 0);
    assert_eq!(state.reg_mem[1], 1);
    assert_eq!(state.reg_mem[2], 2);
    assert_eq!(state.reg_mem[3], 8);
    assert_eq!(state.reg_mem[4], 0b011111111110);
    assert_eq!(state.reg_mem[5], 0b011111111101);
    assert_eq!(state.reg_mem[6], 0b011111110111);
    assert_eq!(state.reg_mem[7], 0b011111111111);
    for i in 8..32 {
        assert_eq!(state.reg_mem[i], 0);
    }
}

#[test]
fn srl() {
    // Shift Right Logical
    // rd = r1 << shf  {shift 0's into new bits}
    let instructions = Vec::<u32>::from([
        0b10010010010010010011000010110111, //lui $r1, 0b10010010010010010011
        0b00000000000100000000001100010011, //addi $r6, $r0, 1
        0b00000000001000000000001110010011, //addi $r7, $r0, 2
        0b00000000001100000000010000010011, //addi $r8, $r0, 3
        0b00000001111100000000010010010011, //addi $r9, $r0, 31
        // R-type: Shift variation
        //0000000|_r2||_r1|101|_rd||__op_|
        0b00000000011000001101000100110011, //srl $r2, $r1, $r6
        0b00000000011100001101000110110011, //srl $r3, $r1, $r7
        0b00000000100000001101001000110011, //srl $r4, $r1, $r8
        0b00000000100100001101001010110011, //srl $r5, $r1, $r9
    ]);

    let mut state = Registers {
        ifid: IFIDLatch::default(),
        idex: IDEXLatch::default(),
        exmem: EXMEMLatch::default(),
        memwb: MEMWBLatch::default(),

        pc: 0,

        instr_mem: instructions,
        reg_mem: vec![0; 32],
        data_mem: HashMap::new(),
    };

    let mut logic = Logic::default();

    assert_eq!(run_program(&mut state, &mut logic, 100000), Ok(true));

    //Checks for output correctness.
    assert_eq!(state.reg_mem[0], 0);
    assert_eq!(state.reg_mem[1], 0b10010010010010010011 << 12);
    assert_eq!(state.reg_mem[2], 0b10010010010010010011 << 11);
    assert_eq!(state.reg_mem[3], 0b10010010010010010011 << 10);
    assert_eq!(state.reg_mem[4], 0b10010010010010010011 << 9);
    assert_eq!(state.reg_mem[5], 1);
    assert_eq!(state.reg_mem[6], 1);
    assert_eq!(state.reg_mem[7], 2);
    assert_eq!(state.reg_mem[8], 3);
    assert_eq!(state.reg_mem[9], 31);
    for i in 10..32 {
        assert_eq!(state.reg_mem[i], 0);
    }
}

#[test]
fn sra() {
    // Shift Right Arithmetic
    // rd = r1 << r2 {shift sign bit into new bits}
    let instructions = Vec::<u32>::from([
        0b10010010010010010011000010110111, //lui $r1, 0b10010010010010010011
        0b01010010010010010011000100110111, //lui $r2, 0b01010010010010010011
        0b00000000000100000000010110010011, //addi $r11, $r0, 1
        0b00000000001000000000011000010011, //addi $r12, $r0, 2
        0b00000000001100000000011010010011, //addi $r13, $r0, 3
        0b00000001111100000000011100010011, //addi $r14, $r0, 31
        // R-type: Shift variation
        //0100000|_r2||_r1|101|_rd||__op_|
        0b01000000101100001101000110110011, //srai $r3, $r1, $r11
        0b01000000110000001101001000110011, //srai $r4, $r1, $r12
        0b01000000110100001101001010110011, //srai $r5, $r1, $r13
        0b01000000111000001101001100110011, //srai $r6, $r1, $r14
        0b01000000101100010101001110110011, //srai $r7, $r2, $r11
        0b01000000110000010101010000110011, //srai $r8, $r2, $r12
        0b01000000110100010101010010110011, //srai $r9, $r2, $r13
        0b01000000111000010101010100110011, //srai $r10, $r2, $r14
    ]);

    let mut state = Registers {
        ifid: IFIDLatch::default(),
        idex: IDEXLatch::default(),
        exmem: EXMEMLatch::default(),
        memwb: MEMWBLatch::default(),

        pc: 0,

        instr_mem: instructions,
        reg_mem: vec![0; 32],
        data_mem: HashMap::new(),
    };

    let mut logic = Logic::default();

    assert_eq!(run_program(&mut state, &mut logic, 100000), Ok(true));

    //Checks for output correctness.
    assert_eq!(state.reg_mem[0], 0);
    assert_eq!(state.reg_mem[1], 0b10010010010010010011 << 12);
    assert_eq!(state.reg_mem[2], 0b01010010010010010011 << 12);
    assert_eq!(state.reg_mem[3], 0b110010010010010010011 << 11);
    assert_eq!(state.reg_mem[4], 0b1110010010010010010011 << 10);
    assert_eq!(state.reg_mem[5], 0b11110010010010010010011 << 9);
    assert_eq!(state.reg_mem[6], 0b11111111111111111111111111111111);
    assert_eq!(state.reg_mem[7], 0b01010010010010010011 << 11);
    assert_eq!(state.reg_mem[8], 0b01010010010010010011 << 10);
    assert_eq!(state.reg_mem[9], 0b01010010010010010011 << 9);
    assert_eq!(state.reg_mem[10], 0);
    assert_eq!(state.reg_mem[11], 1);
    assert_eq!(state.reg_mem[12], 2);
    assert_eq!(state.reg_mem[13], 3);
    assert_eq!(state.reg_mem[14], 31);

    for i in 15..32 {
        assert_eq!(state.reg_mem[i], 0);
    }
}

#[test]
fn or() {
    // OR:
    // rd = r1 | r2
    let instructions = Vec::<u32>::from([
        0b00000000000100000000000010010011, //addi $r1, $r0, 1
        0b00000000001000000000000100010011, //addi $r2, $r0, 2
        0b00000000011000010000000110010011, //addi $r3, $r2, 6
        0b01111111000100000000001110010011, //addi $r7, $r0, 0b011111110001
        //R-Type:           f3
        //0000000|_r2||_r1|110|_rd||__op_|
        0b00000000011100001110001000110011, //or $r4, $r1, $r7
        0b00000000011100010110001010110011, //or $r5, $r2, $r7
        0b00000000011100011110001100110011, //or $r6, $r3, $r7
    ]);

    let mut state = Registers {
        ifid: IFIDLatch::default(),
        idex: IDEXLatch::default(),
        exmem: EXMEMLatch::default(),
        memwb: MEMWBLatch::default(),

        pc: 0,

        instr_mem: instructions,
        reg_mem: vec![0; 32],
        data_mem: HashMap::new(),
    };

    let mut logic = Logic::default();

    assert_eq!(run_program(&mut state, &mut logic, 100000), Ok(true));

    //Checks for output correctness.
    assert_eq!(state.reg_mem[0], 0);
    assert_eq!(state.reg_mem[1], 1);
    assert_eq!(state.reg_mem[2], 2);
    assert_eq!(state.reg_mem[3], 8);
    assert_eq!(state.reg_mem[4], 0b011111110001);
    assert_eq!(state.reg_mem[5], 0b011111110011);
    assert_eq!(state.reg_mem[6], 0b011111111001);
    assert_eq!(state.reg_mem[7], 0b011111110001);
    for i in 8..32 {
        assert_eq!(state.reg_mem[i], 0);
    }
}

#[test]
fn and() {
    // AND:
    // rd = r1 & r2
    let instructions = Vec::<u32>::from([
        0b00000001000100000000000010010011, //addi $r1, $r0, 17
        0b00000001001000000000000100010011, //addi $r2, $r0, 18
        0b00000001100000000000000110010011, //addi $r3, $r0, 24
        0b01111110111100000000001110010011, //addi $r7, $r0, 0b011111101111
        //R-Type:           f3
        //0000000|_r2||_r1|111|_rd||__op_|
        0b00000000011100001111001000110011, //and $r4, $r1, $r7
        0b00000000011100010111001010110011, //and $r5, $r2, $r7
        0b00000000011100011111001100110011, //and $r6, $r3, $r7
    ]);

    let mut state = Registers {
        ifid: IFIDLatch::default(),
        idex: IDEXLatch::default(),
        exmem: EXMEMLatch::default(),
        memwb: MEMWBLatch::default(),

        pc: 0,

        instr_mem: instructions,
        reg_mem: vec![0; 32],
        data_mem: HashMap::new(),
    };

    let mut logic = Logic::default();

    assert_eq!(run_program(&mut state, &mut logic, 100000), Ok(true));

    //Checks for output correctness.
    assert_eq!(state.reg_mem[0], 0);
    assert_eq!(state.reg_mem[1], 17);
    assert_eq!(state.reg_mem[2], 18);
    assert_eq!(state.reg_mem[3], 24);
    assert_eq!(state.reg_mem[4], 1);
    assert_eq!(state.reg_mem[5], 2);
    assert_eq!(state.reg_mem[6], 8);
    assert_eq!(state.reg_mem[7], 0b011111101111);
    for i in 8..32 {
        assert_eq!(state.reg_mem[i], 0);
    }
}
