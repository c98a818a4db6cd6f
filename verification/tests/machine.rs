use emu8086::{ByteReg, EmuError, Processor, WordReg};

#[test]
fn round_trip_word_move_register_to_register() {
    // Opcode 0x89, ModRM 0xC1: mode 0b11, reg 000 (AX source), rm 001 (CX
    // destination).
    let mut p = Processor::new();
    p.reset();
    let pc = p.registers.read_word_reg(WordReg::IP);
    assert_eq!(pc, 0xFFF0);
    p.registers.write_word_reg(WordReg::AX, 0xAC24);
    p.memory.write_byte(pc, 0x89);
    p.memory.write_byte(pc + 1, 0xC1);
    let mut cycles: u32 = 2;
    assert_eq!(p.execute(&mut cycles), Ok(()));
    assert_eq!(cycles, 0);
    assert_eq!(p.registers.read_word_reg(WordReg::CX), 0xAC24);
    assert_eq!(p.registers.read_word_reg(WordReg::AX), 0xAC24);
    assert_eq!(p.registers.read_word_reg(WordReg::IP), 0xFFF2);
}

#[test]
fn byte_move_register_to_register() {
    // Opcode 0x88, ModRM 0xE3: mode 0b11, reg 100 (AH source), rm 011 (BL
    // destination) — the byte mapping differs from the word one at 4..7.
    let mut p = Processor::new();
    p.registers.write_byte_reg(ByteReg::AH, 0x5A);
    p.memory.write_byte(0, 0x88);
    p.memory.write_byte(1, 0xE3);
    let mut cycles: u32 = 2;
    assert_eq!(p.execute(&mut cycles), Ok(()));
    assert_eq!(p.registers.read_byte_reg(ByteReg::BL), 0x5A);
    assert_eq!(p.registers.read_byte_reg(ByteReg::AH), 0x5A);
    assert_eq!(p.registers.read_word_reg(WordReg::IP), 2);
}

#[test]
fn word_move_to_memory_through_bx() {
    // Opcode 0x89, ModRM 0x07: mode 0b00, reg 000 (AX source), rm 111 ([BX]).
    let mut p = Processor::new();
    p.registers.write_word_reg(WordReg::BX, 0x4000);
    p.registers.write_word_reg(WordReg::AX, 0xBEEF);
    p.memory.write_byte(0, 0x89);
    p.memory.write_byte(1, 0x07);
    let mut cycles: u32 = 2;
    assert_eq!(p.step(&mut cycles), Ok(()));
    // Little-endian: low byte first.
    assert_eq!(p.memory.read_byte(0x4000), 0xEF);
    assert_eq!(p.memory.read_byte(0x4001), 0xBE);
    // Opcode plus ModRM, no displacement: the pointer advanced by exactly 2.
    assert_eq!(p.registers.read_word_reg(WordReg::IP), 2);
    assert_eq!(cycles, 0);
}

#[test]
fn byte_move_to_memory_with_displacement() {
    // Opcode 0x88, ModRM 0x47, disp8 0x10: mode 0b01, reg 000 (AL), [BX+16].
    let mut p = Processor::new();
    p.registers.write_word_reg(WordReg::BX, 0x2000);
    p.registers.write_byte_reg(ByteReg::AL, 0x77);
    p.memory.write_byte(0, 0x88);
    p.memory.write_byte(1, 0x47);
    p.memory.write_byte(2, 0x10);
    let mut cycles: u32 = 3;
    assert_eq!(p.execute(&mut cycles), Ok(()));
    assert_eq!(p.memory.read_byte(0x2010), 0x77);
    assert_eq!(p.registers.read_word_reg(WordReg::IP), 3);
    assert_eq!(cycles, 0);
}

#[test]
fn move_instructions_preserve_flags() {
    let mut p = Processor::new();
    p.registers.write_byte_reg(ByteReg::FlagsL, 0xD5);
    p.registers.write_byte_reg(ByteReg::FlagsH, 0x0A);
    p.registers.write_word_reg(WordReg::AX, 0x1234);
    p.memory.write_byte(0, 0x89);
    p.memory.write_byte(1, 0xC3); // AX -> BX
    let mut cycles: u32 = 2;
    assert_eq!(p.execute(&mut cycles), Ok(()));
    assert_eq!(p.registers.read_byte_reg(ByteReg::FlagsL), 0xD5);
    assert_eq!(p.registers.read_byte_reg(ByteReg::FlagsH), 0x0A);
}

#[test]
fn cycle_accounting_single_byte_instructions() {
    // A field of 0x90 (NOP): execute(n) consumes exactly n cycles and
    // performs exactly n fetches, advancing the pointer by n.
    let mut p = Processor::new();
    for a in 0..64u16 {
        p.memory.write_byte(a, 0x90);
    }
    let mut cycles: u32 = 5;
    assert_eq!(p.execute(&mut cycles), Ok(()));
    assert_eq!(cycles, 0);
    assert_eq!(p.registers.read_word_reg(WordReg::IP), 5);
}

#[test]
fn partial_budget_completes_started_instruction() {
    // A 2-byte move with a budget of 1: once the opcode is fetched the
    // instruction completes; the budget saturates at zero mid-instruction
    // and the run stops past the instruction boundary.
    let mut p = Processor::new();
    p.registers.write_word_reg(WordReg::AX, 0x0102);
    p.memory.write_byte(0, 0x89);
    p.memory.write_byte(1, 0xC1);
    let mut cycles: u32 = 1;
    assert_eq!(p.execute(&mut cycles), Ok(()));
    assert_eq!(cycles, 0);
    assert_eq!(p.registers.read_word_reg(WordReg::IP), 2);
    assert_eq!(p.registers.read_word_reg(WordReg::CX), 0x0102);
}

#[test]
fn zero_budget_executes_nothing() {
    let mut p = Processor::new();
    p.memory.write_byte(0, 0x90);
    let mut cycles: u32 = 0;
    assert_eq!(p.execute(&mut cycles), Ok(()));
    assert_eq!(cycles, 0);
    assert_eq!(p.registers.read_word_reg(WordReg::IP), 0);
}

#[test]
fn unknown_opcode_reports_and_mutates_nothing_beyond_fetch() {
    let mut p = Processor::new();
    p.registers.write_word_reg(WordReg::AX, 0x1234);
    p.registers.write_word_reg(WordReg::SP, 0x8000);
    p.memory.write_byte(0, 0xF4); // no table entry
    p.memory.write_byte(1, 0x90);
    let mut cycles: u32 = 10;
    assert_eq!(p.execute(&mut cycles), Err(EmuError::UnimplementedOpcode));
    // One cycle for the opcode fetch, the pointer one past it, nothing else.
    assert_eq!(cycles, 9);
    assert_eq!(p.registers.read_word_reg(WordReg::IP), 1);
    assert_eq!(p.registers.read_word_reg(WordReg::AX), 0x1234);
    assert_eq!(p.registers.read_word_reg(WordReg::SP), 0x8000);
    assert_eq!(p.memory.read_byte(0), 0xF4);
    assert_eq!(p.memory.read_byte(1), 0x90);
    assert_eq!(p.memory.read_byte(2), 0x00);
}

#[test]
fn error_stops_the_run_midway() {
    let mut p = Processor::new();
    p.memory.write_byte(0, 0x90);
    p.memory.write_byte(1, 0x00); // undefined
    let mut cycles: u32 = 8;
    assert_eq!(p.execute(&mut cycles), Err(EmuError::UnimplementedOpcode));
    assert_eq!(cycles, 6);
    assert_eq!(p.registers.read_word_reg(WordReg::IP), 2);
}

#[test]
fn fetch_wraps_at_top_of_address_space() {
    let mut p = Processor::new();
    p.registers.write_word_reg(WordReg::IP, 0xFFFF);
    p.memory.write_byte(0xFFFF, 0x90);
    p.memory.write_byte(0x0000, 0x90);
    let mut cycles: u32 = 2;
    assert_eq!(p.execute(&mut cycles), Ok(()));
    assert_eq!(p.registers.read_word_reg(WordReg::IP), 1);
}

#[test]
fn word_store_wraps_at_top_of_address_space() {
    // [BX] at 0xFFFF: the high byte lands at 0x0000.
    let mut p = Processor::new();
    p.registers.write_word_reg(WordReg::BX, 0xFFFF);
    p.registers.write_word_reg(WordReg::CX, 0xA1B2);
    p.memory.write_byte(0, 0x89);
    p.memory.write_byte(1, 0x0F); // mode 00, reg 001 (CX), rm 111 ([BX])
    let mut cycles: u32 = 2;
    assert_eq!(p.execute(&mut cycles), Ok(()));
    assert_eq!(p.memory.read_byte(0xFFFF), 0xB2);
    assert_eq!(p.memory.read_byte(0x0000), 0xA1);
}

#[test]
fn fetch_inst_advances_pointer_and_charges_one_cycle() {
    let mut p = Processor::new();
    p.memory.write_byte(0x0010, 0xAB);
    p.registers.write_word_reg(WordReg::IP, 0x0010);
    let mut cycles: u32 = 3;
    assert_eq!(p.fetch_inst(&mut cycles), 0xAB);
    assert_eq!(cycles, 2);
    assert_eq!(p.registers.read_word_reg(WordReg::IP), 0x0011);
    // The budget saturates at zero rather than wrapping.
    let mut none: u32 = 0;
    p.fetch_inst(&mut none);
    assert_eq!(none, 0);
}

#[test]
fn processor_reset_clears_memory_and_registers() {
    let mut p = Processor::new();
    p.memory.write_byte(0x1234, 0x99);
    p.registers.write_word_reg(WordReg::DX, 0x7777);
    p.reset();
    assert_eq!(p.memory.read_byte(0x1234), 0);
    assert_eq!(p.registers.read_word_reg(WordReg::DX), 0);
    assert_eq!(p.registers.read_word_reg(WordReg::IP), 0xFFF0);
}

#[test]
fn memory_word_access_is_little_endian() {
    let mut p = Processor::new();
    p.memory.write_word(0x0100, 0xCAFE);
    assert_eq!(p.memory.read_byte(0x0100), 0xFE);
    assert_eq!(p.memory.read_byte(0x0101), 0xCA);
    assert_eq!(p.memory.read_word(0x0100), 0xCAFE);
    p.memory.write_word(0xFFFF, 0x1122);
    assert_eq!(p.memory.read_byte(0xFFFF), 0x22);
    assert_eq!(p.memory.read_byte(0x0000), 0x11);
    assert_eq!(p.memory.read_word(0xFFFF), 0x1122);
}
