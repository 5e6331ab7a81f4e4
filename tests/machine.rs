use lc3_vm::machine::{ConditionFlag, VMError, MR_KBDR, MR_KBSR, REG_RET};
use lc3_vm::memory::{Memory, MemoryError};
use lc3_vm::opcodes::{Argument, DecodeError, Opcode, TrapCode};
use lc3_vm::util::{sign_ext_imm11, sign_ext_imm5, sign_ext_imm6, sign_ext_imm9};
use lc3_vm::vm::{ConsoleNeed, VM};

fn image(words: &[u16]) -> Vec<u8> {
    let mut bytes = vec![0x30, 0x00];
    for w in words {
        bytes.push((w >> 8) as u8);
        bytes.push((w & 0xFF) as u8);
    }
    bytes
}

#[test]
fn sign_extension_boundaries() {
    assert_eq!(sign_ext_imm5(0b01111), 15);
    assert_eq!(sign_ext_imm5(0b10000), -16);
    assert_eq!(sign_ext_imm5(0b11111), -1);
    assert_eq!(sign_ext_imm6(0b011111), 31);
    assert_eq!(sign_ext_imm6(0b100000), -32);
    assert_eq!(sign_ext_imm9(0b0_1111_1111), 255);
    assert_eq!(sign_ext_imm9(0b1_0000_0000), -256);
    assert_eq!(sign_ext_imm11(0b011_1111_1111), 1023);
    assert_eq!(sign_ext_imm11(0b100_0000_0000), -1024);
    // bits above the field are ignored
    assert_eq!(sign_ext_imm5(0xFFE0 | 0b00011), 3);
}

#[test]
fn sign_extension_keeps_low_bits() {
    for field in 0u16..32 {
        assert_eq!((sign_ext_imm5(field) as u16) & 0x1F, field);
    }
    for field in 0u16..64 {
        assert_eq!((sign_ext_imm6(field) as u16) & 0x3F, field);
    }
    for field in 0u16..512 {
        assert_eq!((sign_ext_imm9(field) as u16) & 0x1FF, field);
    }
    for field in 0u16..2048 {
        assert_eq!((sign_ext_imm11(field) as u16) & 0x7FF, field);
    }
}

#[test]
fn decode_boundary_offsets() {
    assert_eq!(
        Opcode::decode(0b0001_000_000_1_10000),
        Ok(Opcode::ADD { dr: 0, sr1: 0, sr2: Argument::Immediate(-16) })
    );
    assert_eq!(
        Opcode::decode(0b0101_111_111_1_01111),
        Ok(Opcode::AND { dr: 7, sr1: 7, sr2: Argument::Immediate(15) })
    );
    assert_eq!(Opcode::decode(0b0100_1_10000000000), Ok(Opcode::JSR { offset: -1024 }));
    assert_eq!(Opcode::decode(0b0100_1_01111111111), Ok(Opcode::JSR { offset: 1023 }));
    assert_eq!(
        Opcode::decode(0b0110_001_010_100000),
        Ok(Opcode::LDR { dr: 1, base_r: 2, offset: -32 })
    );
    assert_eq!(
        Opcode::decode(0b0000_111_011111111),
        Ok(Opcode::BR { n: true, z: true, p: true, offset: 255 })
    );
    assert_eq!(Opcode::decode(0b0010_000_100000000), Ok(Opcode::LD { dr: 0, offset: -256 }));
}

#[test]
fn decode_unmapped_trap_code_fails() {
    assert_eq!(Opcode::decode(0xF026), Err(DecodeError::InvalidTrapCode(0x26)));
    assert_eq!(Opcode::decode(0xF000), Err(DecodeError::InvalidTrapCode(0)));
    assert_eq!(Opcode::decode(0xF025), Ok(Opcode::TRAP { trap_code: TrapCode::Halt }));
}

#[test]
fn and_immediate_negative() {
    let mut vm = VM::new(&image(&[]));
    vm.reg_set(1, 0xABCD);
    vm.execute(Opcode::AND { dr: 2, sr1: 1, sr2: Argument::Immediate(-16) }, None).unwrap();
    assert_eq!(vm.reg(2), 0xABC0);
    assert_eq!(vm.cond_flag(), ConditionFlag::Neg);
}

#[test]
fn add_immediate_wraps_to_zero() {
    let mut vm = VM::new(&image(&[]));
    vm.reg_set(1, 0xFFFF);
    vm.execute(Opcode::ADD { dr: 0, sr1: 1, sr2: Argument::Immediate(1) }, None).unwrap();
    assert_eq!(vm.reg(0), 0);
    assert_eq!(vm.cond_flag(), ConditionFlag::Zero);
}

#[test]
fn flags_follow_sign_of_result() {
    let mut vm = VM::new(&image(&[]));
    assert_eq!(vm.cond_flag(), ConditionFlag::Unset);
    vm.execute(Opcode::ADD { dr: 0, sr1: 1, sr2: Argument::Immediate(-5) }, None).unwrap();
    assert_eq!(vm.reg(0), 0xFFFB);
    assert_eq!(vm.cond_flag(), ConditionFlag::Neg);
    vm.execute(Opcode::AND { dr: 0, sr1: 0, sr2: Argument::Immediate(0) }, None).unwrap();
    assert_eq!(vm.cond_flag(), ConditionFlag::Zero);
    vm.execute(Opcode::ADD { dr: 0, sr1: 0, sr2: Argument::Immediate(5) }, None).unwrap();
    assert_eq!(vm.cond_flag(), ConditionFlag::Pos);
    vm.execute(Opcode::NOT { dr: 3, sr: 0 }, None).unwrap();
    assert_eq!(vm.reg(3), 0xFFFA);
    assert_eq!(vm.cond_flag(), ConditionFlag::Neg);
}

#[test]
fn branch_scenarios_from_0x3005() {
    let mut vm = VM::new(&image(&[]));
    vm.set_pc(0x3005);
    vm.set_cond_flag(ConditionFlag::Pos);
    vm.execute(Opcode::BR { n: false, z: false, p: true, offset: 15 }, None).unwrap();
    assert_eq!(vm.pc(), 0x3005 + 15);

    vm.set_pc(0x3005);
    vm.set_cond_flag(ConditionFlag::Neg);
    vm.execute(Opcode::BR { n: false, z: false, p: true, offset: 15 }, None).unwrap();
    assert_eq!(vm.pc(), 0x3005);

    vm.set_cond_flag(ConditionFlag::Unset);
    vm.execute(Opcode::BR { n: true, z: true, p: true, offset: 15 }, None).unwrap();
    assert_eq!(vm.pc(), 0x3005);
}

#[test]
fn jsrr_links_then_jumps() {
    let mut vm = VM::new(&image(&[]));
    vm.set_pc(0x3005);
    vm.reg_set(3, 0x5000);
    vm.execute(Opcode::JSRR { base_r: 3 }, None).unwrap();
    assert_eq!(vm.reg(REG_RET), 0x3005);
    assert_eq!(vm.pc(), 0x5000);
}

#[test]
fn lea_sets_address_not_contents() {
    let mut vm = VM::new(&image(&[0x1234]));
    vm.execute(Opcode::LEA { dr: 4, offset: -1 }, None).unwrap();
    assert_eq!(vm.reg(4), 0x2FFF);
    assert_eq!(vm.cond_flag(), ConditionFlag::Pos);
}

#[test]
fn stores_reach_memory() {
    let mut vm = VM::new(&image(&[0, 0x3010]));
    vm.reg_set(2, 0xBEEF);
    vm.execute(Opcode::ST { sr: 2, offset: 5 }, None).unwrap();
    assert_eq!(vm.peek(0x3005), 0xBEEF);
    vm.execute(Opcode::STI { sr: 2, offset: 1 }, None).unwrap();
    assert_eq!(vm.peek(0x3010), 0xBEEF);
    vm.reg_set(1, 0x4000);
    vm.execute(Opcode::STR { sr: 2, base_r: 1, offset: -2 }, None).unwrap();
    assert_eq!(vm.peek(0x3FFE), 0xBEEF);
}

#[test]
fn ldr_loads_with_offset() {
    let mut vm = VM::new(&image(&[0x1111, 0x2222]));
    vm.reg_set(5, 0x3002);
    vm.execute(Opcode::LDR { dr: 0, base_r: 5, offset: -1 }, None).unwrap();
    assert_eq!(vm.reg(0), 0x2222);
}

#[test]
fn image_loading_leaves_rest_zero() {
    let vm = VM::new(&[0x30, 0x00, 0xCA, 0xFE, 0xBA, 0xBE]);
    assert_eq!(vm.peek(0x3000), 0xCAFE);
    assert_eq!(vm.peek(0x3001), 0xBABE);
    assert_eq!(vm.peek(0x3002), 0);
    assert_eq!(vm.peek(0x2FFF), 0);
    assert_eq!(vm.pc(), 0x3000);
    assert!(vm.is_running());
}

#[test]
fn image_loading_edges() {
    // a lone last byte is ignored
    let vm = VM::new(&[0x30, 0x00, 0x12, 0x34, 0x56]);
    assert_eq!(vm.peek(0x3000), 0x1234);
    assert_eq!(vm.peek(0x3001), 0);
    // loading stops before the last cell
    let vm = VM::new(&[0xFF, 0xFE, 0x11, 0x11, 0x22, 0x22]);
    assert_eq!(vm.peek(0xFFFE), 0x1111);
    assert_eq!(vm.peek(0xFFFF), 0);
    // no origin: nothing loaded
    let vm = VM::new(&[0x30]);
    assert_eq!(vm.peek(0x3000), 0);
}

#[test]
fn memory_reports_out_of_bounds() {
    let mut mem = Memory::new();
    assert_eq!(mem.read(0xFFFF), Ok(0));
    assert_eq!(mem.write(0xFFFF, 7), Ok(()));
    assert_eq!(mem.read(0xFFFF), Ok(7));
    assert_eq!(mem.read(0x10000), Err(MemoryError::OutOfBoundsRead(0x10000)));
    assert_eq!(mem.write(0x10000, 1), Err(MemoryError::OutOfBoundsWrite(0x10000)));
}

#[test]
fn memory_load_bulk_over_existing_cells() {
    let mut mem = Memory::new();
    mem.write(0x4000, 9).unwrap();
    mem.write(0x4002, 8).unwrap();
    mem.load_bulk(&[0x40, 0x01, 0xAB, 0xCD]);
    assert_eq!(mem.read(0x4000), Ok(9));
    assert_eq!(mem.read(0x4001), Ok(0xABCD));
    assert_eq!(mem.read(0x4002), Ok(8));
}

#[test]
fn keyboard_status_without_input() {
    // LDI R0 through the pointer at 0x3002, which names the status cell
    let mut vm = VM::new(&image(&[0xA001, 0xF025, MR_KBSR]));
    assert_eq!(vm.console_need(), ConsoleNeed::KeyPoll);
    vm.step(None).unwrap();
    assert_eq!(vm.reg(0), 0);
    assert_eq!(vm.cond_flag(), ConditionFlag::Zero);
    assert_eq!(vm.peek(MR_KBSR), 0);
}

#[test]
fn keyboard_status_with_input() {
    let mut vm = VM::new(&image(&[0xA001, 0xF025, MR_KBSR]));
    vm.step(Some(b'q')).unwrap();
    assert_eq!(vm.reg(0), 0x8000);
    assert_eq!(vm.peek(MR_KBSR), 0x8000);
    assert_eq!(vm.peek(MR_KBDR), b'q' as u16);
    assert_eq!(vm.cond_flag(), ConditionFlag::Neg);
}

#[test]
fn puts_writes_string() {
    // LEA R0, #2; PUTS; HALT; "Hi"
    let mut vm = VM::new(&image(&[0xE002, 0xF022, 0xF025, 0x48, 0x69, 0]));
    assert_eq!(vm.console_need(), ConsoleNeed::Nothing);
    assert_eq!(vm.step(None), Ok(vec![]));
    assert_eq!(vm.reg(0), 0x3003);
    assert_eq!(vm.step(None), Ok(b"Hi".to_vec()));
    assert_eq!(vm.reg(REG_RET), 0x3002);
    assert!(vm.is_running());
    assert_eq!(vm.step(None), Ok(vec![]));
    assert!(!vm.is_running());
}

#[test]
fn putsp_writes_packed_string() {
    // LEA R0, #2; PUTSP; HALT; "Hi!" packed two per cell, low byte first
    let mut vm = VM::new(&image(&[0xE002, 0xF024, 0xF025, 0x6948, 0x0021, 0]));
    vm.step(None).unwrap();
    assert_eq!(vm.step(None), Ok(b"Hi!".to_vec()));
}

#[test]
fn out_writes_low_byte() {
    let mut vm = VM::new(&image(&[0xF021]));
    vm.reg_set(0, 0x1241);
    assert_eq!(vm.step(None), Ok(vec![0x41]));
}

#[test]
fn getc_and_in_read_a_character() {
    let mut vm = VM::new(&image(&[0xF020, 0xF023]));
    assert_eq!(vm.console_need(), ConsoleNeed::Char);
    assert_eq!(vm.step(Some(b'x')), Ok(vec![]));
    assert_eq!(vm.reg(0), b'x' as u16);
    assert_eq!(vm.reg(REG_RET), 0x3001);
    assert_eq!(vm.cond_flag(), ConditionFlag::Pos);
    assert_eq!(vm.console_need(), ConsoleNeed::PromptedChar);
    vm.step(Some(b'y')).unwrap();
    assert_eq!(vm.reg(0), b'y' as u16);
}

#[test]
fn step_stops_on_unmapped_trap() {
    let mut vm = VM::new(&image(&[0xF026]));
    assert_eq!(
        vm.step(None),
        Err(VMError::DecodeFailure(DecodeError::InvalidTrapCode(0x26)))
    );
    assert!(!vm.is_running());
    assert_eq!(vm.pc(), 0x3001);
}

#[test]
fn step_stops_on_reserved_opcode() {
    assert_eq!(Opcode::decode(0b1101_0000_0000_0000), Ok(Opcode::RESERVED));
    let mut vm = VM::new(&image(&[0xD000]));
    assert_eq!(vm.step(None), Err(VMError::IllegalInstruction));
    assert!(!vm.is_running());
}

#[test]
fn rti_changes_nothing() {
    let mut vm = VM::new(&image(&[0x8000]));
    vm.reg_set(3, 3);
    assert_eq!(vm.step(None), Ok(vec![]));
    assert_eq!(vm.pc(), 0x3001);
    assert_eq!(vm.reg(3), 3);
}

#[test]
fn pc_wraps_when_fetching_last_cell() {
    let mut vm = VM::new(&image(&[]));
    vm.set_pc(0xFFFF);
    vm.step(None).unwrap();
    assert_eq!(vm.pc(), 0x0000);
}
