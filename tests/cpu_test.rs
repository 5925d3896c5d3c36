use dustbox::cpu::CPU;
use dustbox::decoder::decode;
use dustbox::execute::Action;
use dustbox::flags::{parity_of, Flags};
use dustbox::instruction::{InvalidOp, Op, Parameter, RepeatMode, Segment, R16, R8, SR};
use dustbox::memory::MMU;

/// A processor with `code` at 2000:0000 and CS:IP pointing at it.
fn cpu_with_code(code: &[u8]) -> CPU {
    let mut cpu = CPU::new(MMU::new());
    cpu.set_sr(SR::CS, 0x2000);
    cpu.ip = 0;
    for (i, b) in code.iter().enumerate() {
        cpu.mmu.write_u8(0x2000, i as u16, *b);
    }
    cpu
}

#[test]
fn add_with_carry_and_overflow() {
    // ADD AL, BL
    let mut cpu = cpu_with_code(&[0x00, 0xD8]);
    cpu.set_r8(R8::AL, 0x7F);
    cpu.set_r8(R8::BL, 0x01);
    assert_eq!(Action::Continue, cpu.execute_instruction());
    assert_eq!(0x80, cpu.get_r8(R8::AL));
    assert!(!cpu.flags.carry);
    assert!(cpu.flags.overflow);
    assert!(cpu.flags.sign);
    assert!(!cpu.flags.zero);
    assert!(cpu.flags.auxiliary_carry);
    assert!(!cpu.flags.parity);
    assert_eq!(2, cpu.ip);
}

#[test]
fn sub_producing_zero() {
    // SUB AX, BX
    let mut cpu = cpu_with_code(&[0x29, 0xD8]);
    cpu.set_r16(R16::AX, 0x1234);
    cpu.set_r16(R16::BX, 0x1234);
    cpu.execute_instruction();
    assert_eq!(0x0000, cpu.get_r16(R16::AX));
    assert!(cpu.flags.zero);
    assert!(!cpu.flags.sign);
    assert!(!cpu.flags.carry);
    assert!(!cpu.flags.overflow);
    assert!(!cpu.flags.auxiliary_carry);
    assert!(cpu.flags.parity);
}

#[test]
fn rep_movsb() {
    let mut cpu = cpu_with_code(&[0xF3, 0xA4]);
    cpu.set_sr(SR::DS, 0x1000);
    cpu.set_sr(SR::ES, 0x1000);
    cpu.set_r16(R16::SI, 0x0000);
    cpu.set_r16(R16::DI, 0x0010);
    cpu.set_r16(R16::CX, 4);
    cpu.flags.direction = false;
    for (i, b) in [0xAAu8, 0xBB, 0xCC, 0xDD].iter().enumerate() {
        cpu.mmu.write_u8(0x1000, i as u16, *b);
    }
    cpu.execute_instruction();
    assert_eq!(0, cpu.get_r16(R16::CX));
    assert_eq!(4, cpu.get_r16(R16::SI));
    assert_eq!(0x14, cpu.get_r16(R16::DI));
    assert_eq!(vec![0xAA, 0xBB, 0xCC, 0xDD], cpu.mmu.read_u8_slice(0x1000, 0x0010, 4));
    assert_eq!(2, cpu.ip);
}

#[test]
fn movsw_backwards_when_direction_is_set() {
    let mut cpu = cpu_with_code(&[0xA5]);
    cpu.set_sr(SR::DS, 0x1000);
    cpu.set_sr(SR::ES, 0x1000);
    cpu.set_r16(R16::SI, 0x0100);
    cpu.set_r16(R16::DI, 0x0200);
    cpu.flags.direction = true;
    cpu.mmu.write_u16(0x1000, 0x0100, 0xBEEF);
    cpu.execute_instruction();
    assert_eq!(0x00FE, cpu.get_r16(R16::SI));
    assert_eq!(0x01FE, cpu.get_r16(R16::DI));
    assert_eq!(0xBEEF, cpu.mmu.read_u16(0x1000, 0x0200));
}

#[test]
fn repe_cmpsb_stops_at_first_difference() {
    let mut cpu = cpu_with_code(&[0xF3, 0xA6]);
    cpu.set_sr(SR::DS, 0x1000);
    cpu.set_sr(SR::ES, 0x1000);
    cpu.set_r16(R16::SI, 0x0000);
    cpu.set_r16(R16::DI, 0x0010);
    cpu.set_r16(R16::CX, 5);
    for (i, b) in [1u8, 2, 3, 4, 5].iter().enumerate() {
        cpu.mmu.write_u8(0x1000, i as u16, *b);
    }
    for (i, b) in [1u8, 2, 9, 4, 5].iter().enumerate() {
        cpu.mmu.write_u8(0x1000, 0x10 + i as u16, *b);
    }
    cpu.execute_instruction();
    assert_eq!(2, cpu.get_r16(R16::CX));
    assert_eq!(3, cpu.get_r16(R16::SI));
    assert!(!cpu.flags.zero);
}

#[test]
fn jz_relative() {
    let mut cpu = CPU::new(MMU::new());
    cpu.load_com(&[0x74, 0x05]);
    cpu.flags.zero = true;
    cpu.execute_instruction();
    assert_eq!(0x0107, cpu.ip);

    let mut cpu = CPU::new(MMU::new());
    cpu.load_com(&[0x74, 0x05]);
    cpu.flags.zero = false;
    cpu.execute_instruction();
    assert_eq!(0x0102, cpu.ip);
}

#[test]
fn far_call_and_retf() {
    // CALL 1000:0200
    let mut cpu = cpu_with_code(&[0x9A, 0x00, 0x02, 0x00, 0x10]);
    cpu.set_sr(SR::SS, 0x0900);
    cpu.set_r16(R16::SP, 0xFFFE);
    cpu.mmu.write_u8(0x1000, 0x0200, 0xCB); // RETF
    cpu.execute_instruction();
    assert_eq!(0x1000, cpu.get_sr(SR::CS));
    assert_eq!(0x0200, cpu.ip);
    assert_eq!(0xFFFA, cpu.get_r16(R16::SP));
    assert_eq!(0x2000, cpu.mmu.read_u16(0x0900, 0xFFFC));
    assert_eq!(0x0005, cpu.mmu.read_u16(0x0900, 0xFFFA));
    cpu.execute_instruction();
    assert_eq!(0x2000, cpu.get_sr(SR::CS));
    assert_eq!(0x0005, cpu.ip);
    assert_eq!(0xFFFE, cpu.get_r16(R16::SP));
}

#[test]
fn int21_terminate() {
    let mut cpu = cpu_with_code(&[0xCD, 0x21]);
    cpu.set_r8(R8::AH, 0x4C);
    assert_eq!(Action::Terminate, cpu.execute_instruction());
    assert!(cpu.fatal_error);
}

#[test]
fn int21_other_service_goes_to_the_host() {
    let mut cpu = cpu_with_code(&[0xCD, 0x21]);
    cpu.set_r8(R8::AH, 0x09);
    assert_eq!(Action::Interrupt(0x21), cpu.execute_instruction());
    assert!(!cpu.fatal_error);
    assert_eq!(2, cpu.ip);
}

#[test]
fn int_walks_the_vector_table() {
    let mut cpu = cpu_with_code(&[0xCD, 0x08]);
    cpu.set_sr(SR::SS, 0x0900);
    cpu.set_r16(R16::SP, 0x0100);
    cpu.flags.interrupt = true;
    cpu.mmu.write_u16(0, 0x20, 0x1234);
    cpu.mmu.write_u16(0, 0x22, 0x5678);
    cpu.execute_instruction();
    assert_eq!(0x5678, cpu.get_sr(SR::CS));
    assert_eq!(0x1234, cpu.ip);
    assert_eq!(0x00FA, cpu.get_r16(R16::SP));
    assert_eq!(0x0002, cpu.mmu.read_u16(0x0900, 0x00FA));
    assert_eq!(0x2000, cpu.mmu.read_u16(0x0900, 0x00FC));
    assert_eq!(0x0202, cpu.mmu.read_u16(0x0900, 0x00FE));
    assert!(!cpu.flags.interrupt);
}

#[test]
fn int20_terminates() {
    let mut cpu = cpu_with_code(&[0xCD, 0x20]);
    assert_eq!(Action::Terminate, cpu.execute_instruction());
    assert!(cpu.fatal_error);
}

#[test]
fn push_then_pop_restores_value_and_sp() {
    // PUSH AX; POP BX
    let mut cpu = cpu_with_code(&[0x50, 0x5B]);
    cpu.set_sr(SR::SS, 0x0900);
    cpu.set_r16(R16::SP, 0x0000);
    cpu.set_r16(R16::AX, 0xCAFE);
    cpu.execute_instruction();
    assert_eq!(0xFFFE, cpu.get_r16(R16::SP));
    cpu.execute_instruction();
    assert_eq!(0xCAFE, cpu.get_r16(R16::BX));
    assert_eq!(0x0000, cpu.get_r16(R16::SP));
}

#[test]
fn sub_registers_keep_the_other_half() {
    let mut cpu = CPU::new(MMU::new());
    cpu.set_r16(R16::CX, 0x1234);
    cpu.set_r8(R8::CL, 0xFF);
    assert_eq!(0x12FF, cpu.get_r16(R16::CX));
    cpu.set_r8(R8::CH, 0x00);
    assert_eq!(0x00FF, cpu.get_r16(R16::CX));
    assert_eq!(0xFF, cpu.get_r8(R8::CL));
    assert_eq!(0x00, cpu.get_r8(R8::CH));
}

#[test]
fn translate_wraps_at_one_megabyte() {
    assert_eq!(0x0_0000, MMU::translate(0x0000, 0x0000));
    assert_eq!(0x1_2345, MMU::translate(0x1234, 0x0005));
    assert_eq!(0xF_FFFF, MMU::translate(0xFFFF, 0x000F));
    assert_eq!(0x0_0000, MMU::translate(0xFFFF, 0x0010));
    assert_eq!(0x0_FFEF, MMU::translate(0xFFFF, 0xFFFF));
}

#[test]
fn word_access_wraps_within_the_segment() {
    let mut mmu = MMU::new();
    mmu.write_u16(0x1000, 0xFFFF, 0xABCD);
    assert_eq!(0xCD, mmu.read_u8(0x1000, 0xFFFF));
    assert_eq!(0xAB, mmu.read_u8(0x1000, 0x0000));
    assert_eq!(0xABCD, mmu.read_u16(0x1000, 0xFFFF));
}

#[test]
fn bp_addressing_defaults_to_the_stack_segment() {
    // MOV AL, [BP+2]
    let mut cpu = cpu_with_code(&[0x8A, 0x46, 0x02]);
    cpu.set_sr(SR::SS, 0x3000);
    cpu.set_sr(SR::DS, 0x4000);
    cpu.set_r16(R16::BP, 0x0010);
    cpu.mmu.write_u8(0x3000, 0x0012, 0x77);
    cpu.mmu.write_u8(0x4000, 0x0012, 0x11);
    cpu.execute_instruction();
    assert_eq!(0x77, cpu.get_r8(R8::AL));
}

#[test]
fn segment_override_replaces_the_default() {
    // MOV AL, ES:[BX]
    let mut cpu = cpu_with_code(&[0x26, 0x8A, 0x07]);
    cpu.set_sr(SR::ES, 0x5000);
    cpu.set_r16(R16::BX, 0x0004);
    cpu.mmu.write_u8(0x5000, 0x0004, 0x42);
    cpu.execute_instruction();
    assert_eq!(0x42, cpu.get_r8(R8::AL));
    assert_eq!(3, cpu.ip);
}

#[test]
fn load_com_sets_dos_registers() {
    let mut cpu = CPU::new(MMU::new());
    cpu.load_com(&[0xCD, 0x20]);
    assert_eq!(0x085F, cpu.get_sr(SR::CS));
    assert_eq!(0x085F, cpu.get_sr(SR::DS));
    assert_eq!(0x085F, cpu.get_sr(SR::ES));
    assert_eq!(0x085F, cpu.get_sr(SR::SS));
    assert_eq!(0x0100, cpu.ip);
    assert_eq!(0xFFFE, cpu.get_r16(R16::SP));
    assert_eq!(0x091C, cpu.get_r16(R16::BP));
    assert_eq!(0x00FF, cpu.get_r16(R16::CX));
    assert_eq!(0x085F, cpu.get_r16(R16::DX));
    assert_eq!(0x0100, cpu.get_r16(R16::SI));
    assert_eq!(0xFFFE, cpu.get_r16(R16::DI));
    assert_eq!(0xCD, cpu.mmu.read_u8(0x085F, 0x0100));
    assert_eq!(Action::Terminate, cpu.execute_frame(1000));
}

#[test]
fn decoder_reports_invalid_and_unimplemented_opcodes() {
    let info = decode(&[0xD8, 0x00]);
    assert_eq!(Op::Invalid(InvalidOp::Op { escape: false, byte: 0xD8 }), info.instruction.command);

    let info = decode(&[0x0F, 0xFF]);
    assert_eq!(Op::Invalid(InvalidOp::Op { escape: true, byte: 0xFF }), info.instruction.command);

    let info = decode(&[0xFE, 0xF8]);
    assert_eq!(Op::Invalid(InvalidOp::Reg { opcode: 0xFE, reg: 7 }), info.instruction.command);

    let info = decode(&[0x9B]);
    assert_eq!(Op::Unimplemented { escape: false, byte: 0x9B }, info.instruction.command);
    assert_eq!(1, info.length);
}

#[test]
fn invalid_instruction_is_fatal() {
    let mut cpu = cpu_with_code(&[0xFE, 0xF8]);
    assert_eq!(Action::Fatal, cpu.execute_instruction());
    assert!(cpu.fatal_error);
    assert_eq!(0, cpu.ip);
}

#[test]
fn decoder_records_prefixes_and_length() {
    let info = decode(&[0xF0, 0x2E, 0xF3, 0x81, 0x87, 0x34, 0x12, 0x78, 0x56]);
    let ins = info.instruction;
    assert_eq!(9, info.length);
    assert!(ins.lock);
    assert_eq!(RepeatMode::Rep, ins.repeat);
    assert_eq!(Segment::CS, ins.segment_prefix);
    assert_eq!(Op::Add16, ins.command);
    assert_eq!(Parameter::Ptr16AmodeS16(Segment::CS, dustbox::instruction::AMode::BX, 0x1234), ins.params.dst);
    assert_eq!(Parameter::Imm16(0x5678), ins.params.src);
}

#[test]
fn shifts_by_count() {
    // SHL AL, 1 ; SHR AX, CL ; SAR BL, 3 (C0 /7 ib)
    let mut cpu = cpu_with_code(&[0xD0, 0xE0, 0xD3, 0xE8, 0xC0, 0xFB, 0x03]);
    cpu.set_r8(R8::AL, 0xC1);
    cpu.execute_instruction();
    assert_eq!(0x82, cpu.get_r8(R8::AL));
    assert!(cpu.flags.carry);
    assert!(!cpu.flags.overflow);
    cpu.set_r16(R16::AX, 0x8001);
    cpu.set_r8(R8::CL, 4);
    cpu.execute_instruction();
    assert_eq!(0x0800, cpu.get_r16(R16::AX));
    assert!(!cpu.flags.carry);
    cpu.set_r8(R8::BL, 0x88);
    cpu.execute_instruction();
    assert_eq!(0xF1, cpu.get_r8(R8::BL));
    assert!(!cpu.flags.carry);
    assert!(cpu.flags.sign);
}

#[test]
fn flags_word_round_trip() {
    let mut f = Flags::new();
    f.carry = true;
    f.zero = true;
    f.direction = true;
    f.overflow = true;
    assert_eq!(0x0C43, f.u16());
    let mut g = Flags::new();
    g.set_u16(0x0C43);
    assert_eq!(f, g);
    assert_eq!(0x43, f.lahf_value());
}

#[test]
fn parity_counts_low_byte_bits() {
    assert!(parity_of(0x00));
    assert!(!parity_of(0x01));
    assert!(parity_of(0x03));
    assert!(!parity_of(0x80));
    assert!(parity_of(0xFF00));
    assert!(parity_of(0xFF));
}

#[test]
fn in_and_out_go_to_the_host() {
    // IN AL, 0x60 ; OUT DX, AX
    let mut cpu = cpu_with_code(&[0xE4, 0x60, 0xEF]);
    assert_eq!(Action::PortIn { port: 0x60, wide: false }, cpu.execute_instruction());
    cpu.complete_port_in(false, 0x5A);
    assert_eq!(0x5A, cpu.get_r8(R8::AL));
    cpu.set_r16(R16::DX, 0x03C8);
    cpu.set_r16(R16::AX, 0x1234);
    assert_eq!(Action::PortOut { port: 0x03C8, wide: true, value: 0x1234 }, cpu.execute_instruction());
}

#[test]
fn loop_counts_down_cx() {
    // INC AX ; LOOP -3
    let mut cpu = cpu_with_code(&[0x40, 0xE2, 0xFD]);
    cpu.set_r16(R16::CX, 3);
    cpu.execute_frame(6);
    assert_eq!(3, cpu.get_r16(R16::AX));
    assert_eq!(0, cpu.get_r16(R16::CX));
    assert_eq!(3, cpu.ip);
}

#[test]
fn mul_and_imul() {
    // MUL BL ; IMUL CX
    let mut cpu = cpu_with_code(&[0xF6, 0xE3, 0xF7, 0xE9]);
    cpu.set_r8(R8::AL, 0x80);
    cpu.set_r8(R8::BL, 0x04);
    cpu.execute_instruction();
    assert_eq!(0x0200, cpu.get_r16(R16::AX));
    assert!(cpu.flags.carry);
    assert!(cpu.flags.overflow);
    cpu.set_r16(R16::AX, 0xFFFF); // -1
    cpu.set_r16(R16::CX, 0x0003);
    cpu.execute_instruction();
    assert_eq!(0xFFFD, cpu.get_r16(R16::AX));
    assert_eq!(0xFFFF, cpu.get_r16(R16::DX));
    assert!(!cpu.flags.carry);
    assert!(!cpu.flags.overflow);
}

#[test]
fn div_and_idiv() {
    // DIV BL ; IDIV CX
    let mut cpu = cpu_with_code(&[0xF6, 0xF3, 0xF7, 0xF9]);
    cpu.set_r16(R16::AX, 1000);
    cpu.set_r8(R8::BL, 7);
    cpu.execute_instruction();
    assert_eq!(142, cpu.get_r8(R8::AL));
    assert_eq!(6, cpu.get_r8(R8::AH));
    // DX:AX = -7, CX = 2: quotient -3, remainder -1
    cpu.set_r16(R16::DX, 0xFFFF);
    cpu.set_r16(R16::AX, 0xFFF9);
    cpu.set_r16(R16::CX, 2);
    cpu.execute_instruction();
    assert_eq!(0xFFFD, cpu.get_r16(R16::AX));
    assert_eq!(0xFFFF, cpu.get_r16(R16::DX));
}

#[test]
fn divide_by_zero_raises_vector_zero() {
    // DIV BL with BL = 0
    let mut cpu = cpu_with_code(&[0xF6, 0xF3]);
    cpu.set_sr(SR::SS, 0x0900);
    cpu.set_r16(R16::SP, 0x0100);
    cpu.mmu.write_u16(0, 0x0000, 0x4444);
    cpu.mmu.write_u16(0, 0x0002, 0x3333);
    cpu.set_r16(R16::AX, 1234);
    assert_eq!(Action::Continue, cpu.execute_instruction());
    assert_eq!(0x3333, cpu.get_sr(SR::CS));
    assert_eq!(0x4444, cpu.ip);
    assert_eq!(1234, cpu.get_r16(R16::AX));
}

#[test]
fn quotient_overflow_raises_vector_zero() {
    // DIV BL: 0x1000 / 2 does not fit in AL
    let mut cpu = cpu_with_code(&[0xF6, 0xF3]);
    cpu.set_sr(SR::SS, 0x0900);
    cpu.set_r16(R16::SP, 0x0100);
    cpu.mmu.write_u16(0, 0x0000, 0x4444);
    cpu.set_r16(R16::AX, 0x1000);
    cpu.set_r8(R8::BL, 2);
    cpu.execute_instruction();
    assert_eq!(0x4444, cpu.ip);
}

#[test]
fn pusha_popa_and_leave() {
    // PUSHA ; POPA ; LEAVE
    let mut cpu = cpu_with_code(&[0x60, 0x61, 0xC9]);
    cpu.set_sr(SR::SS, 0x0900);
    cpu.set_r16(R16::SP, 0x0200);
    cpu.set_r16(R16::AX, 1);
    cpu.set_r16(R16::CX, 2);
    cpu.set_r16(R16::DX, 3);
    cpu.set_r16(R16::BX, 4);
    cpu.set_r16(R16::BP, 0x01F0);
    cpu.set_r16(R16::SI, 6);
    cpu.set_r16(R16::DI, 7);
    cpu.execute_instruction();
    assert_eq!(0x01F0, cpu.get_r16(R16::SP));
    assert_eq!(0x0200, cpu.mmu.read_u16(0x0900, 0x01F6));
    assert_eq!(4, cpu.mmu.read_u16(0x0900, 0x01F8));
    cpu.set_r16(R16::AX, 0);
    cpu.set_r16(R16::DI, 0);
    cpu.execute_instruction();
    assert_eq!(1, cpu.get_r16(R16::AX));
    assert_eq!(7, cpu.get_r16(R16::DI));
    assert_eq!(0x0200, cpu.get_r16(R16::SP));
    // LEAVE: SP = BP, then BP = the word popped from 0900:01F0 (DI's saved value)
    cpu.execute_instruction();
    assert_eq!(7, cpu.get_r16(R16::BP));
    assert_eq!(0x01F2, cpu.get_r16(R16::SP));
}

#[test]
fn xlat_and_lds() {
    // XLAT ; LDS SI, [0x0010]
    let mut cpu = cpu_with_code(&[0xD7, 0xC5, 0x36, 0x10, 0x00]);
    cpu.set_sr(SR::DS, 0x1000);
    cpu.set_r16(R16::BX, 0x0100);
    cpu.set_r8(R8::AL, 3);
    cpu.mmu.write_u8(0x1000, 0x0103, 0x99);
    cpu.mmu.write_u16(0x1000, 0x0010, 0x1234);
    cpu.mmu.write_u16(0x1000, 0x0012, 0x5678);
    cpu.execute_instruction();
    assert_eq!(0x99, cpu.get_r8(R8::AL));
    cpu.execute_instruction();
    assert_eq!(0x1234, cpu.get_r16(R16::SI));
    assert_eq!(0x5678, cpu.get_sr(SR::DS));
}

#[test]
fn bcd_adjustments() {
    // ADD AL, BL ; DAA ; AAM ; AAD ; AAA
    let mut cpu = cpu_with_code(&[0x00, 0xD8, 0x27, 0xD4, 0x0A, 0xD5, 0x0A, 0x37]);
    cpu.set_r8(R8::AL, 0x38);
    cpu.set_r8(R8::BL, 0x45);
    cpu.execute_instruction();
    assert_eq!(0x7D, cpu.get_r8(R8::AL));
    cpu.execute_instruction();
    assert_eq!(0x83, cpu.get_r8(R8::AL));
    assert!(!cpu.flags.carry);
    assert!(cpu.flags.auxiliary_carry);
    // AAM: 0x83 = 131 -> AH 13, AL 1
    cpu.execute_instruction();
    assert_eq!(13, cpu.get_r8(R8::AH));
    assert_eq!(1, cpu.get_r8(R8::AL));
    // AAD: 13 * 10 + 1 = 131
    cpu.execute_instruction();
    assert_eq!(0x0083, cpu.get_r16(R16::AX));
    // AAA with AL = 0x0B (low nibble above 9): AX + 0x106, AL keeps its low nibble
    cpu.set_r16(R16::AX, 0x000B);
    cpu.execute_instruction();
    assert_eq!(0x0101, cpu.get_r16(R16::AX));
    assert!(cpu.flags.carry);
    assert!(cpu.flags.auxiliary_carry);
}

#[test]
fn das_after_subtraction() {
    // DAS with AL = 0x2E (0x35 - 0x07 in BCD gives 0x28)
    let mut cpu = cpu_with_code(&[0x2F]);
    cpu.set_r8(R8::AL, 0x2E);
    cpu.flags.auxiliary_carry = false;
    cpu.flags.carry = false;
    cpu.execute_instruction();
    assert_eq!(0x28, cpu.get_r8(R8::AL));
    assert!(!cpu.flags.carry);
}

#[test]
fn double_precision_shifts() {
    // SHRD AX, BX, 4 ; SHLD AX, BX, CL
    let mut cpu = cpu_with_code(&[0x0F, 0xAC, 0xD8, 0x04, 0x0F, 0xA5, 0xD8]);
    cpu.set_r16(R16::AX, 0x1234);
    cpu.set_r16(R16::BX, 0xABCD);
    cpu.execute_instruction();
    assert_eq!(0xD123, cpu.get_r16(R16::AX));
    assert!(!cpu.flags.carry);
    assert!(cpu.flags.sign);
    assert_eq!(4, cpu.ip);
    cpu.set_r16(R16::AX, 0x1234);
    cpu.set_r8(R8::CL, 4);
    cpu.execute_instruction();
    assert_eq!(0x234A, cpu.get_r16(R16::AX));
    assert!(cpu.flags.carry);
}

#[test]
fn decoding_depends_only_on_the_consumed_bytes() {
    let a = decode(&[0x26, 0x8B, 0x87, 0x34, 0x12, 0x00, 0x00]);
    let b = decode(&[0x26, 0x8B, 0x87, 0x34, 0x12, 0xFF, 0xCD]);
    assert_eq!(5, a.length);
    assert_eq!(a, b);
    // the same bytes decode the same way twice
    assert_eq!(a, decode(&[0x26, 0x8B, 0x87, 0x34, 0x12, 0x00, 0x00]));
}

#[test]
fn breakpoints() {
    let mut cpu = CPU::new(MMU::new());
    cpu.load_com(&[0x90]);
    assert!(!cpu.is_ip_at_breakpoint());
    cpu.add_breakpoint(0x085F0 + 0x100);
    cpu.add_breakpoint(0x12345);
    assert_eq!(vec![0x086F0usize, 0x12345], cpu.get_breakpoints());
    assert!(cpu.is_ip_at_breakpoint());
    assert!(cpu.is_offset_at_breakpoint(0x12345));
    assert!(!cpu.is_offset_at_breakpoint(0x12346));
    cpu.clear_breakpoints();
    assert!(cpu.get_breakpoints().is_empty());
    assert!(!cpu.is_ip_at_breakpoint());
}

#[test]
fn resets_keep_or_replace_memory() {
    let mut cpu = cpu_with_code(&[0x90]);
    cpu.set_r16(R16::AX, 0x1111);
    cpu.flags.carry = true;
    assert_eq!(0x20000, cpu.get_address());
    cpu.soft_reset();
    assert_eq!(0, cpu.get_r16(R16::AX));
    assert_eq!(0xFFFE, cpu.get_r16(R16::SP));
    assert_eq!(0, cpu.get_sr(SR::CS));
    assert!(!cpu.flags.carry);
    assert_eq!(0x90, cpu.mmu.read_u8(0x2000, 0));
    cpu.hard_reset(MMU::new());
    assert_eq!(0, cpu.mmu.read_u8(0x2000, 0));
}

#[test]
fn imul_two_and_three_operands() {
    // IMUL AX, BX, 0x0100 ; IMUL CX, DX, -2 ; IMUL SI, DI
    let mut cpu = cpu_with_code(&[0x69, 0xC3, 0x00, 0x01, 0x6B, 0xCA, 0xFE, 0x0F, 0xAF, 0xF7]);
    cpu.set_r16(R16::BX, 0x0123);
    cpu.execute_instruction();
    assert_eq!(0x2300, cpu.get_r16(R16::AX));
    assert!(cpu.flags.carry && cpu.flags.overflow);
    cpu.set_r16(R16::DX, 5);
    cpu.execute_instruction();
    assert_eq!(0xFFF6, cpu.get_r16(R16::CX));
    assert!(!cpu.flags.carry && !cpu.flags.overflow);
    cpu.set_r16(R16::SI, 7);
    cpu.set_r16(R16::DI, 6);
    cpu.execute_instruction();
    assert_eq!(42, cpu.get_r16(R16::SI));
    assert_eq!(10, cpu.ip);
}

#[test]
fn enter_with_nesting_level() {
    // ENTER 4, 2
    let mut cpu = cpu_with_code(&[0xC8, 0x04, 0x00, 0x02]);
    cpu.set_sr(SR::SS, 0x0900);
    cpu.set_r16(R16::SP, 0x0100);
    cpu.set_r16(R16::BP, 0x0120);
    cpu.mmu.write_u16(0x0900, 0x011E, 0xAAAA);
    cpu.execute_instruction();
    // BP pushed at 00FE, frame = 00FE; one outer frame pointer copied to 00FC; frame pushed at 00FA
    assert_eq!(0x0120, cpu.mmu.read_u16(0x0900, 0x00FE));
    assert_eq!(0xAAAA, cpu.mmu.read_u16(0x0900, 0x00FC));
    assert_eq!(0x00FE, cpu.mmu.read_u16(0x0900, 0x00FA));
    assert_eq!(0x00FE, cpu.get_r16(R16::BP));
    assert_eq!(0x00F6, cpu.get_r16(R16::SP));
    assert_eq!(4, cpu.ip);
}

#[test]
fn rep_outsb_hands_each_byte_to_the_host() {
    let mut cpu = cpu_with_code(&[0xF3, 0x6E]);
    cpu.set_sr(SR::DS, 0x1000);
    cpu.set_r16(R16::SI, 0);
    cpu.set_r16(R16::CX, 2);
    cpu.set_r16(R16::DX, 0x03C9);
    cpu.mmu.write_u8(0x1000, 0, 0x11);
    cpu.mmu.write_u8(0x1000, 1, 0x22);
    assert_eq!(Action::PortOut { port: 0x03C9, wide: false, value: 0x11 }, cpu.execute_instruction());
    assert_eq!(0, cpu.ip);
    assert_eq!(1, cpu.get_r16(R16::CX));
    assert_eq!(Action::PortOut { port: 0x03C9, wide: false, value: 0x22 }, cpu.execute_instruction());
    assert_eq!(2, cpu.ip);
    assert_eq!(0, cpu.get_r16(R16::CX));
    assert_eq!(2, cpu.get_r16(R16::SI));
}

#[test]
fn insw_stores_what_the_host_read() {
    let mut cpu = cpu_with_code(&[0x6D]);
    cpu.set_sr(SR::ES, 0x3000);
    cpu.set_r16(R16::DI, 0x10);
    cpu.set_r16(R16::DX, 0x60);
    assert_eq!(Action::PortInString { port: 0x60, wide: true }, cpu.execute_instruction());
    cpu.complete_ins(true, 0xBEEF);
    assert_eq!(0xBEEF, cpu.mmu.read_u16(0x3000, 0x10));
    assert_eq!(0x12, cpu.get_r16(R16::DI));
    assert_eq!(1, cpu.ip);
}

#[test]
fn far_jump_and_call_through_memory() {
    // JMP FAR [0x0010] ; at the target: CALL FAR [BX]
    let mut cpu = cpu_with_code(&[0xFF, 0x2E, 0x10, 0x00]);
    cpu.set_sr(SR::DS, 0x1000);
    cpu.set_sr(SR::SS, 0x0900);
    cpu.set_r16(R16::SP, 0x0100);
    cpu.mmu.write_u16(0x1000, 0x10, 0x0200);
    cpu.mmu.write_u16(0x1000, 0x12, 0x4000);
    cpu.execute_instruction();
    assert_eq!(0x4000, cpu.get_sr(SR::CS));
    assert_eq!(0x0200, cpu.ip);
    cpu.mmu.write_u8(0x4000, 0x0200, 0xFF);
    cpu.mmu.write_u8(0x4000, 0x0201, 0x1F);
    cpu.set_r16(R16::BX, 0x20);
    cpu.mmu.write_u16(0x1000, 0x20, 0x0300);
    cpu.mmu.write_u16(0x1000, 0x22, 0x5000);
    cpu.execute_instruction();
    assert_eq!(0x5000, cpu.get_sr(SR::CS));
    assert_eq!(0x0300, cpu.ip);
    assert_eq!(0x0202, cpu.mmu.read_u16(0x0900, 0x00FC));
    assert_eq!(0x4000, cpu.mmu.read_u16(0x0900, 0x00FE));
}

#[test]
fn reserved_group_regs_are_invalid() {
    // D0 /6 is reserved
    let info = decode(&[0xD0, 0xF0]);
    assert_eq!(Op::Invalid(InvalidOp::Reg { opcode: 0xD0, reg: 6 }), info.instruction.command);
    // FF /3 with a register operand has no far pointer to read
    let info = decode(&[0xFF, 0xD8]);
    assert_eq!(Op::Invalid(InvalidOp::Reg { opcode: 0xFF, reg: 3 }), info.instruction.command);
}

#[test]
fn f3_means_repe_before_compares() {
    assert_eq!(RepeatMode::Repe, decode(&[0xF3, 0xA6]).instruction.repeat);
    assert_eq!(RepeatMode::Repe, decode(&[0xF3, 0xAF]).instruction.repeat);
    assert_eq!(RepeatMode::Rep, decode(&[0xF3, 0xA4]).instruction.repeat);
    assert_eq!(RepeatMode::Rep, decode(&[0xF3, 0xAA]).instruction.repeat);
    assert_eq!(RepeatMode::Repne, decode(&[0xF2, 0xAE]).instruction.repeat);
    assert_eq!(RepeatMode::Plain, decode(&[0xA6]).instruction.repeat);
}
