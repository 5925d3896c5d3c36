use dustbox::cpu::CPU;
use dustbox::encoder::{EncodeError, Encoder};
use dustbox::instruction::{AMode, Instruction, Op, Parameter, Segment, R16, R8};
use dustbox::memory::MMU;

fn assert_encdec(op: &Instruction, expected_bytes: Vec<u8>) {
    let encoder = Encoder::new();
    let code = encoder.encode(op).unwrap();

    // decode the result and compare with the input
    let mut cpu = CPU::new(MMU::new());
    cpu.load_com(&code);
    let decoded = cpu.decode_instruction();
    assert_eq!(*op, decoded.instruction);
    assert_eq!(code.len(), decoded.length);

    // compare the encoded bytes with the expected bytes
    assert_eq!(expected_bytes, code);
}

#[test]
fn can_encode_inc() {
    let op = Instruction::new1(Op::Inc8, Parameter::Reg8(R8::BH));
    assert_encdec(&op, vec![0xFE, 0xC7]);

    let op = Instruction::new1(Op::Inc8, Parameter::Ptr8AmodeS8(Segment::Default, AMode::BP, 0x10));
    assert_encdec(&op, vec![0xFE, 0x46, 0x10]);

    let op = Instruction::new1(Op::Inc16, Parameter::Reg16(R16::BX));
    assert_encdec(&op, vec![0x43]);

    let op = Instruction::new1(Op::Inc16, Parameter::Ptr16AmodeS8(Segment::Default, AMode::BP, 0x10));
    assert_encdec(&op, vec![0xFF, 0x46, 0x10]);
}

#[test]
fn can_encode_dec() {
    let op = Instruction::new1(Op::Dec8, Parameter::Reg8(R8::BH));
    assert_encdec(&op, vec![0xFE, 0xCF]);

    let op = Instruction::new1(Op::Dec16, Parameter::Reg16(R16::BX));
    assert_encdec(&op, vec![0x4B]);

    let op = Instruction::new1(Op::Dec16, Parameter::Ptr16AmodeS8(Segment::Default, AMode::BP, 0x10));
    assert_encdec(&op, vec![0xFF, 0x4E, 0x10]);
}

#[test]
fn can_encode_push() {
    let op = Instruction::new1(Op::Push16, Parameter::Imm16(0x8088));
    assert_encdec(&op, vec![0x68, 0x88, 0x80]);
}

#[test]
fn can_encode_pop() {
    let op = Instruction::new(Op::Popf);
    assert_encdec(&op, vec![0x9D]);
}

#[test]
fn can_encode_bitshift_instructions() {
    let op = Instruction::new2(Op::Shr8, Parameter::Reg8(R8::AH), Parameter::Imm8(0xFF));
    assert_encdec(&op, vec![0xC0, 0xEC, 0xFF]);

    let op = Instruction::new2(Op::Shl8, Parameter::Reg8(R8::AH), Parameter::Imm8(0xFF));
    assert_encdec(&op, vec![0xC0, 0xE4, 0xFF]);
}

#[test]
fn can_encode_int() {
    let op = Instruction::new1(Op::Int, Parameter::Imm8(0x21));
    assert_encdec(&op, vec![0xCD, 0x21]);
}

#[test]
fn can_encode_mov_addressing_modes() {
    // r8, imm8
    let op = Instruction::new2(Op::Mov8, Parameter::Reg8(R8::BH), Parameter::Imm8(0xFF));
    assert_encdec(&op, vec![0xB7, 0xFF]);

    // r16, imm16
    let op = Instruction::new2(Op::Mov16, Parameter::Reg16(R16::BX), Parameter::Imm16(0x8844));
    assert_encdec(&op, vec![0xBB, 0x44, 0x88]);

    // r/m8, r8  (dst is r8)
    let op = Instruction::new2(Op::Mov8, Parameter::Reg8(R8::BH), Parameter::Reg8(R8::DL));
    assert_encdec(&op, vec![0x88, 0xD7]);

    // r/m8, r8  (dst is [bp+imm8])
    let op = Instruction::new2(Op::Mov8, Parameter::Ptr8AmodeS8(Segment::Default, AMode::BP, 0x10), Parameter::Reg8(R8::BH));
    assert_encdec(&op, vec![0x88, 0x7E, 0x10]);

    // r8, r/m8  (src is [bp+imm8])
    let op = Instruction::new2(Op::Mov8, Parameter::Reg8(R8::BH), Parameter::Ptr8AmodeS8(Segment::Default, AMode::BP, 0x10));
    assert_encdec(&op, vec![0x8A, 0x7E, 0x10]);

    // r8, r/m8
    let op = Instruction::new2(Op::Mov8, Parameter::Reg8(R8::BH), Parameter::Ptr8(Segment::Default, 0xC365));
    assert_encdec(&op, vec![0x8A, 0x3E, 0x65, 0xC3]);

    // r/m8, r8  (dst is [bp+imm16])
    let op = Instruction::new2(Op::Mov8, Parameter::Ptr8AmodeS16(Segment::Default, AMode::BP, -0x800), Parameter::Reg8(R8::BH));
    assert_encdec(&op, vec![0x88, 0xBE, 0x00, 0xF8]);

    // r/m8, r8  (dst is [imm16])
    let op = Instruction::new2(Op::Mov8, Parameter::Ptr8(Segment::Default, 0x8000), Parameter::Reg8(R8::BH));
    assert_encdec(&op, vec![0x88, 0x3E, 0x00, 0x80]);

    // r/m8, r8  (dst is [bx])
    let op = Instruction::new2(Op::Mov8, Parameter::Ptr8Amode(Segment::Default, AMode::BX), Parameter::Reg8(R8::BH));
    assert_encdec(&op, vec![0x88, 0x3F]);
}

#[test]
fn encode_rejects_what_it_cannot_encode() {
    let encoder = Encoder::new();
    // width mismatch
    let op = Instruction::new2(Op::Mov8, Parameter::Reg16(R16::BX), Parameter::Reg8(R8::BH));
    assert_eq!(Err(EncodeError::Unsupported), encoder.encode(&op));
    // a segment override needs a prefix byte
    let mut op = Instruction::new(Op::Nop);
    op.segment_prefix = Segment::ES;
    assert_eq!(Err(EncodeError::Unsupported), encoder.encode(&op));
}

#[test]
fn encode_then_decode_round_trips() {
    let encoder = Encoder::new();
    let ops = vec![
        Instruction::new2(Op::Mov16, Parameter::Ptr16AmodeS16(Segment::Default, AMode::BXSI, 0x1234), Parameter::Reg16(R16::DI)),
        Instruction::new2(Op::Mov16, Parameter::Reg16(R16::SP), Parameter::Ptr16(Segment::Default, 0x0102)),
        Instruction::new2(Op::Sar16, Parameter::Reg16(R16::DX), Parameter::Imm8(3)),
        Instruction::new1(Op::Pop16, Parameter::Reg16(R16::SI)),
        Instruction::new(Op::Std),
    ];
    for op in ops {
        let mut code = encoder.encode(&op).unwrap();
        let n = code.len();
        code.extend_from_slice(&[0x90, 0x90, 0x90]);
        let info = dustbox::decoder::decode(&code);
        assert_eq!(op, info.instruction);
        assert_eq!(n, info.length);
    }
}

#[test]
fn bp_without_displacement_encodes_as_bp_plus_zero() {
    let encoder = Encoder::new();
    let op = Instruction::new2(Op::Mov8, Parameter::Ptr8Amode(Segment::Default, AMode::BP), Parameter::Reg8(R8::BH));
    let code = encoder.encode(&op).unwrap();
    assert_eq!(vec![0x88, 0x7E, 0x00], code);
    let info = dustbox::decoder::decode(&code);
    assert_eq!(
        Instruction::new2(Op::Mov8, Parameter::Ptr8AmodeS8(Segment::Default, AMode::BP, 0), Parameter::Reg8(R8::BH)),
        info.instruction
    );
    assert_eq!(3, info.length);

    let op = Instruction::new1(Op::Inc16, Parameter::Ptr16Amode(Segment::Default, AMode::BP));
    assert_eq!(vec![0xFF, 0x46, 0x00], encoder.encode(&op).unwrap());
}
