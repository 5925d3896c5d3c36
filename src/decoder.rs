use vstd::prelude::*;

use crate::instruction::{
    AMode, Cond, Instruction, InstructionInfo, InvalidOp, Op, Parameter, ParameterSet, RepeatMode,
    Segment, R16, R8, SR,
};
use crate::memory::word;

verus! {

/// How the bytes after an opcode encode its operands.
#[derive(Clone, Copy, Debug, PartialEq, Eq, Structural)]
pub enum Form {
    NoOperands,
    /// ModR/M: `r/m` is the destination, `reg` the source.
    RmReg { wide: bool },
    /// ModR/M: `reg` is the destination, `r/m` the source.
    RegRm { wide: bool },
    /// AL or AX, then an immediate.
    AccImm { wide: bool },
    /// Register in the low three bits of the opcode, then an immediate.
    RegImm { wide: bool },
    /// 16-bit register in the low three bits of the opcode.
    Reg16,
    /// AX and the 16-bit register in the low three bits of the opcode.
    AxReg16,
    /// Segment register in bits 3..4 of the opcode.
    SregOp,
    Imm8,
    Imm16,
    ImmS8,
    Rel8,
    Rel16,
    /// `offset16, segment16`.
    FarPtr,
    /// MOV Sreg, r/m16.
    SregRm,
    /// MOV r/m16, Sreg.
    RmSreg,
    /// LEA, LDS, LES: r16, m.
    Lea,
    /// IMUL r16, r/m16, then an imm16 or a sign-extended imm8.
    Imul3 { sext: bool },
    /// ENTER imm16, imm8.
    Enter,
    /// AL or AX and a direct memory offset; `store` when memory is the destination.
    AccMem { wide: bool, store: bool },
    /// 80..83: ALU operation in `reg`, with an immediate.
    Group1 { wide: bool, sext: bool },
    /// C0, C1, D0..D3: shift or rotate in `reg`; the count is `count` (0: an imm8, 1: one, 2: CL).
    Shift { wide: bool, count: u8 },
    /// F6, F7: TEST, NOT, NEG, MUL, IMUL, DIV, IDIV.
    Group3 { wide: bool },
    /// FE: INC and DEC of r/m8.
    Group4,
    /// FF: INC, DEC, CALL, JMP, PUSH of r/m16.
    Group5,
    /// 8F: POP r/m16.
    PopRm,
    /// C6, C7: MOV r/m, imm.
    MovRmImm { wide: bool },
    /// IN or OUT with an imm8 port.
    PortImm { out: bool, wide: bool },
    /// IN or OUT with the port in DX.
    PortDx { out: bool, wide: bool },
    /// INT 3.
    Int3,
    /// A recognised instruction that is not carried out; its operand bytes are skipped.
    Skip { modrm: bool, imm: u8 },
    /// The 0F escape.
    Escape,
    /// No instruction has this opcode.
    Unknown,
}

/// Byte `i` of a code sequence; bytes past its end read as zero.
pub open spec fn byte(code: Seq<u8>, i: int) -> u8 {
    if 0 <= i < code.len() {
        code[i]
    } else {
        0
    }
}

pub open spec fn imm16(code: Seq<u8>, i: int) -> u16 {
    word(byte(code, i), byte(code, i + 1))
}

pub open spec fn is_prefix(b: u8) -> bool {
    b == 0x26 || b == 0x2E || b == 0x36 || b == 0x3E || b == 0x64 || b == 0x65 || b == 0xF0 || b
        == 0xF2 || b == 0xF3 || b == 0x66 || b == 0x67
}

/// Records a prefix byte on the instruction being decoded.
pub open spec fn apply_prefix(ins: Instruction, b: u8) -> Instruction {
    if b == 0x26 {
        Instruction { segment_prefix: Segment::ES, ..ins }
    } else if b == 0x2E {
        Instruction { segment_prefix: Segment::CS, ..ins }
    } else if b == 0x36 {
        Instruction { segment_prefix: Segment::SS, ..ins }
    } else if b == 0x3E {
        Instruction { segment_prefix: Segment::DS, ..ins }
    } else if b == 0x64 {
        Instruction { segment_prefix: Segment::FS, ..ins }
    } else if b == 0x65 {
        Instruction { segment_prefix: Segment::GS, ..ins }
    } else if b == 0xF0 {
        Instruction { lock: true, ..ins }
    } else if b == 0xF2 {
        Instruction { repeat: RepeatMode::Repne, ..ins }
    } else if b == 0xF3 {
        Instruction { repeat: RepeatMode::Rep, ..ins }
    } else {
        ins
    }
}

/// ALU operations of the 00..3F block and of group 1, by number.
pub open spec fn alu_op(k: u8, wide: bool) -> Op {
    if k % 8 == 0 {
        if wide { Op::Add16 } else { Op::Add8 }
    } else if k % 8 == 1 {
        if wide { Op::Or16 } else { Op::Or8 }
    } else if k % 8 == 2 {
        if wide { Op::Adc16 } else { Op::Adc8 }
    } else if k % 8 == 3 {
        if wide { Op::Sbb16 } else { Op::Sbb8 }
    } else if k % 8 == 4 {
        if wide { Op::And16 } else { Op::And8 }
    } else if k % 8 == 5 {
        if wide { Op::Sub16 } else { Op::Sub8 }
    } else if k % 8 == 6 {
        if wide { Op::Xor16 } else { Op::Xor8 }
    } else {
        if wide { Op::Cmp16 } else { Op::Cmp8 }
    }
}

/// Shift and rotate operations of the shift groups, by `reg` (6 is reserved; the
/// decoder reports it as an invalid `reg`).
pub open spec fn shift_op(k: u8, wide: bool) -> Op {
    if k % 8 == 0 {
        if wide { Op::Rol16 } else { Op::Rol8 }
    } else if k % 8 == 1 {
        if wide { Op::Ror16 } else { Op::Ror8 }
    } else if k % 8 == 2 {
        if wide { Op::Rcl16 } else { Op::Rcl8 }
    } else if k % 8 == 3 {
        if wide { Op::Rcr16 } else { Op::Rcr8 }
    } else if k % 8 == 4 || k % 8 == 6 {
        if wide { Op::Shl16 } else { Op::Shl8 }
    } else if k % 8 == 5 {
        if wide { Op::Shr16 } else { Op::Shr8 }
    } else {
        if wide { Op::Sar16 } else { Op::Sar8 }
    }
}

pub open spec fn cond_of(k: u8) -> Cond {
    let c = k % 16;
    if c == 0 {
        Cond::O
    } else if c == 1 {
        Cond::NO
    } else if c == 2 {
        Cond::C
    } else if c == 3 {
        Cond::NC
    } else if c == 4 {
        Cond::Z
    } else if c == 5 {
        Cond::NZ
    } else if c == 6 {
        Cond::NA
    } else if c == 7 {
        Cond::A
    } else if c == 8 {
        Cond::S
    } else if c == 9 {
        Cond::NS
    } else if c == 10 {
        Cond::PE
    } else if c == 11 {
        Cond::PO
    } else if c == 12 {
        Cond::L
    } else if c == 13 {
        Cond::NL
    } else if c == 14 {
        Cond::NG
    } else {
        Cond::G
    }
}

pub open spec fn unimpl(b: u8) -> Op {
    Op::Unimplemented { escape: false, byte: b }
}

/// The primary opcode table: each byte's operation and operand form. Group opcodes
/// get their operation from the ModR/M `reg` field.
#[verifier::opaque]
pub open spec fn primary(b: u8) -> (Op, Form) {
    if b < 0x40 && b % 8 < 6 {
        (alu_op(b / 8, b % 2 == 1), if b % 8 < 2 {
            Form::RmReg { wide: b % 2 == 1 }
        } else if b % 8 < 4 {
            Form::RegRm { wide: b % 2 == 1 }
        } else {
            Form::AccImm { wide: b % 2 == 1 }
        })
    } else if b == 0x0F {
        (Op::Nop, Form::Escape)
    } else if b == 0x06 || b == 0x0E || b == 0x16 || b == 0x1E {
        (Op::Push16, Form::SregOp)
    } else if b == 0x07 || b == 0x17 || b == 0x1F {
        (Op::Pop16, Form::SregOp)
    } else if b == 0x60 {
        (Op::Pusha, Form::NoOperands)
    } else if b == 0x61 {
        (Op::Popa, Form::NoOperands)
    } else if b == 0xC9 {
        (Op::Leave, Form::NoOperands)
    } else if b == 0xD7 {
        (Op::Xlatb, Form::NoOperands)
    } else if b == 0xC4 {
        (Op::Les, Form::Lea)
    } else if b == 0xC5 {
        (Op::Lds, Form::Lea)
    } else if b == 0x27 {
        (Op::Daa, Form::NoOperands)
    } else if b == 0x2F {
        (Op::Das, Form::NoOperands)
    } else if b == 0x37 {
        (Op::Aaa, Form::NoOperands)
    } else if b == 0x3F {
        (Op::Aas, Form::NoOperands)
    } else if b == 0xD4 {
        (Op::Aam, Form::Imm8)
    } else if b == 0xD5 {
        (Op::Aad, Form::Imm8)
    } else if b == 0x6C {
        (Op::Insb, Form::NoOperands)
    } else if b == 0x6D {
        (Op::Insw, Form::NoOperands)
    } else if b == 0x6E {
        (Op::Outsb, Form::NoOperands)
    } else if b == 0x6F {
        (Op::Outsw, Form::NoOperands)
    } else if b == 0x9B || b == 0xCE || b == 0xD6 {
        (unimpl(b), Form::Skip { modrm: false, imm: 0 })
    } else if b == 0x62 || b == 0x63 {
        (unimpl(b), Form::Skip { modrm: true, imm: 0 })
    } else if b == 0x69 {
        (Op::Imul16r, Form::Imul3 { sext: false })
    } else if b == 0x6B {
        (Op::Imul16r, Form::Imul3 { sext: true })
    } else if b == 0xC8 {
        (Op::Enter, Form::Enter)
    } else if 0x40 <= b && b < 0x48 {
        (Op::Inc16, Form::Reg16)
    } else if 0x48 <= b && b < 0x50 {
        (Op::Dec16, Form::Reg16)
    } else if 0x50 <= b && b < 0x58 {
        (Op::Push16, Form::Reg16)
    } else if 0x58 <= b && b < 0x60 {
        (Op::Pop16, Form::Reg16)
    } else if b == 0x68 {
        (Op::Push16, Form::Imm16)
    } else if b == 0x6A {
        (Op::Push16, Form::ImmS8)
    } else if 0x70 <= b && b < 0x80 {
        (Op::Jcc(cond_of(b)), Form::Rel8)
    } else if b == 0x80 || b == 0x82 {
        (Op::Nop, Form::Group1 { wide: false, sext: false })
    } else if b == 0x81 {
        (Op::Nop, Form::Group1 { wide: true, sext: false })
    } else if b == 0x83 {
        (Op::Nop, Form::Group1 { wide: true, sext: true })
    } else if b == 0x84 {
        (Op::Test8, Form::RmReg { wide: false })
    } else if b == 0x85 {
        (Op::Test16, Form::RmReg { wide: true })
    } else if b == 0x86 {
        (Op::Xchg8, Form::RmReg { wide: false })
    } else if b == 0x87 {
        (Op::Xchg16, Form::RmReg { wide: true })
    } else if b == 0x88 {
        (Op::Mov8, Form::RmReg { wide: false })
    } else if b == 0x89 {
        (Op::Mov16, Form::RmReg { wide: true })
    } else if b == 0x8A {
        (Op::Mov8, Form::RegRm { wide: false })
    } else if b == 0x8B {
        (Op::Mov16, Form::RegRm { wide: true })
    } else if b == 0x8C {
        (Op::Mov16, Form::RmSreg)
    } else if b == 0x8D {
        (Op::Lea16, Form::Lea)
    } else if b == 0x8E {
        (Op::Mov16, Form::SregRm)
    } else if b == 0x8F {
        (Op::Pop16, Form::PopRm)
    } else if b == 0x90 {
        (Op::Nop, Form::NoOperands)
    } else if 0x91 <= b && b < 0x98 {
        (Op::Xchg16, Form::AxReg16)
    } else if b == 0x98 {
        (Op::Cbw, Form::NoOperands)
    } else if b == 0x99 {
        (Op::Cwd, Form::NoOperands)
    } else if b == 0x9A {
        (Op::CallFar, Form::FarPtr)
    } else if b == 0x9C {
        (Op::Pushf, Form::NoOperands)
    } else if b == 0x9D {
        (Op::Popf, Form::NoOperands)
    } else if b == 0x9E {
        (Op::Sahf, Form::NoOperands)
    } else if b == 0x9F {
        (Op::Lahf, Form::NoOperands)
    } else if 0xA0 <= b && b < 0xA4 {
        (if b % 2 == 1 { Op::Mov16 } else { Op::Mov8 }, Form::AccMem { wide: b % 2 == 1, store: b >= 0xA2 })
    } else if b == 0xA4 {
        (Op::Movsb, Form::NoOperands)
    } else if b == 0xA5 {
        (Op::Movsw, Form::NoOperands)
    } else if b == 0xA6 {
        (Op::Cmpsb, Form::NoOperands)
    } else if b == 0xA7 {
        (Op::Cmpsw, Form::NoOperands)
    } else if b == 0xA8 {
        (Op::Test8, Form::AccImm { wide: false })
    } else if b == 0xA9 {
        (Op::Test16, Form::AccImm { wide: true })
    } else if b == 0xAA {
        (Op::Stosb, Form::NoOperands)
    } else if b == 0xAB {
        (Op::Stosw, Form::NoOperands)
    } else if b == 0xAC {
        (Op::Lodsb, Form::NoOperands)
    } else if b == 0xAD {
        (Op::Lodsw, Form::NoOperands)
    } else if b == 0xAE {
        (Op::Scasb, Form::NoOperands)
    } else if b == 0xAF {
        (Op::Scasw, Form::NoOperands)
    } else if 0xB0 <= b && b < 0xB8 {
        (Op::Mov8, Form::RegImm { wide: false })
    } else if 0xB8 <= b && b < 0xC0 {
        (Op::Mov16, Form::RegImm { wide: true })
    } else if b == 0xC0 || b == 0xC1 {
        (Op::Nop, Form::Shift { wide: b == 0xC1, count: 0 })
    } else if b == 0xC2 {
        (Op::Retn, Form::Imm16)
    } else if b == 0xC3 {
        (Op::Retn, Form::NoOperands)
    } else if b == 0xC6 || b == 0xC7 {
        (if b == 0xC7 { Op::Mov16 } else { Op::Mov8 }, Form::MovRmImm { wide: b == 0xC7 })
    } else if b == 0xCA {
        (Op::Retf, Form::Imm16)
    } else if b == 0xCB {
        (Op::Retf, Form::NoOperands)
    } else if b == 0xCC {
        (Op::Int, Form::Int3)
    } else if b == 0xCD {
        (Op::Int, Form::Imm8)
    } else if b == 0xCF {
        (Op::Iret, Form::NoOperands)
    } else if b == 0xD0 || b == 0xD1 {
        (Op::Nop, Form::Shift { wide: b == 0xD1, count: 1 })
    } else if b == 0xD2 || b == 0xD3 {
        (Op::Nop, Form::Shift { wide: b == 0xD3, count: 2 })
    } else if b == 0xE0 {
        (Op::Loopne, Form::Rel8)
    } else if b == 0xE1 {
        (Op::Loope, Form::Rel8)
    } else if b == 0xE2 {
        (Op::Loop, Form::Rel8)
    } else if b == 0xE3 {
        (Op::Jcxz, Form::Rel8)
    } else if b == 0xE4 || b == 0xE5 {
        (if b == 0xE5 { Op::In16 } else { Op::In8 }, Form::PortImm { out: false, wide: b == 0xE5 })
    } else if b == 0xE6 || b == 0xE7 {
        (if b == 0xE7 { Op::Out16 } else { Op::Out8 }, Form::PortImm { out: true, wide: b == 0xE7 })
    } else if b == 0xE8 {
        (Op::CallNear, Form::Rel16)
    } else if b == 0xE9 {
        (Op::JmpNear, Form::Rel16)
    } else if b == 0xEA {
        (Op::JmpFar, Form::FarPtr)
    } else if b == 0xEB {
        (Op::JmpShort, Form::Rel8)
    } else if b == 0xEC || b == 0xED {
        (if b == 0xED { Op::In16 } else { Op::In8 }, Form::PortDx { out: false, wide: b == 0xED })
    } else if b == 0xEE || b == 0xEF {
        (if b == 0xEF { Op::Out16 } else { Op::Out8 }, Form::PortDx { out: true, wide: b == 0xEF })
    } else if b == 0xF4 {
        (Op::Hlt, Form::NoOperands)
    } else if b == 0xF5 {
        (Op::Cmc, Form::NoOperands)
    } else if b == 0xF6 || b == 0xF7 {
        (Op::Nop, Form::Group3 { wide: b == 0xF7 })
    } else if b == 0xF8 {
        (Op::Clc, Form::NoOperands)
    } else if b == 0xF9 {
        (Op::Stc, Form::NoOperands)
    } else if b == 0xFA {
        (Op::Cli, Form::NoOperands)
    } else if b == 0xFB {
        (Op::Sti, Form::NoOperands)
    } else if b == 0xFC {
        (Op::Cld, Form::NoOperands)
    } else if b == 0xFD {
        (Op::Std, Form::NoOperands)
    } else if b == 0xFE {
        (Op::Nop, Form::Group4)
    } else if b == 0xFF {
        (Op::Nop, Form::Group5)
    } else {
        (Op::Invalid(InvalidOp::Op { escape: false, byte: b }), Form::Unknown)
    }
}

/// The `r/m` operand of the ModR/M byte at `p`, and the position after its displacement.
#[verifier::opaque]
pub open spec fn rm_operand(code: Seq<u8>, p: int, seg: Segment, wide: bool) -> (Parameter, int) {
    let m = byte(code, p);
    let md = m / 64;
    let rm = m % 8;
    let am = AMode::of(rm);
    if md == 3 {
        (if wide { Parameter::Reg16(R16::of(rm)) } else { Parameter::Reg8(R8::of(rm)) }, p + 1)
    } else if md == 0 && rm == 6 {
        (if wide { Parameter::Ptr16(seg, imm16(code, p + 1)) } else { Parameter::Ptr8(seg, imm16(code, p + 1)) }, p + 3)
    } else if md == 0 {
        (if wide { Parameter::Ptr16Amode(seg, am) } else { Parameter::Ptr8Amode(seg, am) }, p + 1)
    } else if md == 1 {
        let d = byte(code, p + 1) as i8;
        (if wide { Parameter::Ptr16AmodeS8(seg, am, d) } else { Parameter::Ptr8AmodeS8(seg, am, d) }, p + 2)
    } else {
        let d = imm16(code, p + 1) as i16;
        (if wide { Parameter::Ptr16AmodeS16(seg, am, d) } else { Parameter::Ptr8AmodeS16(seg, am, d) }, p + 3)
    }
}

/// The `reg` field of the ModR/M byte at `p`.
pub open spec fn reg_field(code: Seq<u8>, p: int) -> u8 {
    (byte(code, p) / 8) % 8
}

pub open spec fn reg_operand(code: Seq<u8>, p: int, wide: bool) -> Parameter {
    if wide {
        Parameter::Reg16(R16::of(reg_field(code, p)))
    } else {
        Parameter::Reg8(R8::of(reg_field(code, p)))
    }
}

/// An immediate of the operand width at `i`, and the position after it.
pub open spec fn imm_operand(code: Seq<u8>, i: int, wide: bool) -> (Parameter, int) {
    if wide {
        (Parameter::Imm16(imm16(code, i)), i + 2)
    } else {
        (Parameter::Imm8(byte(code, i)), i + 1)
    }
}

pub open spec fn with_ops(ins: Instruction, op: Op, dst: Parameter, src: Parameter) -> Instruction {
    Instruction { command: op, params: ParameterSet { dst, src, src2: Parameter::Empty }, ..ins }
}

pub open spec fn done(ins: Instruction, len: int) -> InstructionInfo {
    InstructionInfo { instruction: ins, length: len as usize }
}

/// Decodes the operands of form `f` for operation `op`, whose opcode byte `b` ended at `p`.
pub open spec fn decode_form(code: Seq<u8>, p: int, pre: Instruction, b: u8, op: Op, f: Form) -> InstructionInfo {
    match f {
        Form::NoOperands | Form::AccImm { .. } | Form::RegImm { .. } | Form::Reg16 | Form::AxReg16 | Form::SregOp | Form::Imm8 | Form::Imm16 | Form::ImmS8 | Form::Rel8 | Form::Rel16 | Form::FarPtr | Form::Enter => decode_simple(code, p, pre, b, op, f),
        Form::RmReg { .. } | Form::RegRm { .. } | Form::SregRm | Form::RmSreg | Form::Lea | Form::AccMem { .. } | Form::PopRm | Form::MovRmImm { .. } | Form::Imul3 { .. } => decode_modrm(code, p, pre, b, op, f),
        Form::Group1 { .. } | Form::Shift { .. } | Form::Group3 { .. } => decode_group(code, p, pre, b, op, f),
        Form::Group4 | Form::Group5 => decode_group45(code, p, pre, b, op, f),
        Form::PortImm { .. } | Form::PortDx { .. } | Form::Int3 | Form::Skip { .. } | Form::Escape | Form::Unknown => decode_misc(code, p, pre, b, op, f),
    }
}

/// Forms without a ModR/M byte.
#[verifier::opaque]
pub open spec fn decode_simple(code: Seq<u8>, p: int, pre: Instruction, b: u8, op: Op, f: Form) -> InstructionInfo {
    let seg = pre.segment_prefix;
    let e = Parameter::Empty;
    match f {
        Form::NoOperands => done(with_ops(pre, op, e, e), p),
        Form::AccImm { wide } => {
            let (imm, q) = imm_operand(code, p, wide);
            done(with_ops(pre, op, if wide { Parameter::Reg16(R16::AX) } else { Parameter::Reg8(R8::AL) }, imm), q)
        },
        Form::RegImm { wide } => {
            let (imm, q) = imm_operand(code, p, wide);
            done(with_ops(pre, op, if wide { Parameter::Reg16(R16::of(b)) } else { Parameter::Reg8(R8::of(b)) }, imm), q)
        },
        Form::Reg16 => done(with_ops(pre, op, Parameter::Reg16(R16::of(b)), e), p),
        Form::AxReg16 => done(with_ops(pre, op, Parameter::Reg16(R16::AX), Parameter::Reg16(R16::of(b))), p),
        Form::SregOp => done(with_ops(pre, op, Parameter::SReg16(SR::of(((b / 8) % 4) as u8)), e), p),
        Form::Imm8 => done(with_ops(pre, op, Parameter::Imm8(byte(code, p)), e), p + 1),
        Form::Imm16 => done(with_ops(pre, op, Parameter::Imm16(imm16(code, p)), e), p + 2),
        Form::Enter => done(with_ops(pre, op, Parameter::Imm16(imm16(code, p)), Parameter::Imm8(byte(code, p + 2))), p + 3),
        Form::ImmS8 => done(with_ops(pre, op, Parameter::ImmS8(byte(code, p) as i8), e), p + 1),
        Form::Rel8 => done(with_ops(pre, op, Parameter::ImmS8(byte(code, p) as i8), e), p + 1),
        Form::Rel16 => done(with_ops(pre, op, Parameter::Imm16(imm16(code, p)), e), p + 2),
        Form::FarPtr => done(with_ops(pre, op, Parameter::Ptr16Imm(imm16(code, p + 2), imm16(code, p)), e), p + 4),
        _ => done(with_ops(pre, op, e, e), p),
    }
}

/// Forms with a ModR/M byte whose operation is fixed.
#[verifier::opaque]
pub open spec fn decode_modrm(code: Seq<u8>, p: int, pre: Instruction, b: u8, op: Op, f: Form) -> InstructionInfo {
    let seg = pre.segment_prefix;
    let e = Parameter::Empty;
    match f {
        Form::RmReg { wide } => {
            let (rm, q) = rm_operand(code, p, seg, wide);
            done(with_ops(pre, op, rm, reg_operand(code, p, wide)), q)
        },
        Form::RegRm { wide } => {
            let (rm, q) = rm_operand(code, p, seg, wide);
            done(with_ops(pre, op, reg_operand(code, p, wide), rm), q)
        },
        Form::SregRm => {
            let r = reg_field(code, p);
            let (rm, q) = rm_operand(code, p, seg, true);
            if r < 6 {
                done(with_ops(pre, op, Parameter::SReg16(SR::of(r)), rm), q)
            } else {
                done(with_ops(pre, Op::Invalid(InvalidOp::Reg { opcode: b, reg: r }), e, e), q)
            }
        },
        Form::RmSreg => {
            let r = reg_field(code, p);
            let (rm, q) = rm_operand(code, p, seg, true);
            if r < 6 {
                done(with_ops(pre, op, rm, Parameter::SReg16(SR::of(r))), q)
            } else {
                done(with_ops(pre, Op::Invalid(InvalidOp::Reg { opcode: b, reg: r }), e, e), q)
            }
        },
        Form::Lea => {
            let (rm, q) = rm_operand(code, p, seg, true);
            done(with_ops(pre, op, reg_operand(code, p, true), rm), q)
        },
        Form::Imul3 { sext } => {
            let (rm, q) = rm_operand(code, p, seg, true);
            let ins = with_ops(pre, op, reg_operand(code, p, true), rm);
            if sext {
                done(Instruction { params: ParameterSet { src2: Parameter::ImmS8(byte(code, q) as i8), ..ins.params }, ..ins }, q + 1)
            } else {
                done(Instruction { params: ParameterSet { src2: Parameter::Imm16(imm16(code, q)), ..ins.params }, ..ins }, q + 2)
            }
        },
        Form::AccMem { wide, store } => {
            let acc = if wide { Parameter::Reg16(R16::AX) } else { Parameter::Reg8(R8::AL) };
            let m = if wide { Parameter::Ptr16(seg, imm16(code, p)) } else { Parameter::Ptr8(seg, imm16(code, p)) };
            if store {
                done(with_ops(pre, op, m, acc), p + 2)
            } else {
                done(with_ops(pre, op, acc, m), p + 2)
            }
        },
        Form::PopRm => {
            let r = reg_field(code, p);
            let (rm, q) = rm_operand(code, p, seg, true);
            if r == 0 {
                done(with_ops(pre, op, rm, e), q)
            } else {
                done(with_ops(pre, Op::Invalid(InvalidOp::Reg { opcode: b, reg: r }), e, e), q)
            }
        },
        Form::MovRmImm { wide } => {
            let r = reg_field(code, p);
            let (rm, q) = rm_operand(code, p, seg, wide);
            let (imm, q2) = imm_operand(code, q, wide);
            if r == 0 {
                done(with_ops(pre, op, rm, imm), q2)
            } else {
                done(with_ops(pre, Op::Invalid(InvalidOp::Reg { opcode: b, reg: r }), e, e), q2)
            }
        },
        _ => done(with_ops(pre, op, e, e), p),
    }
}

/// Groups 1, 2 and 3: the operation comes from the `reg` field.
#[verifier::opaque]
pub open spec fn decode_group(code: Seq<u8>, p: int, pre: Instruction, b: u8, op: Op, f: Form) -> InstructionInfo {
    let seg = pre.segment_prefix;
    let e = Parameter::Empty;
    match f {
        Form::Group1 { wide, sext } => {
            let (rm, q) = rm_operand(code, p, seg, wide);
            let o = alu_op(reg_field(code, p), wide);
            if sext {
                done(with_ops(pre, o, rm, Parameter::ImmS8(byte(code, q) as i8)), q + 1)
            } else {
                let (imm, q2) = imm_operand(code, q, wide);
                done(with_ops(pre, o, rm, imm), q2)
            }
        },
        Form::Shift { wide, count } => {
            let (rm, q) = rm_operand(code, p, seg, wide);
            let r = reg_field(code, p);
            let o = if r == 6 { Op::Invalid(InvalidOp::Reg { opcode: b, reg: r }) } else { shift_op(r, wide) };
            if count == 0 {
                done(with_ops(pre, o, rm, Parameter::Imm8(byte(code, q))), q + 1)
            } else if count == 1 {
                done(with_ops(pre, o, rm, Parameter::Imm8(1)), q)
            } else {
                done(with_ops(pre, o, rm, Parameter::Reg8(R8::CL)), q)
            }
        },
        Form::Group3 { wide } => {
            let r = reg_field(code, p);
            let (rm, q) = rm_operand(code, p, seg, wide);
            if r == 0 {
                let (imm, q2) = imm_operand(code, q, wide);
                done(with_ops(pre, if wide { Op::Test16 } else { Op::Test8 }, rm, imm), q2)
            } else if r == 1 {
                done(with_ops(pre, Op::Invalid(InvalidOp::Reg { opcode: b, reg: r }), e, e), q)
            } else if r == 2 {
                done(with_ops(pre, if wide { Op::Not16 } else { Op::Not8 }, rm, e), q)
            } else if r == 3 {
                done(with_ops(pre, if wide { Op::Neg16 } else { Op::Neg8 }, rm, e), q)
            } else if r == 4 {
                done(with_ops(pre, if wide { Op::Mul16 } else { Op::Mul8 }, rm, e), q)
            } else if r == 5 {
                done(with_ops(pre, if wide { Op::Imul16 } else { Op::Imul8 }, rm, e), q)
            } else if r == 6 {
                done(with_ops(pre, if wide { Op::Div16 } else { Op::Div8 }, rm, e), q)
            } else {
                done(with_ops(pre, if wide { Op::Idiv16 } else { Op::Idiv8 }, rm, e), q)
            }
        },
        _ => done(with_ops(pre, op, e, e), p),
    }
}

/// Groups 4 and 5: INC, DEC, CALL, JMP and PUSH of r/m.
#[verifier::opaque]
pub open spec fn decode_group45(code: Seq<u8>, p: int, pre: Instruction, b: u8, op: Op, f: Form) -> InstructionInfo {
    let seg = pre.segment_prefix;
    let e = Parameter::Empty;
    match f {
        Form::Group4 => {
            let r = reg_field(code, p);
            let (rm, q) = rm_operand(code, p, seg, false);
            if r == 0 {
                done(with_ops(pre, Op::Inc8, rm, e), q)
            } else if r == 1 {
                done(with_ops(pre, Op::Dec8, rm, e), q)
            } else {
                done(with_ops(pre, Op::Invalid(InvalidOp::Reg { opcode: b, reg: r }), e, e), q)
            }
        },
        Form::Group5 => {
            let r = reg_field(code, p);
            let (rm, q) = rm_operand(code, p, seg, true);
            if r == 0 {
                done(with_ops(pre, Op::Inc16, rm, e), q)
            } else if r == 1 {
                done(with_ops(pre, Op::Dec16, rm, e), q)
            } else if r == 2 {
                done(with_ops(pre, Op::CallNear, rm, e), q)
            } else if (r == 3 || r == 5) && !(rm is Reg16) {
                done(with_ops(pre, if r == 3 { Op::CallFar } else { Op::JmpFar }, rm, e), q)
            } else if r == 4 {
                done(with_ops(pre, Op::JmpNear, rm, e), q)
            } else if r == 6 {
                done(with_ops(pre, Op::Push16, rm, e), q)
            } else {
                done(with_ops(pre, Op::Invalid(InvalidOp::Reg { opcode: b, reg: r }), e, e), q)
            }
        },
        _ => done(with_ops(pre, op, e, e), p),
    }
}

/// Port I/O, INT 3, skipped and escaped opcodes.
#[verifier::opaque]
pub open spec fn decode_misc(code: Seq<u8>, p: int, pre: Instruction, b: u8, op: Op, f: Form) -> InstructionInfo {
    let seg = pre.segment_prefix;
    let e = Parameter::Empty;
    match f {
        Form::PortImm { out, wide } => {
            let acc = if wide { Parameter::Reg16(R16::AX) } else { Parameter::Reg8(R8::AL) };
            let port = Parameter::Imm8(byte(code, p));
            if out {
                done(with_ops(pre, op, port, acc), p + 1)
            } else {
                done(with_ops(pre, op, acc, port), p + 1)
            }
        },
        Form::PortDx { out, wide } => {
            let acc = if wide { Parameter::Reg16(R16::AX) } else { Parameter::Reg8(R8::AL) };
            let port = Parameter::Reg16(R16::DX);
            if out {
                done(with_ops(pre, op, port, acc), p)
            } else {
                done(with_ops(pre, op, acc, port), p)
            }
        },
        Form::Int3 => done(with_ops(pre, op, Parameter::Imm8(3), e), p),
        Form::Skip { modrm, imm } => {
            let q = if modrm { rm_operand(code, p, seg, true).1 } else { p };
            done(with_ops(pre, op, e, e), q + imm as int)
        },
        Form::Escape => decode_escape(code, p, pre),
        Form::Unknown => done(with_ops(pre, op, e, e), p),
        _ => done(with_ops(pre, op, e, e), p),
    }
}


/// The 0F page: near conditional jumps, MOVZX, MOVSX, IMUL r16, r/m16, SHLD and SHRD.
pub open spec fn decode_escape(code: Seq<u8>, p: int, pre: Instruction) -> InstructionInfo {
    let b = byte(code, p);
    let seg = pre.segment_prefix;
    let e = Parameter::Empty;
    if 0x80 <= b && b < 0x90 {
        done(with_ops(pre, Op::Jcc(cond_of(b)), Parameter::Imm16(imm16(code, p + 1)), e), p + 3)
    } else if b == 0xB6 || b == 0xBE {
        let (rm, q) = rm_operand(code, p + 1, seg, false);
        done(with_ops(pre, if b == 0xB6 { Op::Movzx16 } else { Op::Movsx16 }, reg_operand(code, p + 1, true), rm), q)
    } else if b == 0xAF {
        let (rm, q) = rm_operand(code, p + 1, seg, true);
        done(with_ops(pre, Op::Imul16r, reg_operand(code, p + 1, true), rm), q)
    } else if b == 0xA4 || b == 0xA5 || b == 0xAC || b == 0xAD {
        let (rm, q) = rm_operand(code, p + 1, seg, true);
        let op = if b < 0xA8 { Op::Shld } else { Op::Shrd };
        let ins = with_ops(pre, op, rm, reg_operand(code, p + 1, true));
        if b == 0xA4 || b == 0xAC {
            done(Instruction { params: ParameterSet { src2: Parameter::Imm8(byte(code, q)), ..ins.params }, ..ins }, q + 1)
        } else {
            done(Instruction { params: ParameterSet { src2: Parameter::Reg8(R8::CL), ..ins.params }, ..ins }, q)
        }
    } else {
        done(with_ops(pre, Op::Invalid(InvalidOp::Op { escape: true, byte: b }), e, e), p + 1)
    }
}

/// F3 means REP in front of MOVS, STOS, LODS, INS and OUTS, and REPE in front of the
/// comparing string operations CMPS and SCAS.
pub open spec fn repeat_for(pre: Instruction, op: Op) -> Instruction {
    if pre.repeat == RepeatMode::Rep && (op == Op::Cmpsb || op == Op::Cmpsw || op == Op::Scasb
        || op == Op::Scasw) {
        Instruction { repeat: RepeatMode::Repe, ..pre }
    } else {
        pre
    }
}

/// An instruction with no prefix recorded yet.
pub open spec fn empty_instruction() -> Instruction {
    Instruction::plain(Op::Nop, Parameter::Empty, Parameter::Empty)
}

/// Decodes from position `p` on, prefixes recorded so far in `pre`. Running out of
/// bytes inside the prefixes gives an unknown opcode.
pub open spec fn decode_from(code: Seq<u8>, p: int, pre: Instruction) -> InstructionInfo
    decreases code.len() - p,
{
    if p < 0 || p >= code.len() {
        done(with_ops(pre, Op::Invalid(InvalidOp::Op { escape: false, byte: 0 }), Parameter::Empty, Parameter::Empty), p)
    } else {
        let b = code[p];
        if is_prefix(b) {
            decode_from(code, p + 1, apply_prefix(pre, b))
        } else {
            let (op, f) = primary(b);
            decode_form(code, p + 1, repeat_for(pre, op), b, op, f)
        }
    }
}

/// The instruction that a byte sequence starts with, and its length.
pub open spec fn decode_spec(code: Seq<u8>) -> InstructionInfo {
    decode_from(code, 0, empty_instruction())
}

pub fn byte_of(code: &[u8], i: usize) -> (r: u8)
    ensures
        r == byte(code@, i as int),
{
    if i < code.len() {
        code[i]
    } else {
        0
    }
}

pub fn imm16_of(code: &[u8], i: usize) -> (r: u16)
    requires
        i < usize::MAX,
    ensures
        r == imm16(code@, i as int),
{
    crate::memory::make_word(byte_of(code, i), byte_of(code, i + 1))
}

fn reg_field_at(code: &[u8], p: usize) -> (r: u8)
    ensures
        r == reg_field(code@, p as int),
        r < 8,
{
    (byte_of(code, p) / 8) % 8
}

fn reg_operand_at(code: &[u8], p: usize, wide: bool) -> (r: Parameter)
    ensures
        r == reg_operand(code@, p as int, wide),
{
    if wide {
        Parameter::Reg16(R16::from_index(reg_field_at(code, p)))
    } else {
        Parameter::Reg8(R8::from_index(reg_field_at(code, p)))
    }
}

fn imm_operand_at(code: &[u8], i: usize, wide: bool) -> (r: (Parameter, usize))
    requires
        i < usize::MAX - 2,
    ensures
        r.0 == imm_operand(code@, i as int, wide).0,
        r.1 as int == imm_operand(code@, i as int, wide).1,
{
    if wide {
        (Parameter::Imm16(imm16_of(code, i)), i + 2)
    } else {
        (Parameter::Imm8(byte_of(code, i)), i + 1)
    }
}

fn with_operands(ins: Instruction, op: Op, dst: Parameter, src: Parameter) -> (r: Instruction)
    ensures
        r == with_ops(ins, op, dst, src),
{
    Instruction { command: op, params: ParameterSet { dst, src, src2: Parameter::Empty }, ..ins }
}

fn finish(ins: Instruction, len: usize) -> (r: InstructionInfo)
    ensures
        r == done(ins, len as int),
{
    InstructionInfo { instruction: ins, length: len }
}


fn alu_operation(k: u8, wide: bool) -> (r: Op)
    ensures
        r == alu_op(k, wide),
{
    if k % 8 == 0 {
        if wide { Op::Add16 } else { Op::Add8 }
    } else if k % 8 == 1 {
        if wide { Op::Or16 } else { Op::Or8 }
    } else if k % 8 == 2 {
        if wide { Op::Adc16 } else { Op::Adc8 }
    } else if k % 8 == 3 {
        if wide { Op::Sbb16 } else { Op::Sbb8 }
    } else if k % 8 == 4 {
        if wide { Op::And16 } else { Op::And8 }
    } else if k % 8 == 5 {
        if wide { Op::Sub16 } else { Op::Sub8 }
    } else if k % 8 == 6 {
        if wide { Op::Xor16 } else { Op::Xor8 }
    } else {
        if wide { Op::Cmp16 } else { Op::Cmp8 }
    }
}

fn shift_operation(k: u8, wide: bool) -> (r: Op)
    ensures
        r == shift_op(k, wide),
{
    if k % 8 == 0 {
        if wide { Op::Rol16 } else { Op::Rol8 }
    } else if k % 8 == 1 {
        if wide { Op::Ror16 } else { Op::Ror8 }
    } else if k % 8 == 2 {
        if wide { Op::Rcl16 } else { Op::Rcl8 }
    } else if k % 8 == 3 {
        if wide { Op::Rcr16 } else { Op::Rcr8 }
    } else if k % 8 == 4 || k % 8 == 6 {
        if wide { Op::Shl16 } else { Op::Shl8 }
    } else if k % 8 == 5 {
        if wide { Op::Shr16 } else { Op::Shr8 }
    } else {
        if wide { Op::Sar16 } else { Op::Sar8 }
    }
}

fn condition_of(k: u8) -> (r: Cond)
    ensures
        r == cond_of(k),
{
    let c = k % 16;
    if c == 0 {
        Cond::O
    } else if c == 1 {
        Cond::NO
    } else if c == 2 {
        Cond::C
    } else if c == 3 {
        Cond::NC
    } else if c == 4 {
        Cond::Z
    } else if c == 5 {
        Cond::NZ
    } else if c == 6 {
        Cond::NA
    } else if c == 7 {
        Cond::A
    } else if c == 8 {
        Cond::S
    } else if c == 9 {
        Cond::NS
    } else if c == 10 {
        Cond::PE
    } else if c == 11 {
        Cond::PO
    } else if c == 12 {
        Cond::L
    } else if c == 13 {
        Cond::NL
    } else if c == 14 {
        Cond::NG
    } else {
        Cond::G
    }
}

fn unimplemented(b: u8) -> (r: Op)
    ensures
        r == unimpl(b),
{
    Op::Unimplemented { escape: false, byte: b }
}

/// The primary opcode table.
pub fn primary_entry(b: u8) -> (r: (Op, Form))
    ensures
        r == primary(b),
{
    reveal(primary);
    if b < 0x40 && b % 8 < 6 {
        (alu_operation(b / 8, b % 2 == 1), if b % 8 < 2 {
            Form::RmReg { wide: b % 2 == 1 }
        } else if b % 8 < 4 {
            Form::RegRm { wide: b % 2 == 1 }
        } else {
            Form::AccImm { wide: b % 2 == 1 }
        })
    } else if b == 0x0F {
        (Op::Nop, Form::Escape)
    } else if b == 0x06 || b == 0x0E || b == 0x16 || b == 0x1E {
        (Op::Push16, Form::SregOp)
    } else if b == 0x07 || b == 0x17 || b == 0x1F {
        (Op::Pop16, Form::SregOp)
    } else if b == 0x60 {
        (Op::Pusha, Form::NoOperands)
    } else if b == 0x61 {
        (Op::Popa, Form::NoOperands)
    } else if b == 0xC9 {
        (Op::Leave, Form::NoOperands)
    } else if b == 0xD7 {
        (Op::Xlatb, Form::NoOperands)
    } else if b == 0xC4 {
        (Op::Les, Form::Lea)
    } else if b == 0xC5 {
        (Op::Lds, Form::Lea)
    } else if b == 0x27 {
        (Op::Daa, Form::NoOperands)
    } else if b == 0x2F {
        (Op::Das, Form::NoOperands)
    } else if b == 0x37 {
        (Op::Aaa, Form::NoOperands)
    } else if b == 0x3F {
        (Op::Aas, Form::NoOperands)
    } else if b == 0xD4 {
        (Op::Aam, Form::Imm8)
    } else if b == 0xD5 {
        (Op::Aad, Form::Imm8)
    } else if b == 0x6C {
        (Op::Insb, Form::NoOperands)
    } else if b == 0x6D {
        (Op::Insw, Form::NoOperands)
    } else if b == 0x6E {
        (Op::Outsb, Form::NoOperands)
    } else if b == 0x6F {
        (Op::Outsw, Form::NoOperands)
    } else if b == 0x9B || b == 0xCE || b == 0xD6 {
        (unimplemented(b), Form::Skip { modrm: false, imm: 0 })
    } else if b == 0x62 || b == 0x63 {
        (unimplemented(b), Form::Skip { modrm: true, imm: 0 })
    } else if b == 0x69 {
        (Op::Imul16r, Form::Imul3 { sext: false })
    } else if b == 0x6B {
        (Op::Imul16r, Form::Imul3 { sext: true })
    } else if b == 0xC8 {
        (Op::Enter, Form::Enter)
    } else if 0x40 <= b && b < 0x48 {
        (Op::Inc16, Form::Reg16)
    } else if 0x48 <= b && b < 0x50 {
        (Op::Dec16, Form::Reg16)
    } else if 0x50 <= b && b < 0x58 {
        (Op::Push16, Form::Reg16)
    } else if 0x58 <= b && b < 0x60 {
        (Op::Pop16, Form::Reg16)
    } else if b == 0x68 {
        (Op::Push16, Form::Imm16)
    } else if b == 0x6A {
        (Op::Push16, Form::ImmS8)
    } else if 0x70 <= b && b < 0x80 {
        (Op::Jcc(condition_of(b)), Form::Rel8)
    } else if b == 0x80 || b == 0x82 {
        (Op::Nop, Form::Group1 { wide: false, sext: false })
    } else if b == 0x81 {
        (Op::Nop, Form::Group1 { wide: true, sext: false })
    } else if b == 0x83 {
        (Op::Nop, Form::Group1 { wide: true, sext: true })
    } else if b == 0x84 {
        (Op::Test8, Form::RmReg { wide: false })
    } else if b == 0x85 {
        (Op::Test16, Form::RmReg { wide: true })
    } else if b == 0x86 {
        (Op::Xchg8, Form::RmReg { wide: false })
    } else if b == 0x87 {
        (Op::Xchg16, Form::RmReg { wide: true })
    } else if b == 0x88 {
        (Op::Mov8, Form::RmReg { wide: false })
    } else if b == 0x89 {
        (Op::Mov16, Form::RmReg { wide: true })
    } else if b == 0x8A {
        (Op::Mov8, Form::RegRm { wide: false })
    } else if b == 0x8B {
        (Op::Mov16, Form::RegRm { wide: true })
    } else if b == 0x8C {
        (Op::Mov16, Form::RmSreg)
    } else if b == 0x8D {
        (Op::Lea16, Form::Lea)
    } else if b == 0x8E {
        (Op::Mov16, Form::SregRm)
    } else if b == 0x8F {
        (Op::Pop16, Form::PopRm)
    } else if b == 0x90 {
        (Op::Nop, Form::NoOperands)
    } else if 0x91 <= b && b < 0x98 {
        (Op::Xchg16, Form::AxReg16)
    } else if b == 0x98 {
        (Op::Cbw, Form::NoOperands)
    } else if b == 0x99 {
        (Op::Cwd, Form::NoOperands)
    } else if b == 0x9A {
        (Op::CallFar, Form::FarPtr)
    } else if b == 0x9C {
        (Op::Pushf, Form::NoOperands)
    } else if b == 0x9D {
        (Op::Popf, Form::NoOperands)
    } else if b == 0x9E {
        (Op::Sahf, Form::NoOperands)
    } else if b == 0x9F {
        (Op::Lahf, Form::NoOperands)
    } else if 0xA0 <= b && b < 0xA4 {
        (if b % 2 == 1 { Op::Mov16 } else { Op::Mov8 }, Form::AccMem { wide: b % 2 == 1, store: b >= 0xA2 })
    } else if b == 0xA4 {
        (Op::Movsb, Form::NoOperands)
    } else if b == 0xA5 {
        (Op::Movsw, Form::NoOperands)
    } else if b == 0xA6 {
        (Op::Cmpsb, Form::NoOperands)
    } else if b == 0xA7 {
        (Op::Cmpsw, Form::NoOperands)
    } else if b == 0xA8 {
        (Op::Test8, Form::AccImm { wide: false })
    } else if b == 0xA9 {
        (Op::Test16, Form::AccImm { wide: true })
    } else if b == 0xAA {
        (Op::Stosb, Form::NoOperands)
    } else if b == 0xAB {
        (Op::Stosw, Form::NoOperands)
    } else if b == 0xAC {
        (Op::Lodsb, Form::NoOperands)
    } else if b == 0xAD {
        (Op::Lodsw, Form::NoOperands)
    } else if b == 0xAE {
        (Op::Scasb, Form::NoOperands)
    } else if b == 0xAF {
        (Op::Scasw, Form::NoOperands)
    } else if 0xB0 <= b && b < 0xB8 {
        (Op::Mov8, Form::RegImm { wide: false })
    } else if 0xB8 <= b && b < 0xC0 {
        (Op::Mov16, Form::RegImm { wide: true })
    } else if b == 0xC0 || b == 0xC1 {
        (Op::Nop, Form::Shift { wide: b == 0xC1, count: 0 })
    } else if b == 0xC2 {
        (Op::Retn, Form::Imm16)
    } else if b == 0xC3 {
        (Op::Retn, Form::NoOperands)
    } else if b == 0xC6 || b == 0xC7 {
        (if b == 0xC7 { Op::Mov16 } else { Op::Mov8 }, Form::MovRmImm { wide: b == 0xC7 })
    } else if b == 0xCA {
        (Op::Retf, Form::Imm16)
    } else if b == 0xCB {
        (Op::Retf, Form::NoOperands)
    } else if b == 0xCC {
        (Op::Int, Form::Int3)
    } else if b == 0xCD {
        (Op::Int, Form::Imm8)
    } else if b == 0xCF {
        (Op::Iret, Form::NoOperands)
    } else if b == 0xD0 || b == 0xD1 {
        (Op::Nop, Form::Shift { wide: b == 0xD1, count: 1 })
    } else if b == 0xD2 || b == 0xD3 {
        (Op::Nop, Form::Shift { wide: b == 0xD3, count: 2 })
    } else if b == 0xE0 {
        (Op::Loopne, Form::Rel8)
    } else if b == 0xE1 {
        (Op::Loope, Form::Rel8)
    } else if b == 0xE2 {
        (Op::Loop, Form::Rel8)
    } else if b == 0xE3 {
        (Op::Jcxz, Form::Rel8)
    } else if b == 0xE4 || b == 0xE5 {
        (if b == 0xE5 { Op::In16 } else { Op::In8 }, Form::PortImm { out: false, wide: b == 0xE5 })
    } else if b == 0xE6 || b == 0xE7 {
        (if b == 0xE7 { Op::Out16 } else { Op::Out8 }, Form::PortImm { out: true, wide: b == 0xE7 })
    } else if b == 0xE8 {
        (Op::CallNear, Form::Rel16)
    } else if b == 0xE9 {
        (Op::JmpNear, Form::Rel16)
    } else if b == 0xEA {
        (Op::JmpFar, Form::FarPtr)
    } else if b == 0xEB {
        (Op::JmpShort, Form::Rel8)
    } else if b == 0xEC || b == 0xED {
        (if b == 0xED { Op::In16 } else { Op::In8 }, Form::PortDx { out: false, wide: b == 0xED })
    } else if b == 0xEE || b == 0xEF {
        (if b == 0xEF { Op::Out16 } else { Op::Out8 }, Form::PortDx { out: true, wide: b == 0xEF })
    } else if b == 0xF4 {
        (Op::Hlt, Form::NoOperands)
    } else if b == 0xF5 {
        (Op::Cmc, Form::NoOperands)
    } else if b == 0xF6 || b == 0xF7 {
        (Op::Nop, Form::Group3 { wide: b == 0xF7 })
    } else if b == 0xF8 {
        (Op::Clc, Form::NoOperands)
    } else if b == 0xF9 {
        (Op::Stc, Form::NoOperands)
    } else if b == 0xFA {
        (Op::Cli, Form::NoOperands)
    } else if b == 0xFB {
        (Op::Sti, Form::NoOperands)
    } else if b == 0xFC {
        (Op::Cld, Form::NoOperands)
    } else if b == 0xFD {
        (Op::Std, Form::NoOperands)
    } else if b == 0xFE {
        (Op::Nop, Form::Group4)
    } else if b == 0xFF {
        (Op::Nop, Form::Group5)
    } else {
        (Op::Invalid(InvalidOp::Op { escape: false, byte: b }), Form::Unknown)
    }
}

fn rm_operand_at(code: &[u8], p: usize, seg: Segment, wide: bool) -> (r: (Parameter, usize))
    requires
        p < usize::MAX - 3,
    ensures
        r.0 == rm_operand(code@, p as int, seg, wide).0 && r.1 as int == rm_operand(code@, p as int, seg, wide).1,
        p < r.1 <= p + 3,
{
    reveal(rm_operand);
    let m = byte_of(code, p);
    let md = m / 64;
    let rm = m % 8;
    let am = AMode::from_index(rm);
    if md == 3 {
        (if wide { Parameter::Reg16(R16::from_index(rm)) } else { Parameter::Reg8(R8::from_index(rm)) }, p + 1)
    } else if md == 0 && rm == 6 {
        (if wide { Parameter::Ptr16(seg, imm16_of(code, p + 1)) } else { Parameter::Ptr8(seg, imm16_of(code, p + 1)) }, p + 3)
    } else if md == 0 {
        (if wide { Parameter::Ptr16Amode(seg, am) } else { Parameter::Ptr8Amode(seg, am) }, p + 1)
    } else if md == 1 {
        let d = byte_of(code, p + 1) as i8;
        (if wide { Parameter::Ptr16AmodeS8(seg, am, d) } else { Parameter::Ptr8AmodeS8(seg, am, d) }, p + 2)
    } else {
        let d = imm16_of(code, p + 1) as i16;
        (if wide { Parameter::Ptr16AmodeS16(seg, am, d) } else { Parameter::Ptr8AmodeS16(seg, am, d) }, p + 3)
    }
}

fn decode_form_at(code: &[u8], p: usize, pre: Instruction, b: u8, op: Op, f: Form) -> (r: InstructionInfo)
    requires
        p <= 0x10001,
    ensures
        r == decode_form(code@, p as int, pre, b, op, f),
{
    match f {
        Form::NoOperands | Form::AccImm { .. } | Form::RegImm { .. } | Form::Reg16 | Form::AxReg16 | Form::SregOp | Form::Imm8 | Form::Imm16 | Form::ImmS8 | Form::Rel8 | Form::Rel16 | Form::FarPtr | Form::Enter => decode_simple_at(code, p, pre, b, op, f),
        Form::RmReg { .. } | Form::RegRm { .. } | Form::SregRm | Form::RmSreg | Form::Lea | Form::AccMem { .. } | Form::PopRm | Form::MovRmImm { .. } | Form::Imul3 { .. } => decode_modrm_at(code, p, pre, b, op, f),
        Form::Group1 { .. } | Form::Shift { .. } | Form::Group3 { .. } => decode_group_at(code, p, pre, b, op, f),
        Form::Group4 | Form::Group5 => decode_group45_at(code, p, pre, b, op, f),
        Form::PortImm { .. } | Form::PortDx { .. } | Form::Int3 | Form::Skip { .. } | Form::Escape | Form::Unknown => decode_misc_at(code, p, pre, b, op, f),
    }
}

fn decode_simple_at(code: &[u8], p: usize, pre: Instruction, b: u8, op: Op, f: Form) -> (r: InstructionInfo)
    requires
        p <= 0x10001,
    ensures
        r == decode_simple(code@, p as int, pre, b, op, f),
{
    reveal(decode_simple);
    let seg = pre.segment_prefix;
    let e = Parameter::Empty;
    match f {
        Form::NoOperands => finish(with_operands(pre, op, e, e), p),
        Form::AccImm { wide } => {
            let (imm, q) = imm_operand_at(code, p, wide);
            finish(with_operands(pre, op, if wide { Parameter::Reg16(R16::AX) } else { Parameter::Reg8(R8::AL) }, imm), q)
        },
        Form::RegImm { wide } => {
            let (imm, q) = imm_operand_at(code, p, wide);
            finish(with_operands(pre, op, if wide { Parameter::Reg16(R16::from_index(b)) } else { Parameter::Reg8(R8::from_index(b)) }, imm), q)
        },
        Form::Reg16 => finish(with_operands(pre, op, Parameter::Reg16(R16::from_index(b)), e), p),
        Form::AxReg16 => finish(with_operands(pre, op, Parameter::Reg16(R16::AX), Parameter::Reg16(R16::from_index(b))), p),
        Form::SregOp => finish(with_operands(pre, op, Parameter::SReg16(SR::from_index((b / 8) % 4)), e), p),
        Form::Imm8 => finish(with_operands(pre, op, Parameter::Imm8(byte_of(code, p)), e), p + 1),
        Form::Imm16 => finish(with_operands(pre, op, Parameter::Imm16(imm16_of(code, p)), e), p + 2),
        Form::Enter => finish(with_operands(pre, op, Parameter::Imm16(imm16_of(code, p)), Parameter::Imm8(byte_of(code, p + 2))), p + 3),
        Form::ImmS8 => finish(with_operands(pre, op, Parameter::ImmS8(byte_of(code, p) as i8), e), p + 1),
        Form::Rel8 => finish(with_operands(pre, op, Parameter::ImmS8(byte_of(code, p) as i8), e), p + 1),
        Form::Rel16 => finish(with_operands(pre, op, Parameter::Imm16(imm16_of(code, p)), e), p + 2),
        Form::FarPtr => finish(with_operands(pre, op, Parameter::Ptr16Imm(imm16_of(code, p + 2), imm16_of(code, p)), e), p + 4),
        _ => finish(with_operands(pre, op, e, e), p),
    }
}

fn decode_modrm_at(code: &[u8], p: usize, pre: Instruction, b: u8, op: Op, f: Form) -> (r: InstructionInfo)
    requires
        p <= 0x10001,
    ensures
        r == decode_modrm(code@, p as int, pre, b, op, f),
{
    reveal(decode_modrm);
    let seg = pre.segment_prefix;
    let e = Parameter::Empty;
    match f {
        Form::RmReg { wide } => {
            let (rm, q) = rm_operand_at(code, p, seg, wide);
            finish(with_operands(pre, op, rm, reg_operand_at(code, p, wide)), q)
        },
        Form::RegRm { wide } => {
            let (rm, q) = rm_operand_at(code, p, seg, wide);
            finish(with_operands(pre, op, reg_operand_at(code, p, wide), rm), q)
        },
        Form::SregRm => {
            let r = reg_field_at(code, p);
            let (rm, q) = rm_operand_at(code, p, seg, true);
            if r < 6 {
                finish(with_operands(pre, op, Parameter::SReg16(SR::from_index(r)), rm), q)
            } else {
                finish(with_operands(pre, Op::Invalid(InvalidOp::Reg { opcode: b, reg: r }), e, e), q)
            }
        },
        Form::RmSreg => {
            let r = reg_field_at(code, p);
            let (rm, q) = rm_operand_at(code, p, seg, true);
            if r < 6 {
                finish(with_operands(pre, op, rm, Parameter::SReg16(SR::from_index(r))), q)
            } else {
                finish(with_operands(pre, Op::Invalid(InvalidOp::Reg { opcode: b, reg: r }), e, e), q)
            }
        },
        Form::Lea => {
            let (rm, q) = rm_operand_at(code, p, seg, true);
            finish(with_operands(pre, op, reg_operand_at(code, p, true), rm), q)
        },
        Form::Imul3 { sext } => {
            let (rm, q) = rm_operand_at(code, p, seg, true);
            let ins = with_operands(pre, op, reg_operand_at(code, p, true), rm);
            if sext {
                finish(Instruction { params: ParameterSet { src2: Parameter::ImmS8(byte_of(code, q) as i8), ..ins.params }, ..ins }, q + 1)
            } else {
                finish(Instruction { params: ParameterSet { src2: Parameter::Imm16(imm16_of(code, q)), ..ins.params }, ..ins }, q + 2)
            }
        },
        Form::AccMem { wide, store } => {
            let acc = if wide { Parameter::Reg16(R16::AX) } else { Parameter::Reg8(R8::AL) };
            let m = if wide { Parameter::Ptr16(seg, imm16_of(code, p)) } else { Parameter::Ptr8(seg, imm16_of(code, p)) };
            if store {
                finish(with_operands(pre, op, m, acc), p + 2)
            } else {
                finish(with_operands(pre, op, acc, m), p + 2)
            }
        },
        Form::PopRm => {
            let r = reg_field_at(code, p);
            let (rm, q) = rm_operand_at(code, p, seg, true);
            if r == 0 {
                finish(with_operands(pre, op, rm, e), q)
            } else {
                finish(with_operands(pre, Op::Invalid(InvalidOp::Reg { opcode: b, reg: r }), e, e), q)
            }
        },
        Form::MovRmImm { wide } => {
            let r = reg_field_at(code, p);
            let (rm, q) = rm_operand_at(code, p, seg, wide);
            let (imm, q2) = imm_operand_at(code, q, wide);
            if r == 0 {
                finish(with_operands(pre, op, rm, imm), q2)
            } else {
                finish(with_operands(pre, Op::Invalid(InvalidOp::Reg { opcode: b, reg: r }), e, e), q2)
            }
        },
        _ => finish(with_operands(pre, op, e, e), p),
    }
}

fn decode_group_at(code: &[u8], p: usize, pre: Instruction, b: u8, op: Op, f: Form) -> (r: InstructionInfo)
    requires
        p <= 0x10001,
    ensures
        r == decode_group(code@, p as int, pre, b, op, f),
{
    reveal(decode_group);
    let seg = pre.segment_prefix;
    let e = Parameter::Empty;
    match f {
        Form::Group1 { wide, sext } => {
            let (rm, q) = rm_operand_at(code, p, seg, wide);
            let o = alu_operation(reg_field_at(code, p), wide);
            if sext {
                finish(with_operands(pre, o, rm, Parameter::ImmS8(byte_of(code, q) as i8)), q + 1)
            } else {
                let (imm, q2) = imm_operand_at(code, q, wide);
                finish(with_operands(pre, o, rm, imm), q2)
            }
        },
        Form::Shift { wide, count } => {
            let (rm, q) = rm_operand_at(code, p, seg, wide);
            let r = reg_field_at(code, p);
            let o = if r == 6 { Op::Invalid(InvalidOp::Reg { opcode: b, reg: r }) } else { shift_operation(r, wide) };
            if count == 0 {
                finish(with_operands(pre, o, rm, Parameter::Imm8(byte_of(code, q))), q + 1)
            } else if count == 1 {
                finish(with_operands(pre, o, rm, Parameter::Imm8(1)), q)
            } else {
                finish(with_operands(pre, o, rm, Parameter::Reg8(R8::CL)), q)
            }
        },
        Form::Group3 { wide } => {
            let r = reg_field_at(code, p);
            let (rm, q) = rm_operand_at(code, p, seg, wide);
            if r == 0 {
                let (imm, q2) = imm_operand_at(code, q, wide);
                finish(with_operands(pre, if wide { Op::Test16 } else { Op::Test8 }, rm, imm), q2)
            } else if r == 1 {
                finish(with_operands(pre, Op::Invalid(InvalidOp::Reg { opcode: b, reg: r }), e, e), q)
            } else if r == 2 {
                finish(with_operands(pre, if wide { Op::Not16 } else { Op::Not8 }, rm, e), q)
            } else if r == 3 {
                finish(with_operands(pre, if wide { Op::Neg16 } else { Op::Neg8 }, rm, e), q)
            } else if r == 4 {
                finish(with_operands(pre, if wide { Op::Mul16 } else { Op::Mul8 }, rm, e), q)
            } else if r == 5 {
                finish(with_operands(pre, if wide { Op::Imul16 } else { Op::Imul8 }, rm, e), q)
            } else if r == 6 {
                finish(with_operands(pre, if wide { Op::Div16 } else { Op::Div8 }, rm, e), q)
            } else {
                finish(with_operands(pre, if wide { Op::Idiv16 } else { Op::Idiv8 }, rm, e), q)
            }
        },
        _ => finish(with_operands(pre, op, e, e), p),
    }
}

fn is_register16(p: Parameter) -> (r: bool)
    ensures
        r == (p is Reg16),
{
    match p {
        Parameter::Reg16(_) => true,
        _ => false,
    }
}

fn decode_group45_at(code: &[u8], p: usize, pre: Instruction, b: u8, op: Op, f: Form) -> (r: InstructionInfo)
    requires
        p <= 0x10001,
    ensures
        r == decode_group45(code@, p as int, pre, b, op, f),
{
    reveal(decode_group45);
    let seg = pre.segment_prefix;
    let e = Parameter::Empty;
    match f {
        Form::Group4 => {
            let r = reg_field_at(code, p);
            let (rm, q) = rm_operand_at(code, p, seg, false);
            if r == 0 {
                finish(with_operands(pre, Op::Inc8, rm, e), q)
            } else if r == 1 {
                finish(with_operands(pre, Op::Dec8, rm, e), q)
            } else {
                finish(with_operands(pre, Op::Invalid(InvalidOp::Reg { opcode: b, reg: r }), e, e), q)
            }
        },
        Form::Group5 => {
            let r = reg_field_at(code, p);
            let (rm, q) = rm_operand_at(code, p, seg, true);
            if r == 0 {
                finish(with_operands(pre, Op::Inc16, rm, e), q)
            } else if r == 1 {
                finish(with_operands(pre, Op::Dec16, rm, e), q)
            } else if r == 2 {
                finish(with_operands(pre, Op::CallNear, rm, e), q)
            } else if (r == 3 || r == 5) && !is_register16(rm) {
                finish(with_operands(pre, if r == 3 { Op::CallFar } else { Op::JmpFar }, rm, e), q)
            } else if r == 4 {
                finish(with_operands(pre, Op::JmpNear, rm, e), q)
            } else if r == 6 {
                finish(with_operands(pre, Op::Push16, rm, e), q)
            } else {
                finish(with_operands(pre, Op::Invalid(InvalidOp::Reg { opcode: b, reg: r }), e, e), q)
            }
        },
        _ => finish(with_operands(pre, op, e, e), p),
    }
}

fn decode_misc_at(code: &[u8], p: usize, pre: Instruction, b: u8, op: Op, f: Form) -> (r: InstructionInfo)
    requires
        p <= 0x10001,
    ensures
        r == decode_misc(code@, p as int, pre, b, op, f),
{
    reveal(decode_misc);
    let seg = pre.segment_prefix;
    let e = Parameter::Empty;
    match f {
        Form::PortImm { out, wide } => {
            let acc = if wide { Parameter::Reg16(R16::AX) } else { Parameter::Reg8(R8::AL) };
            let port = Parameter::Imm8(byte_of(code, p));
            if out {
                finish(with_operands(pre, op, port, acc), p + 1)
            } else {
                finish(with_operands(pre, op, acc, port), p + 1)
            }
        },
        Form::PortDx { out, wide } => {
            let acc = if wide { Parameter::Reg16(R16::AX) } else { Parameter::Reg8(R8::AL) };
            let port = Parameter::Reg16(R16::DX);
            if out {
                finish(with_operands(pre, op, port, acc), p)
            } else {
                finish(with_operands(pre, op, acc, port), p)
            }
        },
        Form::Int3 => finish(with_operands(pre, op, Parameter::Imm8(3), e), p),
        Form::Skip { modrm, imm } => {
            let q = if modrm { rm_operand_at(code, p, seg, true).1 } else { p };
            finish(with_operands(pre, op, e, e), q + imm as usize)
        },
        Form::Escape => decode_escape_at(code, p, pre),
        Form::Unknown => finish(with_operands(pre, op, e, e), p),
        _ => finish(with_operands(pre, op, e, e), p),
    }
}


fn decode_escape_at(code: &[u8], p: usize, pre: Instruction) -> (r: InstructionInfo)
    requires
        p <= 0x10001,
    ensures
        r == decode_escape(code@, p as int, pre),
{
    let b = byte_of(code, p);
    let seg = pre.segment_prefix;
    let e = Parameter::Empty;
    if 0x80 <= b && b < 0x90 {
        finish(with_operands(pre, Op::Jcc(condition_of(b)), Parameter::Imm16(imm16_of(code, p + 1)), e), p + 3)
    } else if b == 0xB6 || b == 0xBE {
        let (rm, q) = rm_operand_at(code, p + 1, seg, false);
        finish(with_operands(pre, if b == 0xB6 { Op::Movzx16 } else { Op::Movsx16 }, reg_operand_at(code, p + 1, true), rm), q)
    } else if b == 0xAF {
        let (rm, q) = rm_operand_at(code, p + 1, seg, true);
        finish(with_operands(pre, Op::Imul16r, reg_operand_at(code, p + 1, true), rm), q)
    } else if b == 0xA4 || b == 0xA5 || b == 0xAC || b == 0xAD {
        let (rm, q) = rm_operand_at(code, p + 1, seg, true);
        let op = if b < 0xA8 { Op::Shld } else { Op::Shrd };
        let ins = with_operands(pre, op, rm, reg_operand_at(code, p + 1, true));
        if b == 0xA4 || b == 0xAC {
            finish(Instruction { params: ParameterSet { src2: Parameter::Imm8(byte_of(code, q)), ..ins.params }, ..ins }, q + 1)
        } else {
            finish(Instruction { params: ParameterSet { src2: Parameter::Reg8(R8::CL), ..ins.params }, ..ins }, q)
        }
    } else {
        finish(with_operands(pre, Op::Invalid(InvalidOp::Op { escape: true, byte: b }), e, e), p + 1)
    }
}

fn repeat_for_op(pre: Instruction, op: Op) -> (r: Instruction)
    ensures
        r == repeat_for(pre, op),
{
    let compares = match op {
        Op::Cmpsb | Op::Cmpsw | Op::Scasb | Op::Scasw => true,
        _ => false,
    };
    match pre.repeat {
        RepeatMode::Rep => if compares {
            Instruction { repeat: RepeatMode::Repe, ..pre }
        } else {
            pre
        },
        _ => pre,
    }
}

fn is_prefix_byte(b: u8) -> (r: bool)
    ensures
        r == is_prefix(b),
{
    b == 0x26 || b == 0x2E || b == 0x36 || b == 0x3E || b == 0x64 || b == 0x65 || b == 0xF0 || b
        == 0xF2 || b == 0xF3 || b == 0x66 || b == 0x67
}


fn record_prefix(ins: Instruction, b: u8) -> (r: Instruction)
    ensures
        r == apply_prefix(ins, b),
{
    if b == 0x26 {
        Instruction { segment_prefix: Segment::ES, ..ins }
    } else if b == 0x2E {
        Instruction { segment_prefix: Segment::CS, ..ins }
    } else if b == 0x36 {
        Instruction { segment_prefix: Segment::SS, ..ins }
    } else if b == 0x3E {
        Instruction { segment_prefix: Segment::DS, ..ins }
    } else if b == 0x64 {
        Instruction { segment_prefix: Segment::FS, ..ins }
    } else if b == 0x65 {
        Instruction { segment_prefix: Segment::GS, ..ins }
    } else if b == 0xF0 {
        Instruction { lock: true, ..ins }
    } else if b == 0xF2 {
        Instruction { repeat: RepeatMode::Repne, ..ins }
    } else if b == 0xF3 {
        Instruction { repeat: RepeatMode::Rep, ..ins }
    } else {
        ins
    }
}

/// Decodes the instruction that `code` starts with: any number of prefixes, the
/// opcode, ModR/M, displacement and immediate. The length counts every byte consumed.
pub fn decode(code: &[u8]) -> (r: InstructionInfo)
    requires
        code@.len() <= 0x10000,
    ensures
        r == decode_spec(code@),
{
    let mut p: usize = 0;
    let mut pre = Instruction::new(Op::Nop);
    while p < code.len() && is_prefix_byte(code[p])
        invariant
            p <= code@.len(),
            code@.len() <= 0x10000,
            decode_from(code@, p as int, pre) == decode_spec(code@),
        decreases code@.len() - p,
    {
        pre = record_prefix(pre, code[p]);
        p = p + 1;
    }
    if p >= code.len() {
        return finish(
            with_operands(
                pre,
                Op::Invalid(InvalidOp::Op { escape: false, byte: 0 }),
                Parameter::Empty,
                Parameter::Empty,
            ),
            p,
        );
    }
    let b = code[p];
    let (op, f) = primary_entry(b);
    decode_form_at(code, p + 1, repeat_for_op(pre, op), b, op, f)
}


/// `a` and `b` hold at least `n` bytes and agree on the first `n`.
pub open spec fn agree(a: Seq<u8>, b: Seq<u8>, n: int) -> bool {
    &&& 0 <= n <= a.len()
    &&& n <= b.len()
    &&& forall|i: int| 0 <= i < n ==> a[i] == b[i]
}

proof fn lemma_agree_reads(a: Seq<u8>, b: Seq<u8>, n: int)
    requires
        agree(a, b, n),
    ensures
        forall|i: int| 0 <= i < n ==> #[trigger] byte(a, i) == byte(b, i),
        forall|i: int| 0 <= i && i + 2 <= n ==> #[trigger] imm16(a, i) == imm16(b, i),
{
    assert forall|i: int| 0 <= i && i + 2 <= n implies #[trigger] imm16(a, i) == imm16(b, i) by {
        assert(byte(a, i) == byte(b, i));
        assert(byte(a, i + 1) == byte(b, i + 1));
    }
}

proof fn lemma_rm_bounds(a: Seq<u8>, p: int, seg: Segment, wide: bool)
    ensures
        p + 1 <= rm_operand(a, p, seg, wide).1 <= p + 3,
{
    reveal(rm_operand);
}

proof fn lemma_rm_agree(a: Seq<u8>, b: Seq<u8>, n: int, p: int, seg: Segment, wide: bool)
    requires
        agree(a, b, n),
        0 <= p,
        rm_operand(a, p, seg, wide).1 <= n,
    ensures
        rm_operand(b, p, seg, wide) == rm_operand(a, p, seg, wide),
{
    reveal(rm_operand);
    lemma_agree_reads(a, b, n);
}

/// The facts about reads below `n` that the per-form lemmas need.
proof fn lemma_reads_below(a: Seq<u8>, b: Seq<u8>, n: int)
    requires
        agree(a, b, n),
    ensures
        forall|i: int| 0 <= i < n ==> #[trigger] byte(a, i) == byte(b, i),
        forall|i: int| 0 <= i && i + 2 <= n ==> #[trigger] imm16(a, i) == imm16(b, i),
        forall|pp: int, sg: Segment, w: bool|
            0 <= pp && #[trigger] rm_operand(a, pp, sg, w).1 <= n ==> rm_operand(b, pp, sg, w)
                == rm_operand(a, pp, sg, w),
        forall|pp: int, sg: Segment, w: bool|
            pp + 1 <= #[trigger] rm_operand(a, pp, sg, w).1 <= pp + 3,
{
    lemma_agree_reads(a, b, n);
    assert forall|pp: int, sg: Segment, w: bool|
        0 <= pp && #[trigger] rm_operand(a, pp, sg, w).1 <= n implies rm_operand(b, pp, sg, w)
            == rm_operand(a, pp, sg, w) by {
        lemma_rm_agree(a, b, n, pp, sg, w);
    }
    assert forall|pp: int, sg: Segment, w: bool|
        pp + 1 <= #[trigger] rm_operand(a, pp, sg, w).1 <= pp + 3 by {
        lemma_rm_bounds(a, pp, sg, w);
    }
}

proof fn lemma_rm_bounds_all(a: Seq<u8>)
    ensures
        forall|pp: int, sg: Segment, w: bool|
            pp + 1 <= #[trigger] rm_operand(a, pp, sg, w).1 <= pp + 3,
{
    assert forall|pp: int, sg: Segment, w: bool|
        pp + 1 <= #[trigger] rm_operand(a, pp, sg, w).1 <= pp + 3 by {
        lemma_rm_bounds(a, pp, sg, w);
    }
}

proof fn lemma_simple_length(a: Seq<u8>, p: int, pre: Instruction, bt: u8, op: Op, f: Form)
    requires
        1 <= p <= a.len() + 1,
        a.len() <= 0x10000,
    ensures
        p <= decode_simple(a, p, pre, bt, op, f).length as int <= p + 0x200,
{
    reveal(decode_simple);
    lemma_rm_bounds_all(a);
}

proof fn lemma_simple_agree(a: Seq<u8>, b: Seq<u8>, p: int, pre: Instruction, bt: u8, op: Op, f: Form)
    requires
        1 <= p <= a.len() + 1,
        a.len() <= 0x10000,
        agree(a, b, decode_simple(a, p, pre, bt, op, f).length as int),
    ensures
        decode_simple(b, p, pre, bt, op, f) == decode_simple(a, p, pre, bt, op, f),
{
    lemma_simple_length(a, p, pre, bt, op, f);
    lemma_reads_below(a, b, decode_simple(a, p, pre, bt, op, f).length as int);
    reveal(decode_simple);
}

proof fn lemma_modrm_length(a: Seq<u8>, p: int, pre: Instruction, bt: u8, op: Op, f: Form)
    requires
        1 <= p <= a.len() + 1,
        a.len() <= 0x10000,
    ensures
        p <= decode_modrm(a, p, pre, bt, op, f).length as int <= p + 0x200,
{
    reveal(decode_modrm);
    lemma_rm_bounds_all(a);
}

proof fn lemma_modrm_agree(a: Seq<u8>, b: Seq<u8>, p: int, pre: Instruction, bt: u8, op: Op, f: Form)
    requires
        1 <= p <= a.len() + 1,
        a.len() <= 0x10000,
        agree(a, b, decode_modrm(a, p, pre, bt, op, f).length as int),
    ensures
        decode_modrm(b, p, pre, bt, op, f) == decode_modrm(a, p, pre, bt, op, f),
{
    lemma_modrm_length(a, p, pre, bt, op, f);
    lemma_reads_below(a, b, decode_modrm(a, p, pre, bt, op, f).length as int);
    reveal(decode_modrm);
}

proof fn lemma_group_length(a: Seq<u8>, p: int, pre: Instruction, bt: u8, op: Op, f: Form)
    requires
        1 <= p <= a.len() + 1,
        a.len() <= 0x10000,
    ensures
        p <= decode_group(a, p, pre, bt, op, f).length as int <= p + 0x200,
{
    reveal(decode_group);
    lemma_rm_bounds_all(a);
}

proof fn lemma_group_agree(a: Seq<u8>, b: Seq<u8>, p: int, pre: Instruction, bt: u8, op: Op, f: Form)
    requires
        1 <= p <= a.len() + 1,
        a.len() <= 0x10000,
        agree(a, b, decode_group(a, p, pre, bt, op, f).length as int),
    ensures
        decode_group(b, p, pre, bt, op, f) == decode_group(a, p, pre, bt, op, f),
{
    lemma_group_length(a, p, pre, bt, op, f);
    lemma_reads_below(a, b, decode_group(a, p, pre, bt, op, f).length as int);
    reveal(decode_group);
}

proof fn lemma_group45_length(a: Seq<u8>, p: int, pre: Instruction, bt: u8, op: Op, f: Form)
    requires
        1 <= p <= a.len() + 1,
        a.len() <= 0x10000,
    ensures
        p <= decode_group45(a, p, pre, bt, op, f).length as int <= p + 0x200,
{
    reveal(decode_group45);
    lemma_rm_bounds_all(a);
}

proof fn lemma_group45_agree(a: Seq<u8>, b: Seq<u8>, p: int, pre: Instruction, bt: u8, op: Op, f: Form)
    requires
        1 <= p <= a.len() + 1,
        a.len() <= 0x10000,
        agree(a, b, decode_group45(a, p, pre, bt, op, f).length as int),
    ensures
        decode_group45(b, p, pre, bt, op, f) == decode_group45(a, p, pre, bt, op, f),
{
    lemma_group45_length(a, p, pre, bt, op, f);
    lemma_reads_below(a, b, decode_group45(a, p, pre, bt, op, f).length as int);
    reveal(decode_group45);
}

proof fn lemma_misc_length(a: Seq<u8>, p: int, pre: Instruction, bt: u8, op: Op, f: Form)
    requires
        1 <= p <= a.len() + 1,
        a.len() <= 0x10000,
    ensures
        p <= decode_misc(a, p, pre, bt, op, f).length as int <= p + 0x200,
{
    reveal(decode_misc);
    lemma_rm_bounds_all(a);
}

proof fn lemma_misc_agree(a: Seq<u8>, b: Seq<u8>, p: int, pre: Instruction, bt: u8, op: Op, f: Form)
    requires
        1 <= p <= a.len() + 1,
        a.len() <= 0x10000,
        agree(a, b, decode_misc(a, p, pre, bt, op, f).length as int),
    ensures
        decode_misc(b, p, pre, bt, op, f) == decode_misc(a, p, pre, bt, op, f),
{
    lemma_misc_length(a, p, pre, bt, op, f);
    lemma_reads_below(a, b, decode_misc(a, p, pre, bt, op, f).length as int);
    reveal(decode_misc);
}

proof fn lemma_form_agree(a: Seq<u8>, b: Seq<u8>, p: int, pre: Instruction, bt: u8, op: Op, f: Form)
    requires
        1 <= p <= a.len() + 1,
        a.len() <= 0x10000,
        agree(a, b, decode_form(a, p, pre, bt, op, f).length as int),
    ensures
        decode_form(b, p, pre, bt, op, f) == decode_form(a, p, pre, bt, op, f),
        decode_form(a, p, pre, bt, op, f).length as int >= p,
{
    lemma_simple_length(a, p, pre, bt, op, f);
    lemma_modrm_length(a, p, pre, bt, op, f);
    lemma_group_length(a, p, pre, bt, op, f);
    lemma_group45_length(a, p, pre, bt, op, f);
    lemma_misc_length(a, p, pre, bt, op, f);
    match f {
        Form::NoOperands | Form::AccImm { .. } | Form::RegImm { .. } | Form::Reg16 | Form::AxReg16 | Form::SregOp | Form::Imm8 | Form::Imm16 | Form::ImmS8 | Form::Rel8 | Form::Rel16 | Form::FarPtr | Form::Enter => lemma_simple_agree(a, b, p, pre, bt, op, f),
        Form::RmReg { .. } | Form::RegRm { .. } | Form::SregRm | Form::RmSreg | Form::Lea | Form::AccMem { .. } | Form::PopRm | Form::MovRmImm { .. } | Form::Imul3 { .. } => lemma_modrm_agree(a, b, p, pre, bt, op, f),
        Form::Group1 { .. } | Form::Shift { .. } | Form::Group3 { .. } => lemma_group_agree(a, b, p, pre, bt, op, f),
        Form::Group4 | Form::Group5 => lemma_group45_agree(a, b, p, pre, bt, op, f),
        _ => lemma_misc_agree(a, b, p, pre, bt, op, f),
    }
}

/// The decoder reads prefixes until a byte that is none.
pub open spec fn has_opcode_from(code: Seq<u8>, p: int) -> bool {
    exists|i: int| p <= i < code.len() && !is_prefix(code[i])
}

proof fn lemma_from_agree(a: Seq<u8>, b: Seq<u8>, p: int, pre: Instruction)
    requires
        0 <= p,
        a.len() <= 0x10000,
        has_opcode_from(a, p),
        agree(a, b, decode_from(a, p, pre).length as int),
    ensures
        decode_from(b, p, pre) == decode_from(a, p, pre),
        decode_from(a, p, pre).length as int > p,
    decreases a.len() - p,
{
    let i = choose|i: int| p <= i < a.len() && !is_prefix(a[i]);
    let bt = a[p];
    if is_prefix(bt) {
        assert(has_opcode_from(a, p + 1));
        lemma_from_agree(a, b, p + 1, apply_prefix(pre, bt));
        assert(b[p] == a[p]);
    } else {
        let (op, f) = primary(bt);
        lemma_form_agree(a, b, p + 1, repeat_for(pre, op), bt, op, f);
        assert(b[p] == a[p]);
    }
}

/// The decoded length is the number of bytes the decoder consumed: decoding any input
/// that agrees with this one on the first `length` bytes gives the same instruction
/// and length. (The input holds a byte that is no prefix, and the instruction lies
/// within it.)
pub proof fn lemma_decode_consumes_length(a: Seq<u8>, b: Seq<u8>)
    requires
        a.len() <= 0x10000,
        has_opcode_from(a, 0),
        agree(a, b, decode_spec(a).length as int),
    ensures
        decode_spec(b) == decode_spec(a),
        decode_spec(a).length >= 1,
{
    lemma_from_agree(a, b, 0, empty_instruction());
}

} // verus!
