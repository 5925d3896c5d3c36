use vstd::prelude::*;

use crate::decoder::{byte, decode_spec, imm16, Form};
use crate::instruction::{AMode, Instruction, Op, Parameter, ParameterSet, RepeatMode, Segment, R16, R8};
use crate::memory::{hi_byte, lo_byte};

verus! {

/// Why an instruction has no encoding here.
#[derive(Clone, Copy, Debug, PartialEq, Eq, Structural)]
pub enum EncodeError {
    /// The operation, its operands or its prefixes have no encoding in this encoder.
    Unsupported,
}

/// Turns instructions back into bytes.
pub struct Encoder {}

pub open spec fn modrm_byte(md: int, reg: int, rm: int) -> u8 {
    (md * 64 + reg * 8 + rm) as u8
}

/// The little-endian bytes of a word.
pub open spec fn le16(w: u16) -> Seq<u8> {
    seq![lo_byte(w), hi_byte(w)]
}

/// The operand that decoding gives back for an encoded one. ModR/M has no form for a
/// bare `[BP]` (that pattern means `[disp16]`), so `[BP]` is encoded as `[BP+0]`.
pub open spec fn decoded_operand(p: Parameter) -> Parameter {
    match p {
        Parameter::Ptr8Amode(seg, AMode::BP) => Parameter::Ptr8AmodeS8(seg, AMode::BP, 0),
        Parameter::Ptr16Amode(seg, AMode::BP) => Parameter::Ptr16AmodeS8(seg, AMode::BP, 0),
        _ => p,
    }
}

/// The instruction that decoding gives back for an encoded one: equal to it, but for
/// `[BP]` operands, which come back as `[BP+0]`.
pub open spec fn decoded_form(ins: Instruction) -> Instruction {
    Instruction {
        params: ParameterSet {
            dst: decoded_operand(ins.params.dst),
            src: decoded_operand(ins.params.src),
            ..ins.params
        },
        ..ins
    }
}

/// An operand that the ModR/M `r/m` field can name without a segment prefix.
pub open spec fn rm_encoding(p: Parameter, reg: int, wide: bool) -> Option<Seq<u8>> {
    match p {
        Parameter::Reg8(r) => if !wide { Some(seq![modrm_byte(3, reg, r.idx() as int)]) } else { None },
        Parameter::Reg16(r) => if wide { Some(seq![modrm_byte(3, reg, r.idx() as int)]) } else { None },
        Parameter::Ptr8(Segment::Default, off) => if !wide { Some(seq![modrm_byte(0, reg, 6), lo_byte(off), hi_byte(off)]) } else { None },
        Parameter::Ptr16(Segment::Default, off) => if wide { Some(seq![modrm_byte(0, reg, 6), lo_byte(off), hi_byte(off)]) } else { None },
        Parameter::Ptr8Amode(Segment::Default, am) => if wide { None } else if am == AMode::BP { Some(seq![modrm_byte(1, reg, 6), 0u8]) } else { Some(seq![modrm_byte(0, reg, am.idx() as int)]) },
        Parameter::Ptr16Amode(Segment::Default, am) => if !wide { None } else if am == AMode::BP { Some(seq![modrm_byte(1, reg, 6), 0u8]) } else { Some(seq![modrm_byte(0, reg, am.idx() as int)]) },
        Parameter::Ptr8AmodeS8(Segment::Default, am, d) => if !wide { Some(seq![modrm_byte(1, reg, am.idx() as int), d as u8]) } else { None },
        Parameter::Ptr16AmodeS8(Segment::Default, am, d) => if wide { Some(seq![modrm_byte(1, reg, am.idx() as int), d as u8]) } else { None },
        Parameter::Ptr8AmodeS16(Segment::Default, am, d) => if !wide { Some(seq![modrm_byte(2, reg, am.idx() as int), lo_byte(d as u16), hi_byte(d as u16)]) } else { None },
        Parameter::Ptr16AmodeS16(Segment::Default, am, d) => if wide { Some(seq![modrm_byte(2, reg, am.idx() as int), lo_byte(d as u16), hi_byte(d as u16)]) } else { None },
        _ => None,
    }
}

pub open spec fn is_mem(p: Parameter) -> bool {
    match p {
        Parameter::Ptr8(..) | Parameter::Ptr16(..) | Parameter::Ptr8Amode(..) | Parameter::Ptr16Amode(..)
        | Parameter::Ptr8AmodeS8(..) | Parameter::Ptr16AmodeS8(..) | Parameter::Ptr8AmodeS16(..)
        | Parameter::Ptr16AmodeS16(..) => true,
        _ => false,
    }
}

/// Opcode byte followed by a ModR/M encoding of `rm`.
pub open spec fn with_rm(opcode: u8, rm: Parameter, reg: int, wide: bool) -> Option<Seq<u8>> {
    match rm_encoding(rm, reg, wide) {
        Some(bytes) => Some(seq![opcode] + bytes),
        None => None,
    }
}

/// One-byte instructions without operands.
pub open spec fn single_byte(op: Op) -> Option<u8> {
    match op {
        Op::Nop => Some(0x90u8),
        Op::Cbw => Some(0x98u8),
        Op::Cwd => Some(0x99u8),
        Op::Pushf => Some(0x9Cu8),
        Op::Popf => Some(0x9Du8),
        Op::Sahf => Some(0x9Eu8),
        Op::Lahf => Some(0x9Fu8),
        Op::Movsb => Some(0xA4u8),
        Op::Movsw => Some(0xA5u8),
        Op::Cmpsb => Some(0xA6u8),
        Op::Cmpsw => Some(0xA7u8),
        Op::Stosb => Some(0xAAu8),
        Op::Stosw => Some(0xABu8),
        Op::Lodsb => Some(0xACu8),
        Op::Lodsw => Some(0xADu8),
        Op::Scasb => Some(0xAEu8),
        Op::Scasw => Some(0xAFu8),
        Op::Retn => Some(0xC3u8),
        Op::Retf => Some(0xCBu8),
        Op::Iret => Some(0xCFu8),
        Op::Hlt => Some(0xF4u8),
        Op::Cmc => Some(0xF5u8),
        Op::Clc => Some(0xF8u8),
        Op::Stc => Some(0xF9u8),
        Op::Cli => Some(0xFAu8),
        Op::Sti => Some(0xFBu8),
        Op::Cld => Some(0xFCu8),
        Op::Std => Some(0xFDu8),
        _ => None,
    }
}

/// The `reg` field that selects a shift or rotate in the C0/C1 groups.
pub open spec fn shift_reg(op: Op) -> Option<(int, bool)> {
    match op {
        Op::Rol8 => Some((0int, false)),
        Op::Ror8 => Some((1int, false)),
        Op::Rcl8 => Some((2int, false)),
        Op::Rcr8 => Some((3int, false)),
        Op::Shl8 => Some((4int, false)),
        Op::Shr8 => Some((5int, false)),
        Op::Sar8 => Some((7int, false)),
        Op::Rol16 => Some((0int, true)),
        Op::Ror16 => Some((1int, true)),
        Op::Rcl16 => Some((2int, true)),
        Op::Rcr16 => Some((3int, true)),
        Op::Shl16 => Some((4int, true)),
        Op::Shr16 => Some((5int, true)),
        Op::Sar16 => Some((7int, true)),
        _ => None,
    }
}

/// The encoding of an instruction without prefixes, where this encoder has one.
#[verifier::opaque]
pub open spec fn encode_spec(ins: Instruction) -> Option<Seq<u8>> {
    let d = ins.params.dst;
    let s = ins.params.src;
    if ins.segment_prefix != Segment::Default || ins.lock || ins.repeat != RepeatMode::Plain
        || ins.params.src2 != Parameter::Empty {
        None
    } else if single_byte(ins.command).is_some() {
        if d == Parameter::Empty && s == Parameter::Empty {
            Some(seq![single_byte(ins.command).unwrap()])
        } else {
            None
        }
    } else if shift_reg(ins.command).is_some() {
        let (reg, wide) = shift_reg(ins.command).unwrap();
        match (with_rm(if wide { 0xC1u8 } else { 0xC0u8 }, d, reg, wide), s) {
            (Some(bytes), Parameter::Imm8(n)) => Some(bytes + seq![n]),
            _ => None,
        }
    } else {
        match (ins.command, d, s) {
            (Op::Mov8, Parameter::Reg8(r), Parameter::Imm8(i)) => Some(seq![(0xB0 + r.idx()) as u8, i]),
            (Op::Mov16, Parameter::Reg16(r), Parameter::Imm16(i)) => Some(seq![(0xB8 + r.idx()) as u8] + le16(i)),
            (Op::Mov8, _, Parameter::Reg8(r)) => with_rm(0x88, d, r.idx() as int, false),
            (Op::Mov8, Parameter::Reg8(r), _) => if is_mem(s) { with_rm(0x8A, s, r.idx() as int, false) } else { None },
            (Op::Mov16, _, Parameter::Reg16(r)) => with_rm(0x89, d, r.idx() as int, true),
            (Op::Mov16, Parameter::Reg16(r), _) => if is_mem(s) { with_rm(0x8B, s, r.idx() as int, true) } else { None },
            (Op::Inc8, _, Parameter::Empty) => with_rm(0xFE, d, 0, false),
            (Op::Dec8, _, Parameter::Empty) => with_rm(0xFE, d, 1, false),
            (Op::Inc16, Parameter::Reg16(r), Parameter::Empty) => Some(seq![(0x40 + r.idx()) as u8]),
            (Op::Dec16, Parameter::Reg16(r), Parameter::Empty) => Some(seq![(0x48 + r.idx()) as u8]),
            (Op::Inc16, _, Parameter::Empty) => if is_mem(d) { with_rm(0xFF, d, 0, true) } else { None },
            (Op::Dec16, _, Parameter::Empty) => if is_mem(d) { with_rm(0xFF, d, 1, true) } else { None },
            (Op::Push16, Parameter::Reg16(r), Parameter::Empty) => Some(seq![(0x50 + r.idx()) as u8]),
            (Op::Pop16, Parameter::Reg16(r), Parameter::Empty) => Some(seq![(0x58 + r.idx()) as u8]),
            (Op::Push16, Parameter::Imm16(i), Parameter::Empty) => Some(seq![0x68u8] + le16(i)),
            (Op::Int, Parameter::Imm8(v), Parameter::Empty) => Some(seq![0xCDu8, v]),
            _ => None,
        }
    }
}

proof fn lemma_modrm_fields(md: int, reg: int, rm: int)
    requires
        0 <= md < 4,
        0 <= reg < 8,
        0 <= rm < 8,
    ensures
        modrm_byte(md, reg, rm) as int == md * 64 + reg * 8 + rm,
        modrm_byte(md, reg, rm) / 64 == md,
        (modrm_byte(md, reg, rm) / 8) % 8 == reg,
        modrm_byte(md, reg, rm) % 8 == rm,
{
    assert(0 <= md * 64 + reg * 8 + rm < 256) by (nonlinear_arith)
        requires
            0 <= md < 4,
            0 <= reg < 8,
            0 <= rm < 8,
    ;
    let v = md * 64 + reg * 8 + rm;
    assert(v / 64 == md) by (nonlinear_arith)
        requires
            v == md * 64 + reg * 8 + rm,
            0 <= md < 4,
            0 <= reg < 8,
            0 <= rm < 8,
    ;
    assert((v / 8) % 8 == reg) by (nonlinear_arith)
        requires
            v == md * 64 + reg * 8 + rm,
            0 <= md < 4,
            0 <= reg < 8,
            0 <= rm < 8,
    ;
    assert(v % 8 == rm) by (nonlinear_arith)
        requires
            v == md * 64 + reg * 8 + rm,
            0 <= md < 4,
            0 <= reg < 8,
            0 <= rm < 8,
    ;
}

proof fn lemma_i8_round_trip(d: i8)
    ensures
        (d as u8) as i8 == d,
{
    assert((d as u8) as i8 == d) by (bit_vector);
}

proof fn lemma_i16_round_trip(d: i16)
    ensures
        (d as u16) as i16 == d,
{
    assert((d as u16) as i16 == d) by (bit_vector);
}

proof fn lemma_le16(code: Seq<u8>, i: int, w: u16)
    requires
        0 <= i,
        i + 2 <= code.len(),
        code[i] == lo_byte(w),
        code[i + 1] == hi_byte(w),
    ensures
        imm16(code, i) == w,
{
}

proof fn lemma_rm_reg(p: Parameter, reg: int, wide: bool, code: Seq<u8>, at: int)
    requires
        0 <= reg < 8,
        p is Reg8 || p is Reg16,
        0 <= at,
        rm_encoding(p, reg, wide) is Some,
        at + rm_encoding(p, reg, wide).unwrap().len() <= code.len(),
        forall|k: int| 0 <= k < rm_encoding(p, reg, wide).unwrap().len() ==> code[at + k] == #[trigger] rm_encoding(p, reg, wide).unwrap()[k],
    ensures
        crate::decoder::rm_operand(code, at, Segment::Default, wide) == (decoded_operand(p), at + rm_encoding(p, reg, wide).unwrap().len()),
        crate::decoder::reg_field(code, at) == reg,
{
    reveal(crate::decoder::rm_operand);
    let bytes = rm_encoding(p, reg, wide).unwrap();
    assert(code[at] == bytes[0]);
    match p {
        Parameter::Reg8(r) => lemma_modrm_fields(3, reg, r.idx() as int),
        Parameter::Reg16(r) => lemma_modrm_fields(3, reg, r.idx() as int),
        _ => {},
    }
}

proof fn lemma_rm_direct(p: Parameter, reg: int, wide: bool, code: Seq<u8>, at: int)
    requires
        0 <= reg < 8,
        p is Ptr8 || p is Ptr16,
        0 <= at,
        rm_encoding(p, reg, wide) is Some,
        at + rm_encoding(p, reg, wide).unwrap().len() <= code.len(),
        forall|k: int| 0 <= k < rm_encoding(p, reg, wide).unwrap().len() ==> code[at + k] == #[trigger] rm_encoding(p, reg, wide).unwrap()[k],
    ensures
        crate::decoder::rm_operand(code, at, Segment::Default, wide) == (decoded_operand(p), at + rm_encoding(p, reg, wide).unwrap().len()),
        crate::decoder::reg_field(code, at) == reg,
{
    reveal(crate::decoder::rm_operand);
    let bytes = rm_encoding(p, reg, wide).unwrap();
    assert(code[at] == bytes[0]);
    assert(code[at + 1] == bytes[1]);
    assert(code[at + 2] == bytes[2]);
    lemma_modrm_fields(0, reg, 6);
    match p {
        Parameter::Ptr8(_, off) => lemma_le16(code, at + 1, off),
        Parameter::Ptr16(_, off) => lemma_le16(code, at + 1, off),
        _ => {},
    }
}

proof fn lemma_rm_amode(p: Parameter, reg: int, wide: bool, code: Seq<u8>, at: int)
    requires
        0 <= reg < 8,
        p is Ptr8Amode || p is Ptr16Amode,
        0 <= at,
        rm_encoding(p, reg, wide) is Some,
        at + rm_encoding(p, reg, wide).unwrap().len() <= code.len(),
        forall|k: int| 0 <= k < rm_encoding(p, reg, wide).unwrap().len() ==> code[at + k] == #[trigger] rm_encoding(p, reg, wide).unwrap()[k],
    ensures
        crate::decoder::rm_operand(code, at, Segment::Default, wide) == (decoded_operand(p), at + rm_encoding(p, reg, wide).unwrap().len()),
        crate::decoder::reg_field(code, at) == reg,
{
    reveal(crate::decoder::rm_operand);
    let bytes = rm_encoding(p, reg, wide).unwrap();
    assert(code[at] == bytes[0]);
    match p {
        Parameter::Ptr8Amode(_, am) | Parameter::Ptr16Amode(_, am) => {
            if am == AMode::BP {
                assert(code[at + 1] == bytes[1]);
                lemma_modrm_fields(1, reg, 6);
                assert((0u8 as i8) == 0i8) by (bit_vector);
            } else {
                lemma_modrm_fields(0, reg, am.idx() as int);
            }
        },
        _ => {},
    }
}

proof fn lemma_rm_disp8(p: Parameter, reg: int, wide: bool, code: Seq<u8>, at: int)
    requires
        0 <= reg < 8,
        p is Ptr8AmodeS8 || p is Ptr16AmodeS8,
        0 <= at,
        rm_encoding(p, reg, wide) is Some,
        at + rm_encoding(p, reg, wide).unwrap().len() <= code.len(),
        forall|k: int| 0 <= k < rm_encoding(p, reg, wide).unwrap().len() ==> code[at + k] == #[trigger] rm_encoding(p, reg, wide).unwrap()[k],
    ensures
        crate::decoder::rm_operand(code, at, Segment::Default, wide) == (decoded_operand(p), at + rm_encoding(p, reg, wide).unwrap().len()),
        crate::decoder::reg_field(code, at) == reg,
{
    reveal(crate::decoder::rm_operand);
    let bytes = rm_encoding(p, reg, wide).unwrap();
    assert(code[at] == bytes[0]);
    assert(code[at + 1] == bytes[1]);
    match p {
        Parameter::Ptr8AmodeS8(_, am, d) => {
            lemma_modrm_fields(1, reg, am.idx() as int);
            lemma_i8_round_trip(d);
        },
        Parameter::Ptr16AmodeS8(_, am, d) => {
            lemma_modrm_fields(1, reg, am.idx() as int);
            lemma_i8_round_trip(d);
        },
        _ => {},
    }
}

proof fn lemma_rm_disp16(p: Parameter, reg: int, wide: bool, code: Seq<u8>, at: int)
    requires
        0 <= reg < 8,
        p is Ptr8AmodeS16 || p is Ptr16AmodeS16,
        0 <= at,
        rm_encoding(p, reg, wide) is Some,
        at + rm_encoding(p, reg, wide).unwrap().len() <= code.len(),
        forall|k: int| 0 <= k < rm_encoding(p, reg, wide).unwrap().len() ==> code[at + k] == #[trigger] rm_encoding(p, reg, wide).unwrap()[k],
    ensures
        crate::decoder::rm_operand(code, at, Segment::Default, wide) == (decoded_operand(p), at + rm_encoding(p, reg, wide).unwrap().len()),
        crate::decoder::reg_field(code, at) == reg,
{
    reveal(crate::decoder::rm_operand);
    let bytes = rm_encoding(p, reg, wide).unwrap();
    assert(code[at] == bytes[0]);
    assert(code[at + 1] == bytes[1]);
    assert(code[at + 2] == bytes[2]);
    match p {
        Parameter::Ptr8AmodeS16(_, am, d) => {
            lemma_modrm_fields(2, reg, am.idx() as int);
            lemma_le16(code, at + 1, d as u16);
            lemma_i16_round_trip(d);
        },
        Parameter::Ptr16AmodeS16(_, am, d) => {
            lemma_modrm_fields(2, reg, am.idx() as int);
            lemma_le16(code, at + 1, d as u16);
            lemma_i16_round_trip(d);
        },
        _ => {},
    }
}

/// The `r/m` operand decodes from its encoding, which leaves `reg` in the `reg` field.
proof fn lemma_rm_round_trip(p: Parameter, reg: int, wide: bool, code: Seq<u8>, at: int)
    requires
        0 <= reg < 8,
        0 <= at,
        rm_encoding(p, reg, wide) is Some,
        at + rm_encoding(p, reg, wide).unwrap().len() <= code.len(),
        code.subrange(at, at + rm_encoding(p, reg, wide).unwrap().len() as int) == rm_encoding(p, reg, wide).unwrap(),
    ensures
        crate::decoder::rm_operand(code, at, Segment::Default, wide) == (decoded_operand(p), at + rm_encoding(p, reg, wide).unwrap().len()),
        crate::decoder::reg_field(code, at) == reg,
{
    let bytes = rm_encoding(p, reg, wide).unwrap();
    assert forall|k: int| 0 <= k < bytes.len() implies code[at + k] == #[trigger] bytes[k] by {
        assert(code.subrange(at, at + bytes.len() as int)[k] == bytes[k]);
    }
    if p is Reg8 || p is Reg16 {
        lemma_rm_reg(p, reg, wide, code, at);
    } else if p is Ptr8 || p is Ptr16 {
        lemma_rm_direct(p, reg, wide, code, at);
    } else if p is Ptr8Amode || p is Ptr16Amode {
        lemma_rm_amode(p, reg, wide, code, at);
    } else if p is Ptr8AmodeS8 || p is Ptr16AmodeS8 {
        lemma_rm_disp8(p, reg, wide, code, at);
    } else {
        lemma_rm_disp16(p, reg, wide, code, at);
    }
}

proof fn lemma_with_rm(opcode: u8, p: Parameter, reg: int, wide: bool, tail: Seq<u8>)
    requires
        0 <= reg < 8,
        with_rm(opcode, p, reg, wide) is Some,
    ensures
        ({
            let code = with_rm(opcode, p, reg, wide).unwrap() + tail;
            &&& code[0] == opcode
            &&& crate::decoder::rm_operand(code, 1, Segment::Default, wide) == (decoded_operand(p), with_rm(opcode, p, reg, wide).unwrap().len() as int)
            &&& crate::decoder::reg_field(code, 1) == reg
        }),
{
    let rb = rm_encoding(p, reg, wide).unwrap();
    let code = with_rm(opcode, p, reg, wide).unwrap() + tail;
    assert(code.subrange(1, 1 + rb.len() as int) =~= rb);
    lemma_rm_round_trip(p, reg, wide, code, 1);
}

proof fn lemma_decode_first(code: Seq<u8>)
    requires
        code.len() > 0,
        !crate::decoder::is_prefix(code[0]),
    ensures
        decode_spec(code) == crate::decoder::decode_form(
            code,
            1,
            crate::decoder::empty_instruction(),
            code[0],
            crate::decoder::primary(code[0]).0,
            crate::decoder::primary(code[0]).1,
        ),
{
}

pub open spec fn round_trips(ins: Instruction, rest: Seq<u8>) -> bool {
    &&& decode_spec(encode_spec(ins).unwrap() + rest).instruction == decoded_form(ins)
    &&& decode_spec(encode_spec(ins).unwrap() + rest).length as int == encode_spec(ins).unwrap().len()
}

proof fn lemma_round_trip_single(ins: Instruction, rest: Seq<u8>)
    requires
        encode_spec(ins) is Some,
        single_byte(ins.command).is_some(),
    ensures
        round_trips(ins, rest),
{
    reveal(encode_spec);
    reveal(crate::decoder::primary);
    reveal(crate::decoder::decode_simple);
    let code = encode_spec(ins).unwrap() + rest;
    lemma_decode_first(code);
}

proof fn lemma_round_trip_shift(ins: Instruction, rest: Seq<u8>)
    requires
        encode_spec(ins) is Some,
        single_byte(ins.command).is_none(),
        shift_reg(ins.command).is_some(),
    ensures
        round_trips(ins, rest),
{
    reveal(encode_spec);
    reveal(crate::decoder::primary);
    reveal(crate::decoder::decode_group);
    let bytes = encode_spec(ins).unwrap();
    let code = bytes + rest;
    let (reg, wide) = shift_reg(ins.command).unwrap();
    let op = if wide { 0xC1u8 } else { 0xC0u8 };
    let d = ins.params.dst;
    let wb = with_rm(op, d, reg, wide).unwrap();
    let n = bytes[wb.len() as int];
    assert(code =~= wb + (seq![n] + rest));
    lemma_with_rm(op, d, reg, wide, seq![n] + rest);
    lemma_decode_first(code);
    assert(byte(code, wb.len() as int) == n);
}

proof fn lemma_round_trip_rm(rest: Seq<u8>, op: u8, p: Parameter, reg: int, wide: bool, o: Op, f: Form)
    requires
        0 <= reg < 8,
        with_rm(op, p, reg, wide) is Some,
        !crate::decoder::is_prefix(op),
        crate::decoder::primary(op) == (o, f),
    ensures
        ({
            let code = with_rm(op, p, reg, wide).unwrap() + rest;
            &&& code[0] == op
            &&& crate::decoder::rm_operand(code, 1, Segment::Default, wide) == (decoded_operand(p), with_rm(op, p, reg, wide).unwrap().len() as int)
            &&& crate::decoder::reg_field(code, 1) == reg
            &&& decode_spec(code) == crate::decoder::decode_form(
                code,
                1,
                crate::decoder::empty_instruction(),
                op,
                o,
                f,
            )
        }),
{
    let code = with_rm(op, p, reg, wide).unwrap() + rest;
    lemma_with_rm(op, p, reg, wide, rest);
    lemma_decode_first(code);
}

proof fn lemma_primary_rm_forms()
    ensures
        crate::decoder::primary(0x88) == (Op::Mov8, Form::RmReg { wide: false }),
        crate::decoder::primary(0x89) == (Op::Mov16, Form::RmReg { wide: true }),
        crate::decoder::primary(0x8A) == (Op::Mov8, Form::RegRm { wide: false }),
        crate::decoder::primary(0x8B) == (Op::Mov16, Form::RegRm { wide: true }),
        crate::decoder::primary(0xFE) == (Op::Nop, Form::Group4),
        crate::decoder::primary(0xFF) == (Op::Nop, Form::Group5),
{
    reveal(crate::decoder::primary);
}

proof fn lemma_encode_mov_store(ins: Instruction)
    requires
        encode_spec(ins) is Some,
        (ins.command == Op::Mov8 && ins.params.src is Reg8) || (ins.command == Op::Mov16
            && ins.params.src is Reg16),
    ensures
        match ins.params.src {
            Parameter::Reg8(r) => encode_spec(ins) == with_rm(0x88, ins.params.dst, r.idx() as int, false),
            Parameter::Reg16(r) => encode_spec(ins) == with_rm(0x89, ins.params.dst, r.idx() as int, true),
            _ => false,
        },
        ins.segment_prefix == Segment::Default && !ins.lock && ins.repeat == RepeatMode::Plain
            && ins.params.src2 == Parameter::Empty,
{
    reveal(encode_spec);
}

proof fn lemma_encode_mov_load(ins: Instruction)
    requires
        encode_spec(ins) is Some,
        (ins.command == Op::Mov8 && ins.params.dst is Reg8 && !(ins.params.src is Reg8)
            && !(ins.params.src is Imm8)) || (ins.command == Op::Mov16 && ins.params.dst is Reg16
            && !(ins.params.src is Reg16) && !(ins.params.src is Imm16)),
    ensures
        match ins.params.dst {
            Parameter::Reg8(r) => encode_spec(ins) == with_rm(0x8A, ins.params.src, r.idx() as int, false),
            Parameter::Reg16(r) => encode_spec(ins) == with_rm(0x8B, ins.params.src, r.idx() as int, true),
            _ => false,
        },
        ins.segment_prefix == Segment::Default && !ins.lock && ins.repeat == RepeatMode::Plain
            && ins.params.src2 == Parameter::Empty,
{
    reveal(encode_spec);
}

proof fn lemma_encode_incdec(ins: Instruction)
    requires
        encode_spec(ins) is Some,
        ins.command == Op::Inc8 || ins.command == Op::Dec8 || ((ins.command == Op::Inc16
            || ins.command == Op::Dec16) && !(ins.params.dst is Reg16)),
    ensures
        match ins.command {
            Op::Inc8 => encode_spec(ins) == with_rm(0xFE, ins.params.dst, 0, false),
            Op::Dec8 => encode_spec(ins) == with_rm(0xFE, ins.params.dst, 1, false),
            Op::Inc16 => encode_spec(ins) == with_rm(0xFF, ins.params.dst, 0, true),
            _ => encode_spec(ins) == with_rm(0xFF, ins.params.dst, 1, true),
        },
        ins.params.src == Parameter::Empty,
        ins.segment_prefix == Segment::Default && !ins.lock && ins.repeat == RepeatMode::Plain
            && ins.params.src2 == Parameter::Empty,
{
    reveal(encode_spec);
}

proof fn lemma_register_of_index(r8: R8, r16: R16)
    ensures
        R8::of(r8.idx() as u8) == r8,
        R16::of(r16.idx() as u8) == r16,
{
}

#[verifier::rlimit(30)]
proof fn lemma_round_trip_mov_store8(ins: Instruction, rest: Seq<u8>)
    requires
        encode_spec(ins) is Some,
        ins.command == Op::Mov8 && ins.params.src is Reg8,
    ensures
        round_trips(ins, rest),
{
    reveal(crate::decoder::decode_modrm);
    lemma_encode_mov_store(ins);
    lemma_primary_rm_forms();
    lemma_register_of_index(ins.params.src->Reg8_0, R16::AX);
    let r = ins.params.src->Reg8_0;
    lemma_round_trip_rm(rest, 0x88, ins.params.dst, r.idx() as int, false, Op::Mov8, Form::RmReg { wide: false });
}

#[verifier::rlimit(30)]
proof fn lemma_round_trip_mov_store16(ins: Instruction, rest: Seq<u8>)
    requires
        encode_spec(ins) is Some,
        ins.command == Op::Mov16 && ins.params.src is Reg16,
    ensures
        round_trips(ins, rest),
{
    reveal(crate::decoder::decode_modrm);
    lemma_encode_mov_store(ins);
    lemma_primary_rm_forms();
    lemma_register_of_index(R8::AL, ins.params.src->Reg16_0);
    let r = ins.params.src->Reg16_0;
    lemma_round_trip_rm(rest, 0x89, ins.params.dst, r.idx() as int, true, Op::Mov16, Form::RmReg { wide: true });
}

#[verifier::rlimit(30)]
proof fn lemma_round_trip_mov_load8(ins: Instruction, rest: Seq<u8>)
    requires
        encode_spec(ins) is Some,
        ins.command == Op::Mov8 && ins.params.dst is Reg8 && !(ins.params.src is Reg8)
            && !(ins.params.src is Imm8),
    ensures
        round_trips(ins, rest),
{
    reveal(crate::decoder::decode_modrm);
    lemma_encode_mov_load(ins);
    lemma_primary_rm_forms();
    lemma_register_of_index(ins.params.dst->Reg8_0, R16::AX);
    let r = ins.params.dst->Reg8_0;
    lemma_round_trip_rm(rest, 0x8A, ins.params.src, r.idx() as int, false, Op::Mov8, Form::RegRm { wide: false });
}

#[verifier::rlimit(30)]
proof fn lemma_round_trip_mov_load16(ins: Instruction, rest: Seq<u8>)
    requires
        encode_spec(ins) is Some,
        ins.command == Op::Mov16 && ins.params.dst is Reg16 && !(ins.params.src is Reg16)
            && !(ins.params.src is Imm16),
    ensures
        round_trips(ins, rest),
{
    reveal(crate::decoder::decode_modrm);
    lemma_encode_mov_load(ins);
    lemma_primary_rm_forms();
    lemma_register_of_index(R8::AL, ins.params.dst->Reg16_0);
    let r = ins.params.dst->Reg16_0;
    lemma_round_trip_rm(rest, 0x8B, ins.params.src, r.idx() as int, true, Op::Mov16, Form::RegRm { wide: true });
}

proof fn lemma_round_trip_incdec_rm(ins: Instruction, rest: Seq<u8>)
    requires
        encode_spec(ins) is Some,
        ins.command == Op::Inc8 || ins.command == Op::Dec8 || ((ins.command == Op::Inc16
            || ins.command == Op::Dec16) && !(ins.params.dst is Reg16)),
    ensures
        round_trips(ins, rest),
{
    reveal(crate::decoder::decode_group45);
    lemma_encode_incdec(ins);
    lemma_primary_rm_forms();
    let d = ins.params.dst;
    match ins.command {
        Op::Inc8 => lemma_round_trip_rm(rest, 0xFE, d, 0, false, Op::Nop, Form::Group4),
        Op::Dec8 => lemma_round_trip_rm(rest, 0xFE, d, 1, false, Op::Nop, Form::Group4),
        Op::Inc16 => lemma_round_trip_rm(rest, 0xFF, d, 0, true, Op::Nop, Form::Group5),
        _ => lemma_round_trip_rm(rest, 0xFF, d, 1, true, Op::Nop, Form::Group5),
    }
}

proof fn lemma_round_trip_short(ins: Instruction, rest: Seq<u8>)
    requires
        encode_spec(ins) is Some,
        single_byte(ins.command).is_none(),
        shift_reg(ins.command).is_none(),
        (ins.command == Op::Mov8 && ins.params.dst is Reg8 && ins.params.src is Imm8) || (
        ins.command == Op::Mov16 && ins.params.dst is Reg16 && ins.params.src is Imm16) || ((
        ins.command == Op::Inc16 || ins.command == Op::Dec16) && ins.params.dst is Reg16)
            || ins.command == Op::Push16 || ins.command == Op::Pop16 || ins.command == Op::Int,
    ensures
        round_trips(ins, rest),
{
    reveal(encode_spec);
    reveal(crate::decoder::primary);
    reveal(crate::decoder::decode_simple);
    let code = encode_spec(ins).unwrap() + rest;
    lemma_decode_first(code);
    match ins.params.dst {
        Parameter::Imm16(i) => {
            crate::memory::lemma_word_bytes(i);
        },
        _ => {},
    }
    match ins.params.src {
        Parameter::Imm16(i) => {
            crate::memory::lemma_word_bytes(i);
        },
        _ => {},
    }
}

/// Encoding an instruction and decoding the bytes gives back an equivalent instruction,
/// with the length of its encoding, whatever bytes follow it: the same one, but for a
/// `[BP]` operand, which comes back as `[BP+0]`.
pub proof fn lemma_encode_decode(ins: Instruction, rest: Seq<u8>)
    requires
        encode_spec(ins) is Some,
    ensures
        decode_spec(encode_spec(ins).unwrap() + rest).instruction == decoded_form(ins),
        decoded_form(ins) == ins <==> !(ins.params.dst is Ptr8Amode && ins.params.dst->Ptr8Amode_1
            == AMode::BP) && !(ins.params.dst is Ptr16Amode && ins.params.dst->Ptr16Amode_1
            == AMode::BP) && !(ins.params.src is Ptr8Amode && ins.params.src->Ptr8Amode_1
            == AMode::BP) && !(ins.params.src is Ptr16Amode && ins.params.src->Ptr16Amode_1
            == AMode::BP),
        decode_spec(encode_spec(ins).unwrap() + rest).length as int == encode_spec(ins).unwrap().len(),
{
    reveal(encode_spec);
    let d = ins.params.dst;
    let s = ins.params.src;
    if single_byte(ins.command).is_some() {
        lemma_round_trip_single(ins, rest);
    } else if shift_reg(ins.command).is_some() {
        lemma_round_trip_shift(ins, rest);
    } else if (ins.command == Op::Mov8 && d is Reg8 && s is Imm8) || (ins.command == Op::Mov16
        && d is Reg16 && s is Imm16) || ((ins.command == Op::Inc16 || ins.command == Op::Dec16)
        && d is Reg16) || ins.command == Op::Push16 || ins.command == Op::Pop16 || ins.command
        == Op::Int {
        lemma_round_trip_short(ins, rest);
    } else if ins.command == Op::Mov8 && s is Reg8 {
        lemma_round_trip_mov_store8(ins, rest);
    } else if ins.command == Op::Mov16 && s is Reg16 {
        lemma_round_trip_mov_store16(ins, rest);
    } else if ins.command == Op::Mov8 {
        lemma_round_trip_mov_load8(ins, rest);
    } else if ins.command == Op::Mov16 {
        lemma_round_trip_mov_load16(ins, rest);
    } else {
        lemma_round_trip_incdec_rm(ins, rest);
    }
}

fn single_byte_of(op: Op) -> (r: Option<u8>)
    ensures
        r == single_byte(op),
{
    match op {
        Op::Nop => Some(0x90u8),
        Op::Cbw => Some(0x98u8),
        Op::Cwd => Some(0x99u8),
        Op::Pushf => Some(0x9Cu8),
        Op::Popf => Some(0x9Du8),
        Op::Sahf => Some(0x9Eu8),
        Op::Lahf => Some(0x9Fu8),
        Op::Movsb => Some(0xA4u8),
        Op::Movsw => Some(0xA5u8),
        Op::Cmpsb => Some(0xA6u8),
        Op::Cmpsw => Some(0xA7u8),
        Op::Stosb => Some(0xAAu8),
        Op::Stosw => Some(0xABu8),
        Op::Lodsb => Some(0xACu8),
        Op::Lodsw => Some(0xADu8),
        Op::Scasb => Some(0xAEu8),
        Op::Scasw => Some(0xAFu8),
        Op::Retn => Some(0xC3u8),
        Op::Retf => Some(0xCBu8),
        Op::Iret => Some(0xCFu8),
        Op::Hlt => Some(0xF4u8),
        Op::Cmc => Some(0xF5u8),
        Op::Clc => Some(0xF8u8),
        Op::Stc => Some(0xF9u8),
        Op::Cli => Some(0xFAu8),
        Op::Sti => Some(0xFBu8),
        Op::Cld => Some(0xFCu8),
        Op::Std => Some(0xFDu8),
        _ => None,
    }
}

fn shift_reg_of(op: Op) -> (r: Option<(u8, bool)>)
    ensures
        match r {
            Some(x) => shift_reg(op) == Some((x.0 as int, x.1)) && x.0 < 8,
            None => shift_reg(op) is None,
        },
{
    match op {
        Op::Rol8 => Some((0u8, false)),
        Op::Ror8 => Some((1u8, false)),
        Op::Rcl8 => Some((2u8, false)),
        Op::Rcr8 => Some((3u8, false)),
        Op::Shl8 => Some((4u8, false)),
        Op::Shr8 => Some((5u8, false)),
        Op::Sar8 => Some((7u8, false)),
        Op::Rol16 => Some((0u8, true)),
        Op::Ror16 => Some((1u8, true)),
        Op::Rcl16 => Some((2u8, true)),
        Op::Rcr16 => Some((3u8, true)),
        Op::Shl16 => Some((4u8, true)),
        Op::Shr16 => Some((5u8, true)),
        Op::Sar16 => Some((7u8, true)),
        _ => None,
    }
}

fn modrm(md: u8, reg: u8, rm: u8) -> (r: u8)
    requires
        md < 4,
        reg < 8,
        rm < 8,
    ensures
        r == modrm_byte(md as int, reg as int, rm as int),
{
    md * 64 + reg * 8 + rm
}

fn is_memory(p: Parameter) -> (r: bool)
    ensures
        r == is_mem(p),
{
    match p {
        Parameter::Ptr8(..) | Parameter::Ptr16(..) | Parameter::Ptr8Amode(..) | Parameter::Ptr16Amode(..)
        | Parameter::Ptr8AmodeS8(..) | Parameter::Ptr16AmodeS8(..) | Parameter::Ptr8AmodeS16(..)
        | Parameter::Ptr16AmodeS16(..) => true,
        _ => false,
    }
}

/// Bytes of a word, low byte first.
fn push_le16(out: &mut Vec<u8>, w: u16)
    ensures
        final(out)@ == old(out)@ + le16(w),
{
    out.push((w % 256) as u8);
    out.push((w / 256) as u8);
    assert(final(out)@ =~= old(out)@ + le16(w));
}

fn bytes2(a: u8, b: u8) -> (r: Vec<u8>)
    ensures
        r@ == seq![a, b],
{
    let mut out: Vec<u8> = Vec::new();
    out.push(a);
    out.push(b);
    assert(out@ =~= seq![a, b]);
    out
}

fn bytes3(a: u8, w: u16) -> (r: Vec<u8>)
    ensures
        r@ == seq![a, lo_byte(w), hi_byte(w)],
{
    let mut out: Vec<u8> = Vec::new();
    out.push(a);
    out.push((w % 256) as u8);
    out.push((w / 256) as u8);
    assert(out@ =~= seq![a, lo_byte(w), hi_byte(w)]);
    out
}

/// The ModR/M byte with `reg` and the `r/m` operand, then its displacement.
fn rm_bytes(p: Parameter, reg: u8, wide: bool) -> (r: Option<Vec<u8>>)
    requires
        reg < 8,
    ensures
        match r {
            Some(v) => rm_encoding(p, reg as int, wide) == Some(v@),
            None => rm_encoding(p, reg as int, wide) is None,
        },
{
    match p {
        Parameter::Reg8(r) => if !wide { Some(Encoder::single(modrm(3, reg, r.index()))) } else { None },
        Parameter::Reg16(r) => if wide { Some(Encoder::single(modrm(3, reg, r.index()))) } else { None },
        Parameter::Ptr8(Segment::Default, off) => if !wide { Some(bytes3(modrm(0, reg, 6), off)) } else { None },
        Parameter::Ptr16(Segment::Default, off) => if wide { Some(bytes3(modrm(0, reg, 6), off)) } else { None },
        Parameter::Ptr8Amode(Segment::Default, am) => if wide { None } else if am == AMode::BP { Some(bytes2(modrm(1, reg, 6), 0)) } else { Some(Encoder::single(modrm(0, reg, am.index()))) },
        Parameter::Ptr16Amode(Segment::Default, am) => if !wide { None } else if am == AMode::BP { Some(bytes2(modrm(1, reg, 6), 0)) } else { Some(Encoder::single(modrm(0, reg, am.index()))) },
        Parameter::Ptr8AmodeS8(Segment::Default, am, d) => if !wide { Some(bytes2(modrm(1, reg, am.index()), d as u8)) } else { None },
        Parameter::Ptr16AmodeS8(Segment::Default, am, d) => if wide { Some(bytes2(modrm(1, reg, am.index()), d as u8)) } else { None },
        Parameter::Ptr8AmodeS16(Segment::Default, am, d) => if !wide { Some(bytes3(modrm(2, reg, am.index()), d as u16)) } else { None },
        Parameter::Ptr16AmodeS16(Segment::Default, am, d) => if wide { Some(bytes3(modrm(2, reg, am.index()), d as u16)) } else { None },
        _ => None,
    }
}

impl Encoder {
    pub fn new() -> (r: Encoder) {
        Encoder {  }
    }

    /// The opcode byte, then the ModR/M byte with `reg` and the `r/m` operand with its displacement.
    fn encode_rm(&self, opcode: u8, p: Parameter, reg: u8, wide: bool) -> (r: Option<Vec<u8>>)
        requires
            reg < 8,
        ensures
            match r {
                Some(v) => with_rm(opcode, p, reg as int, wide) == Some(v@),
                None => with_rm(opcode, p, reg as int, wide) is None,
            },
    {
        match rm_bytes(p, reg, wide) {
            Some(rb) => {
                let mut out = Encoder::single(opcode);
                let mut i: usize = 0;
                while i < rb.len()
                    invariant
                        i <= rb@.len(),
                        out@ == seq![opcode] + rb@.subrange(0, i as int),
                    decreases rb@.len() - i,
                {
                    out.push(rb[i]);
                    i = i + 1;
                    assert(out@ =~= seq![opcode] + rb@.subrange(0, i as int));
                }
                assert(rb@.subrange(0, rb@.len() as int) =~= rb@);
                Some(out)
            },
            None => None,
        }
    }

    fn encode_imm8(&self, p: Parameter) -> (r: Option<u8>)
        ensures
            match r {
                Some(v) => p == Parameter::Imm8(v),
                None => !(p is Imm8),
            },
    {
        match p {
            Parameter::Imm8(v) => Some(v),
            _ => None,
        }
    }

    /// Encodes an instruction to its byte sequence, where this encoder has an encoding for it.
    pub fn encode(&self, op: &Instruction) -> (r: Result<Vec<u8>, EncodeError>)
        ensures
            match r {
                Ok(v) => encode_spec(*op) == Some(v@),
                Err(_) => encode_spec(*op) is None,
            },
    {
        reveal(encode_spec);
        let d = op.params.dst;
        let s = op.params.src;
        if op.segment_prefix != Segment::Default || op.lock || op.repeat != RepeatMode::Plain
            || op.params.src2 != Parameter::Empty {
            return Err(EncodeError::Unsupported);
        }
        if let Some(b) = single_byte_of(op.command) {
            if d == Parameter::Empty && s == Parameter::Empty {
                let mut out: Vec<u8> = Vec::new();
                out.push(b);
                assert(out@ =~= seq![b]);
                return Ok(out);
            }
            return Err(EncodeError::Unsupported);
        }
        if let Some((reg, wide)) = shift_reg_of(op.command) {
            let opcode: u8 = if wide { 0xC1 } else { 0xC0 };
            match (self.encode_rm(opcode, d, reg, wide), self.encode_imm8(s)) {
                (Some(v), Some(n)) => {
                    let mut out = v;
                    let ghost before = out@;
                    out.push(n);
                    assert(out@ =~= before + seq![n]);
                    return Ok(out);
                },
                _ => {
                    return Err(EncodeError::Unsupported);
                },
            }
        }
        self.encode_operands(op)
    }

    fn single(b: u8) -> (r: Vec<u8>)
        ensures
            r@ == seq![b],
    {
        let mut out: Vec<u8> = Vec::new();
        out.push(b);
        assert(out@ =~= seq![b]);
        out
    }

    fn rm_result(v: Option<Vec<u8>>) -> (r: Result<Vec<u8>, EncodeError>)
        ensures
            match r {
                Ok(x) => v == Some(x),
                Err(_) => v is None,
            },
    {
        match v {
            Some(x) => Ok(x),
            None => Err(EncodeError::Unsupported),
        }
    }

    /// Instructions with operands other than the shifts.
    fn encode_operands(&self, op: &Instruction) -> (r: Result<Vec<u8>, EncodeError>)
        requires
            op.segment_prefix == Segment::Default && !op.lock && op.repeat == RepeatMode::Plain
                && op.params.src2 == Parameter::Empty,
            single_byte(op.command) is None,
            shift_reg(op.command) is None,
        ensures
            match r {
                Ok(v) => encode_spec(*op) == Some(v@),
                Err(_) => encode_spec(*op) is None,
            },
    {
        reveal(encode_spec);
        let d = op.params.dst;
        let s = op.params.src;
        match (op.command, d, s) {
            (Op::Mov8, Parameter::Reg8(r), Parameter::Imm8(i)) => {
                let mut out = Encoder::single(0xB0 + r.index());
                out.push(i);
                assert(out@ =~= seq![(0xB0 + r.idx()) as u8, i]);
                Ok(out)
            },
            (Op::Mov16, Parameter::Reg16(r), Parameter::Imm16(i)) => {
                let mut out = Encoder::single(0xB8 + r.index());
                push_le16(&mut out, i);
                Ok(out)
            },
            (Op::Mov8, _, Parameter::Reg8(r)) => Encoder::rm_result(self.encode_rm(0x88, d, r.index(), false)),
            (Op::Mov8, Parameter::Reg8(r), _) => {
                if is_memory(s) {
                    Encoder::rm_result(self.encode_rm(0x8A, s, r.index(), false))
                } else {
                    Err(EncodeError::Unsupported)
                }
            },
            (Op::Mov16, _, Parameter::Reg16(r)) => Encoder::rm_result(self.encode_rm(0x89, d, r.index(), true)),
            (Op::Mov16, Parameter::Reg16(r), _) => {
                if is_memory(s) {
                    Encoder::rm_result(self.encode_rm(0x8B, s, r.index(), true))
                } else {
                    Err(EncodeError::Unsupported)
                }
            },
            (Op::Inc8, _, Parameter::Empty) => Encoder::rm_result(self.encode_rm(0xFE, d, 0, false)),
            (Op::Dec8, _, Parameter::Empty) => Encoder::rm_result(self.encode_rm(0xFE, d, 1, false)),
            (Op::Inc16, Parameter::Reg16(r), Parameter::Empty) => Ok(Encoder::single(0x40 + r.index())),
            (Op::Dec16, Parameter::Reg16(r), Parameter::Empty) => Ok(Encoder::single(0x48 + r.index())),
            (Op::Inc16, _, Parameter::Empty) => {
                if is_memory(d) {
                    Encoder::rm_result(self.encode_rm(0xFF, d, 0, true))
                } else {
                    Err(EncodeError::Unsupported)
                }
            },
            (Op::Dec16, _, Parameter::Empty) => {
                if is_memory(d) {
                    Encoder::rm_result(self.encode_rm(0xFF, d, 1, true))
                } else {
                    Err(EncodeError::Unsupported)
                }
            },
            (Op::Push16, Parameter::Reg16(r), Parameter::Empty) => Ok(Encoder::single(0x50 + r.index())),
            (Op::Pop16, Parameter::Reg16(r), Parameter::Empty) => Ok(Encoder::single(0x58 + r.index())),
            (Op::Push16, Parameter::Imm16(i), Parameter::Empty) => {
                let mut out = Encoder::single(0x68);
                push_le16(&mut out, i);
                Ok(out)
            },
            (Op::Int, Parameter::Imm8(v), Parameter::Empty) => {
                let mut out = Encoder::single(0xCD);
                out.push(v);
                assert(out@ =~= seq![0xCDu8, v]);
                Ok(out)
            },
            _ => Err(EncodeError::Unsupported),
        }
    }
}

} // verus!
