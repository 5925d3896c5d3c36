use vstd::prelude::*;

use crate::cpu::{offset_add, offset_plus, sext8, seg_or, sign_extend8, State, CPU};
use crate::flags::{add_result, fits, modulus, shift_steps, sub_result, top, Flags, ShiftKind};
use crate::instruction::{Cond, Instruction, Op, Parameter, RepeatMode, R16, R8, SR};
use crate::memory::{byte_at, store_byte, store_word, word_at};

verus! {

/// What the host has to do after an instruction.
#[derive(Clone, Copy, Debug, PartialEq, Eq, Structural)]
pub enum Action {
    /// Nothing: fetch the next instruction.
    Continue,
    /// HLT was executed; the state is unchanged but for IP.
    Halt,
    /// The program asked to end; `fatal_error` is set.
    Terminate,
    /// A trapped interrupt vector, for the host's handler.
    Interrupt(u8),
    /// IN: the host reads the port and hands the value to `complete_port_in`.
    PortIn { port: u16, wide: bool },
    /// INS: the host reads the port and hands the value to `complete_ins`.
    PortInString { port: u16, wide: bool },
    /// OUT and OUTS: the host writes the value to the port.
    PortOut { port: u16, wide: bool, value: u16 },
    /// A recognised instruction that is not carried out; executed as a no-op.
    Unimplemented { escape: bool, byte: u8 },
    /// An invalid instruction; `fatal_error` is set and IP is left on it.
    Fatal,
}

/// Binary operations that read two operands and set the arithmetic flags.
#[derive(Clone, Copy, Debug, PartialEq, Eq, Structural)]
pub enum AluKind {
    Add,
    Adc,
    Sub,
    Sbb,
    Cmp,
    And,
    Or,
    Xor,
    Test,
}

/// The string operations.
#[derive(Clone, Copy, Debug, PartialEq, Eq, Structural)]
pub enum StrKind {
    Movs,
    Cmps,
    Stos,
    Lods,
    Scas,
}

/// Two's-complement value of an operand of the given width.
pub open spec fn signed(v: u16, wide: bool) -> int {
    if v as int >= top(wide) {
        v as int - modulus(wide)
    } else {
        v as int
    }
}

pub open spec fn abs(x: int) -> int {
    if x < 0 {
        -x
    } else {
        x
    }
}

/// Quotient rounded toward zero.
pub open spec fn tdiv(a: int, b: int) -> int {
    if (a >= 0) == (b >= 0) {
        abs(a) / abs(b)
    } else {
        -(abs(a) / abs(b))
    }
}

/// Remainder of `tdiv`: it has the sign of the dividend.
pub open spec fn trem(a: int, b: int) -> int {
    if a >= 0 {
        abs(a) % abs(b)
    } else {
        -(abs(a) % abs(b))
    }
}

/// A value in `[-m, m)` as an unsigned value modulo `m`.
pub open spec fn wrap(x: int, m: int) -> int {
    if x < 0 {
        x + m
    } else {
        x
    }
}

/// MUL, IMUL, DIV, IDIV, XLAT, LDS, LES, PUSHA, POPA, LEAVE, ENTER, SHLD, SHRD and the
/// BCD adjustments.
pub open spec fn is_extra_op_spec(op: Op) -> bool {
    match op {
        Op::Mul8 | Op::Mul16 | Op::Imul8 | Op::Imul16 | Op::Div8 | Op::Div16 | Op::Idiv8
        | Op::Idiv16 | Op::Xlatb | Op::Lds | Op::Les | Op::Pusha | Op::Popa | Op::Leave | Op::Aaa
        | Op::Aas | Op::Daa | Op::Das | Op::Aam | Op::Aad | Op::Shld | Op::Shrd | Op::Imul16r
        | Op::Enter => true,
        _ => false,
    }
}

impl State {
    /// MUL and IMUL: AL or AX times the operand, into AX or DX:AX. CF and OF are set
    /// when the upper half is needed to hold the product; the other flags are kept.
    pub open spec fn mul(self, src: Parameter, wide: bool, is_signed: bool) -> State {
        let a = if wide { self.reg16(R16::AX) } else { self.reg8(R8::AL) as u16 };
        let b = self.get(src, wide);
        let x = if is_signed { signed(a, wide) } else { a as int };
        let y = if is_signed { signed(b, wide) } else { b as int };
        let p = x * y;
        let fits = if is_signed { -top(wide) <= p < top(wide) } else { p < modulus(wide) };
        let f = Flags { carry: !fits, overflow: !fits, ..self.flags };
        if wide {
            let u = wrap(p, 0x100000000);
            self.with_reg16(R16::AX, (u % 0x10000) as u16).with_reg16(R16::DX, (u / 0x10000) as u16).with_flags(f)
        } else {
            self.with_reg16(R16::AX, wrap(p, 0x10000) as u16).with_flags(f)
        }
    }

    /// The dividend of DIV and IDIV: AX, or DX:AX for words.
    pub open spec fn dividend(self, wide: bool, is_signed: bool) -> int {
        let n: int = if wide {
            self.reg16(R16::DX) as int * 0x10000 + self.reg16(R16::AX) as int
        } else {
            self.reg16(R16::AX) as int
        };
        let half: int = if wide { 0x80000000 } else { 0x8000 };
        if is_signed && n >= half {
            n - 2 * half
        } else {
            n
        }
    }

    /// DIV and IDIV: quotient into AL or AX, remainder into AH or DX. A zero divisor or
    /// a quotient that does not fit raises the divide error, vector 0, through the
    /// interrupt vector table.
    pub open spec fn div(self, src: Parameter, wide: bool, is_signed: bool) -> State {
        let d = self.get(src, wide);
        let n = self.dividend(wide, is_signed);
        let dd = if is_signed { signed(d, wide) } else { d as int };
        if dd == 0 {
            self.int_ivt(0)
        } else {
            let q = if is_signed { tdiv(n, dd) } else { n / dd };
            let r = if is_signed { trem(n, dd) } else { n % dd };
            let ok = if is_signed { -top(wide) <= q < top(wide) } else { q < modulus(wide) };
            if !ok {
                self.int_ivt(0)
            } else if wide {
                self.with_reg16(R16::AX, wrap(q, 0x10000) as u16).with_reg16(R16::DX, wrap(r, 0x10000) as u16)
            } else {
                self.with_reg8(R8::AL, wrap(q, 0x100) as u8).with_reg8(R8::AH, wrap(r, 0x100) as u8)
            }
        }
    }

    /// LDS and LES: the register gets the word at the operand, the segment register the
    /// word after it.
    pub open spec fn load_far(self, ins: Instruction, sr: SR) -> State {
        let (s, off) = self.mem_ref(ins.params.src);
        let base = self.sreg(s);
        let v = word_at(self.mem, base, off);
        let seg = word_at(self.mem, base, offset_plus(off, 2));
        self.write16(ins.params.dst, v).with_sreg(sr, seg)
    }

    /// PUSHA: AX, CX, DX, BX, the SP from before, BP, SI and DI pushed in that order.
    pub open spec fn pusha(self) -> State {
        self.push(self.reg16(R16::AX)).push(self.reg16(R16::CX)).push(self.reg16(R16::DX)).push(
            self.reg16(R16::BX),
        ).push(self.reg16(R16::SP)).push(self.reg16(R16::BP)).push(self.reg16(R16::SI)).push(
            self.reg16(R16::DI),
        )
    }

    /// POPA: DI, SI, BP popped, the saved SP skipped, then BX, DX, CX and AX.
    pub open spec fn popa(self) -> State {
        let s1 = self.pop();
        let s2 = s1.pop();
        let s3 = s2.pop();
        let s4 = s3.pop();
        let s5 = s4.pop();
        let s6 = s5.pop();
        let s7 = s6.pop();
        let s8 = s7.pop();
        s8.with_reg16(R16::DI, self.top_of_stack()).with_reg16(R16::SI, s1.top_of_stack()).with_reg16(
            R16::BP,
            s2.top_of_stack(),
        ).with_reg16(R16::BX, s4.top_of_stack()).with_reg16(R16::DX, s5.top_of_stack()).with_reg16(
            R16::CX,
            s6.top_of_stack(),
        ).with_reg16(R16::AX, s7.top_of_stack())
    }

    /// AAA: after an addition of unpacked BCD digits, AX gets 106h added when the low
    /// nibble of AL is above 9 or AF is set, which also sets AF and CF (both are cleared
    /// otherwise); AL keeps its low nibble. OF, SF, ZF and PF are kept.
    pub open spec fn aaa(self) -> State {
        let al = self.reg8(R8::AL);
        if al % 16 > 9 || self.flags.auxiliary_carry {
            let ax = ((self.reg16(R16::AX) as int + 0x106) % 0x10000) as u16;
            let s = self.with_reg16(R16::AX, ax);
            s.with_reg8(R8::AL, s.reg8(R8::AL) % 16).with_flags(
                Flags { auxiliary_carry: true, carry: true, ..self.flags },
            )
        } else {
            self.with_reg8(R8::AL, al % 16).with_flags(
                Flags { auxiliary_carry: false, carry: false, ..self.flags },
            )
        }
    }

    /// AAS: after a subtraction of unpacked BCD digits, AX gets 6 subtracted and AH one
    /// more when the low nibble of AL is above 9 or AF is set, which also sets AF and CF
    /// (both are cleared otherwise); AL keeps its low nibble.
    pub open spec fn aas(self) -> State {
        let al = self.reg8(R8::AL);
        if al % 16 > 9 || self.flags.auxiliary_carry {
            let ax = ((self.reg16(R16::AX) as int + 0x10000 - 6) % 0x10000) as u16;
            let s = self.with_reg16(R16::AX, ax);
            let s2 = s.with_reg8(R8::AH, ((s.reg8(R8::AH) as int + 255) % 256) as u8);
            s2.with_reg8(R8::AL, s2.reg8(R8::AL) % 16).with_flags(
                Flags { auxiliary_carry: true, carry: true, ..self.flags },
            )
        } else {
            self.with_reg8(R8::AL, al % 16).with_flags(
                Flags { auxiliary_carry: false, carry: false, ..self.flags },
            )
        }
    }

    /// DAA and DAS: decimal adjust of AL after an addition (`sub` false) or a
    /// subtraction of packed BCD. SF, ZF and PF come from the result; OF is kept.
    pub open spec fn decimal_adjust(self, sub: bool) -> State {
        let (al, cf, af) = decimal_spec(
            self.reg8(R8::AL),
            self.flags.carry,
            self.flags.auxiliary_carry,
            sub,
        );
        self.with_reg8(R8::AL, al).with_flags(
            Flags { carry: cf, auxiliary_carry: af, ..self.flags.with_result(al as u16, false) },
        )
    }

    /// AAM: AH gets AL divided by the immediate and AL the remainder; a zero immediate
    /// raises the divide error. AAD: AL gets AL plus AH times the immediate, truncated,
    /// and AH is cleared. SF, ZF and PF come from AL.
    pub open spec fn ascii_adjust(self, ins: Instruction, multiply: bool) -> State {
        let base = self.read8(ins.params.dst) as int;
        let al = self.reg8(R8::AL) as int;
        let ah = self.reg8(R8::AH) as int;
        if multiply {
            if base == 0 {
                self.int_ivt(0)
            } else {
                let r = (al % base) as u8;
                self.with_reg8(R8::AH, (al / base) as u8).with_reg8(R8::AL, r).with_flags(
                    self.flags.with_result(r as u16, false),
                )
            }
        } else {
            let r = ((al + ah * base) % 256) as u8;
            self.with_reg8(R8::AL, r).with_reg8(R8::AH, 0).with_flags(
                self.flags.with_result(r as u16, false),
            )
        }
    }

    /// SHLD and SHRD: the destination shifts by the count (low five bits) and is filled
    /// from the source; CF is the last bit shifted out, SF, ZF and PF come from the result,
    /// OF tells whether the sign changed. A zero count changes nothing.
    pub open spec fn shift_double(self, ins: Instruction, left: bool) -> State {
        let d = self.read16(ins.params.dst);
        let s = self.read16(ins.params.src);
        let n = (self.read8(ins.params.src2) % 32) as nat;
        if n == 0 {
            self
        } else {
            let (res, cf) = double_steps(left, d, s, self.flags.carry, n);
            self.with_flags(
                Flags { carry: cf, overflow: (res >= 0x8000) != (d >= 0x8000), ..self.flags.with_result(res, true) },
            ).write16(ins.params.dst, res)
        }
    }

    /// The target of a far JMP or CALL: an immediate `segment:offset`, or the offset and
    /// then the segment stored at a memory operand.
    pub open spec fn far_target(self, d: Parameter) -> Option<(u16, u16)> {
        match d {
            Parameter::Ptr16Imm(seg, off) => Some((seg, off)),
            Parameter::Ptr16(..) | Parameter::Ptr16Amode(..) | Parameter::Ptr16AmodeS8(..)
            | Parameter::Ptr16AmodeS16(..) => {
                let (s, o) = self.mem_ref(d);
                let base = self.sreg(s);
                Some((word_at(self.mem, base, offset_plus(o, 2)), word_at(self.mem, base, o)))
            },
            _ => None,
        }
    }

    /// IMUL r16, r/m16 (the register times the operand) and IMUL r16, r/m16, imm (the
    /// operand times the immediate): the low 16 bits of the signed product; CF and OF
    /// are set when it does not fit in 16 bits.
    pub open spec fn imul_r16(self, ins: Instruction) -> State {
        let three = ins.params.src2 != Parameter::Empty;
        let a = if three { self.read16(ins.params.src) } else { self.read16(ins.params.dst) };
        let b = if three { self.read16(ins.params.src2) } else { self.read16(ins.params.src) };
        let p = signed(a, true) * signed(b, true);
        let fits = -0x8000 <= p < 0x8000;
        self.with_flags(Flags { carry: !fits, overflow: !fits, ..self.flags }).write16(
            ins.params.dst,
            (wrap(p, 0x100000000) % 0x10000) as u16,
        )
    }

    /// The frame-pointer copies of ENTER: `n` times, BP moves down a word and the word
    /// at SS:BP is pushed.
    pub open spec fn enter_copies(self, n: nat) -> State
        decreases n,
    {
        if n == 0 {
            self
        } else {
            let bp = offset_plus(self.reg16(R16::BP), -2);
            let s = self.with_reg16(R16::BP, bp);
            s.push(word_at(s.mem, s.sreg(SR::SS), bp)).enter_copies((n - 1) as nat)
        }
    }

    /// ENTER size, level: BP is pushed; with a nesting level (low five bits) above zero,
    /// level - 1 outer frame pointers are copied and the new frame pointer pushed; BP
    /// gets the frame pointer and SP moves down by `size`.
    pub open spec fn enter(self, ins: Instruction) -> State {
        let size = self.read16(ins.params.dst);
        let level = self.read8(ins.params.src) % 32;
        let s1 = self.push(self.reg16(R16::BP));
        let frame = s1.reg16(R16::SP);
        let s2 = if level > 0 {
            s1.enter_copies((level - 1) as nat).push(frame)
        } else {
            s1
        };
        s2.with_reg16(R16::BP, frame).with_reg16(R16::SP, offset_plus(s2.reg16(R16::SP), -(size as int)))
    }

    /// INS and OUTS, which need the host for every element. One element moves per step:
    /// OUTS hands the element at (DS or override):SI to the host and moves SI; INS asks
    /// the host for a value, which `complete_ins` stores at ES:DI. Under REP a zero CX
    /// does nothing; otherwise CX is decremented and IP stays on the instruction until
    /// CX reaches zero, so the next step repeats it.
    pub open spec fn string_io(self, ins: Instruction, len: u16) -> (State, Action) {
        let next = offset_plus(self.ip, len as int);
        let rep = ins.repeat != RepeatMode::Plain;
        let cx = self.reg16(R16::CX);
        let wide = ins.command == Op::Insw || ins.command == Op::Outsw;
        let port = self.reg16(R16::DX);
        if rep && cx == 0 {
            (self.with_ip(next), Action::Continue)
        } else {
            let s1 = if rep { self.with_reg16(R16::CX, (cx - 1) as u16) } else { self };
            let s2 = if rep && cx != 1 { s1 } else { s1.with_ip(next) };
            if ins.command == Op::Outsb || ins.command == Op::Outsw {
                let si = self.reg16(R16::SI);
                let src = self.str_src_seg(ins);
                let v = if wide { word_at(self.mem, src, si) } else { byte_at(self.mem, src, si) as u16 };
                (
                    s2.with_reg16(R16::SI, offset_plus(si, str_delta(self, wide))),
                    Action::PortOut { port, wide, value: v },
                )
            } else {
                (s2, Action::PortInString { port, wide })
            }
        }
    }

    /// The element an INS read: stored at ES:DI, and DI moves by the element size.
    pub open spec fn store_in_string(self, wide: bool, value: u16) -> State {
        let es = self.sreg(SR::ES);
        let di = self.reg16(R16::DI);
        let m = if wide { store_word(self.mem, es, di, value) } else { store_byte(self.mem, es, di, value as u8) };
        self.with_mem(m).with_reg16(R16::DI, offset_plus(di, str_delta(self, wide)))
    }

    /// MUL, IMUL, DIV, IDIV, XLAT, LDS, LES, PUSHA, POPA, LEAVE, ENTER, SHLD, SHRD and the
    /// BCD adjustments.
    pub open spec fn exec_extra(self, ins: Instruction) -> (State, Action) {
        (
            match ins.command {
                Op::Mul8 => self.mul(ins.params.dst, false, false),
                Op::Mul16 => self.mul(ins.params.dst, true, false),
                Op::Imul8 => self.mul(ins.params.dst, false, true),
                Op::Imul16 => self.mul(ins.params.dst, true, true),
                Op::Div8 => self.div(ins.params.dst, false, false),
                Op::Div16 => self.div(ins.params.dst, true, false),
                Op::Idiv8 => self.div(ins.params.dst, false, true),
                Op::Idiv16 => self.div(ins.params.dst, true, true),
                Op::Xlatb => self.with_reg8(
                    R8::AL,
                    byte_at(
                        self.mem,
                        self.str_src_seg(ins),
                        offset_plus(self.reg16(R16::BX), self.reg8(R8::AL) as int),
                    ),
                ),
                Op::Lds => self.load_far(ins, SR::DS),
                Op::Les => self.load_far(ins, SR::ES),
                Op::Pusha => self.pusha(),
                Op::Popa => self.popa(),
                Op::Leave => {
                    let s = self.with_reg16(R16::SP, self.reg16(R16::BP));
                    s.pop().with_reg16(R16::BP, s.top_of_stack())
                },
                Op::Aaa => self.aaa(),
                Op::Aas => self.aas(),
                Op::Daa => self.decimal_adjust(false),
                Op::Das => self.decimal_adjust(true),
                Op::Aam => self.ascii_adjust(ins, true),
                Op::Aad => self.ascii_adjust(ins, false),
                Op::Shld => self.shift_double(ins, true),
                Op::Shrd => self.shift_double(ins, false),
                Op::Imul16r => self.imul_r16(ins),
                Op::Enter => self.enter(ins),
                _ => self,
            },
            Action::Continue,
        )
    }
}

/// DAA (`sub` false) and DAS on AL with the given CF and AF: the adjusted AL, CF and AF.
pub open spec fn decimal_spec(al: u8, cf: bool, af: bool, sub: bool) -> (u8, bool, bool) {
    let old_al = al as int;
    let low = old_al % 16 > 9 || af;
    let al1: int = if !low {
        old_al
    } else if sub {
        (old_al + 256 - 6) % 256
    } else {
        (old_al + 6) % 256
    };
    let cf1 = low && (cf || (if sub { old_al < 6 } else { old_al + 6 > 255 }));
    let high = old_al > 0x99 || cf;
    let al2: int = if !high {
        al1
    } else if sub {
        (al1 + 256 - 0x60) % 256
    } else {
        (al1 + 0x60) % 256
    };
    let cf2 = if high { true } else if sub { cf1 } else { false };
    (al2 as u8, cf2, low)
}

fn decimal_value(al: u8, cf: bool, af: bool, sub: bool) -> (r: (u8, bool, bool))
    ensures
        r == decimal_spec(al, cf, af, sub),
{
    let old_al = al as u32;
    let low = old_al % 16 > 9 || af;
    let al1: u32 = if !low {
        old_al
    } else if sub {
        (old_al + 256 - 6) % 256
    } else {
        (old_al + 6) % 256
    };
    let cf1 = low && (cf || (if sub { old_al < 6 } else { old_al + 6 > 255 }));
    let high = old_al > 0x99 || cf;
    let al2: u32 = if !high {
        al1
    } else if sub {
        (al1 + 256 - 0x60) % 256
    } else {
        (al1 + 0x60) % 256
    };
    let cf2 = if high { true } else if sub { cf1 } else { false };
    (al2 as u8, cf2, low)
}

/// One step of SHLD (`left`) or SHRD: the destination shifts by one bit, taking the
/// next bit of the source; returns the new destination, the rest of the source and the
/// bit shifted out.
pub open spec fn double_once(left: bool, d: u16, s: u16) -> (u16, u16, bool) {
    if left {
        (
            ((d as int * 2) % 0x10000 + (if s >= 0x8000 { 1int } else { 0 })) as u16,
            ((s as int * 2) % 0x10000) as u16,
            d >= 0x8000,
        )
    } else {
        ((d as int / 2 + (if s % 2 == 1 { 0x8000int } else { 0 })) as u16, (s / 2) as u16, d % 2 == 1)
    }
}

/// `n` steps of SHLD or SHRD: the destination and the last bit shifted out.
pub open spec fn double_steps(left: bool, d: u16, s: u16, cf: bool, n: nat) -> (u16, bool)
    decreases n,
{
    if n == 0 {
        (d, cf)
    } else {
        let t = double_once(left, d, s);
        double_steps(left, t.0, t.1, t.2, (n - 1) as nat)
    }
}

/// Vectors handed to the host's handlers: video, keyboard, time of day, DOS and mouse.
pub open spec fn is_trapped(v: u8) -> bool {
    v == 0x10 || v == 0x16 || v == 0x1A || v == 0x21 || v == 0x33
}

/// Whether a jump condition holds.
pub open spec fn cond_holds(f: Flags, c: Cond) -> bool {
    match c {
        Cond::O => f.overflow,
        Cond::NO => !f.overflow,
        Cond::C => f.carry,
        Cond::NC => !f.carry,
        Cond::Z => f.zero,
        Cond::NZ => !f.zero,
        Cond::NA => f.carry || f.zero,
        Cond::A => !f.carry && !f.zero,
        Cond::S => f.sign,
        Cond::NS => !f.sign,
        Cond::PE => f.parity,
        Cond::PO => !f.parity,
        Cond::L => f.sign != f.overflow,
        Cond::NL => f.sign == f.overflow,
        Cond::NG => f.zero || f.sign != f.overflow,
        Cond::G => !f.zero && f.sign == f.overflow,
    }
}

/// Target of a relative branch: IP after the instruction plus the signed displacement.
pub open spec fn rel_target(ip: u16, p: Parameter) -> u16 {
    match p {
        Parameter::ImmS8(d) => offset_plus(ip, d as int),
        Parameter::Imm16(d) => offset_plus(ip, d as int),
        _ => ip,
    }
}

/// An I/O port operand: an immediate byte or DX.
pub open spec fn port_of(s: State, p: Parameter) -> u16 {
    match p {
        Parameter::Imm8(v) => v as u16,
        _ => s.reg16(R16::DX),
    }
}

pub open spec fn shift_kind_of(op: Op) -> ShiftKind {
    match op {
        Op::Rol8 | Op::Rol16 => ShiftKind::Rol,
        Op::Ror8 | Op::Ror16 => ShiftKind::Ror,
        Op::Rcl8 | Op::Rcl16 => ShiftKind::Rcl,
        Op::Rcr8 | Op::Rcr16 => ShiftKind::Rcr,
        Op::Shl8 | Op::Shl16 => ShiftKind::Shl,
        Op::Shr8 | Op::Shr16 => ShiftKind::Shr,
        _ => ShiftKind::Sar,
    }
}

impl State {
    /// Reads an operand of the given width, widened to 16 bits.
    pub open spec fn get(self, p: Parameter, wide: bool) -> u16 {
        if wide {
            self.read16(p)
        } else {
            self.read8(p) as u16
        }
    }

    /// Writes an operand of the given width.
    pub open spec fn put(self, p: Parameter, v: u16, wide: bool) -> State {
        if wide {
            self.write16(p, v)
        } else {
            self.write8(p, v as u8)
        }
    }

    pub open spec fn alu(self, kind: AluKind, ins: Instruction, wide: bool) -> State {
        let d = ins.params.dst;
        let a = self.get(d, wide);
        let b = self.get(ins.params.src, wide);
        let f = self.flags;
        match kind {
            AluKind::Add => self.with_flags(f.after_add(a, b, false, wide)).put(
                d,
                add_result(a, b, false, wide),
                wide,
            ),
            AluKind::Adc => self.with_flags(f.after_add(a, b, f.carry, wide)).put(
                d,
                add_result(a, b, f.carry, wide),
                wide,
            ),
            AluKind::Sub => self.with_flags(f.after_sub(a, b, false, wide)).put(
                d,
                sub_result(a, b, false, wide),
                wide,
            ),
            AluKind::Sbb => self.with_flags(f.after_sub(a, b, f.carry, wide)).put(
                d,
                sub_result(a, b, f.carry, wide),
                wide,
            ),
            AluKind::Cmp => self.with_flags(f.after_sub(a, b, false, wide)),
            AluKind::And => self.with_flags(f.after_logic(a & b, wide)).put(d, a & b, wide),
            AluKind::Or => self.with_flags(f.after_logic(a | b, wide)).put(d, a | b, wide),
            AluKind::Xor => self.with_flags(f.after_logic(a ^ b, wide)).put(d, a ^ b, wide),
            AluKind::Test => self.with_flags(f.after_logic(a & b, wide)),
        }
    }

    pub open spec fn inc(self, p: Parameter, wide: bool) -> State {
        let a = self.get(p, wide);
        self.with_flags(self.flags.after_inc(a, wide)).put(p, add_result(a, 1, false, wide), wide)
    }

    pub open spec fn dec(self, p: Parameter, wide: bool) -> State {
        let a = self.get(p, wide);
        self.with_flags(self.flags.after_dec(a, wide)).put(p, sub_result(a, 1, false, wide), wide)
    }

    /// NEG: `0 - v`, with the flags of that subtraction (CF set iff v is not zero).
    pub open spec fn neg(self, p: Parameter, wide: bool) -> State {
        let a = self.get(p, wide);
        self.with_flags(self.flags.after_sub(0, a, false, wide)).put(
            p,
            sub_result(0, a, false, wide),
            wide,
        )
    }

    /// NOT: every bit inverted; no flag changes.
    pub open spec fn not(self, p: Parameter, wide: bool) -> State {
        let a = self.get(p, wide);
        self.put(p, (if wide { 0xFFFFint } else { 0xFFint } - a as int) as u16, wide)
    }

    pub open spec fn shift(self, kind: ShiftKind, ins: Instruction, wide: bool) -> State {
        let d = ins.params.dst;
        let a = self.get(d, wide);
        let n = (self.read8(ins.params.src) % 32) as nat;
        let res = if n == 0 {
            a
        } else {
            shift_steps(kind, a, self.flags.carry, n, wide).0
        };
        self.with_flags(self.flags.after_shift(kind, a, n, wide)).put(d, res, wide)
    }

    pub open spec fn xchg(self, ins: Instruction, wide: bool) -> State {
        let a = self.get(ins.params.dst, wide);
        let b = self.get(ins.params.src, wide);
        self.put(ins.params.dst, b, wide).put(ins.params.src, a, wide)
    }

    /// INT through the interrupt vector table: FLAGS, CS and IP pushed, IF and TF
    /// cleared, CS:IP loaded from the far pointer at linear `v * 4`.
    pub open spec fn int_ivt(self, v: u8) -> State {
        let s1 = self.push(self.flags.packed());
        let s2 = s1.with_flags(Flags { interrupt: false, trap: false, ..s1.flags });
        let s3 = s2.push(s2.sreg(SR::CS));
        let s4 = s3.push(s3.ip);
        let ip = word_at(s4.mem, 0, (v as int * 4) as u16);
        let cs = word_at(s4.mem, 0, (v as int * 4 + 2) as u16);
        s4.with_sreg(SR::CS, cs).with_ip(ip)
    }

    /// INT: termination requests end the run, trapped vectors go to the host,
    /// all others walk the interrupt vector table.
    pub open spec fn interrupt(self, v: u8) -> (State, Action) {
        if v == 0x20 || (v == 0x21 && self.reg8(R8::AH) == 0x4C) {
            (State { fatal: true, ..self }, Action::Terminate)
        } else if is_trapped(v) {
            (self, Action::Interrupt(v))
        } else {
            (self.int_ivt(v), Action::Continue)
        }
    }

    /// Source segment of a string operation: DS unless overridden.
    pub open spec fn str_src_seg(self, ins: Instruction) -> u16 {
        self.sreg(seg_or(ins.segment_prefix, SR::DS))
    }

    /// One iteration of a string operation. SI and DI move by the operand size,
    /// up when DF is clear and down when it is set.
    pub open spec fn string_once(self, kind: StrKind, ins: Instruction, wide: bool) -> State {
        let size: int = if wide { 2 } else { 1 };
        let delta: int = if self.flags.direction { -size } else { size };
        let si = self.reg16(R16::SI);
        let di = self.reg16(R16::DI);
        let src = self.str_src_seg(ins);
        let es = self.sreg(SR::ES);
        let acc = if wide { self.reg16(R16::AX) } else { self.reg8(R8::AL) as u16 };
        let from_src = if wide { word_at(self.mem, src, si) } else { byte_at(self.mem, src, si) as u16 };
        let at_dst = if wide { word_at(self.mem, es, di) } else { byte_at(self.mem, es, di) as u16 };
        let next_si = offset_plus(si, delta);
        let next_di = offset_plus(di, delta);
        match kind {
            StrKind::Movs => {
                let m = if wide { store_word(self.mem, es, di, from_src) } else { store_byte(self.mem, es, di, from_src as u8) };
                self.with_mem(m).with_reg16(R16::SI, next_si).with_reg16(R16::DI, next_di)
            },
            StrKind::Stos => {
                let m = if wide { store_word(self.mem, es, di, acc) } else { store_byte(self.mem, es, di, acc as u8) };
                self.with_mem(m).with_reg16(R16::DI, next_di)
            },
            StrKind::Lods => {
                let s = if wide { self.with_reg16(R16::AX, from_src) } else { self.with_reg8(R8::AL, from_src as u8) };
                s.with_reg16(R16::SI, next_si)
            },
            StrKind::Cmps => self.with_flags(self.flags.after_sub(from_src, at_dst, false, wide)).with_reg16(
                R16::SI,
                next_si,
            ).with_reg16(R16::DI, next_di),
            StrKind::Scas => self.with_flags(self.flags.after_sub(acc, at_dst, false, wide)).with_reg16(
                R16::DI,
                next_di,
            ),
        }
    }

    /// A string operation under REP/REPE/REPNE: one iteration per count in CX, CX
    /// decremented after each. CMPS and SCAS also stop when ZF is clear under REP
    /// (which is REPE for them) or set under REPNE.
    pub open spec fn string_rep(self, kind: StrKind, ins: Instruction, wide: bool) -> State
        decreases self.regs[1],
        when self.regs.len() == 8
    {
        let cx = self.reg16(R16::CX);
        if cx == 0 {
            self
        } else {
            let s = self.string_once(kind, ins, wide).with_reg16(R16::CX, (cx - 1) as u16);
            let compares = kind == StrKind::Cmps || kind == StrKind::Scas;
            if compares && ((ins.repeat != RepeatMode::Repne && !s.flags.zero) || (ins.repeat
                == RepeatMode::Repne && s.flags.zero)) {
                s
            } else {
                s.string_rep(kind, ins, wide)
            }
        }
    }

    pub open spec fn string_op(self, kind: StrKind, ins: Instruction, wide: bool) -> State {
        if ins.repeat == RepeatMode::Plain {
            self.string_once(kind, ins, wide)
        } else {
            self.string_rep(kind, ins, wide)
        }
    }

    /// The effect of an instruction whose IP has already been advanced past it.
    pub open spec fn exec(self, ins: Instruction) -> (State, Action) {
        if is_data_op_spec(ins.command) {
            self.exec_data(ins)
        } else if is_jump_op_spec(ins.command) {
            self.exec_jump(ins)
        } else if is_call_op_spec(ins.command) {
            self.exec_call(ins)
        } else if is_string_op_spec(ins.command) {
            self.exec_string(ins)
        } else if is_extra_op_spec(ins.command) {
            self.exec_extra(ins)
        } else {
            self.exec_other(ins)
        }
    }

    /// Moves, arithmetic, logic, shifts and conversions.
    pub open spec fn exec_data(self, ins: Instruction) -> (State, Action) {
        let d = ins.params.dst;
        let src = ins.params.src;
        let f = self.flags;
        let ip = self.ip;
        match ins.command {
            Op::Mov8 => (self.put(d, self.get(src, false), false), Action::Continue),
            Op::Mov16 => (self.put(d, self.get(src, true), true), Action::Continue),
            Op::Add8 => (self.alu(AluKind::Add, ins, false), Action::Continue),
            Op::Add16 => (self.alu(AluKind::Add, ins, true), Action::Continue),
            Op::Adc8 => (self.alu(AluKind::Adc, ins, false), Action::Continue),
            Op::Adc16 => (self.alu(AluKind::Adc, ins, true), Action::Continue),
            Op::Sub8 => (self.alu(AluKind::Sub, ins, false), Action::Continue),
            Op::Sub16 => (self.alu(AluKind::Sub, ins, true), Action::Continue),
            Op::Sbb8 => (self.alu(AluKind::Sbb, ins, false), Action::Continue),
            Op::Sbb16 => (self.alu(AluKind::Sbb, ins, true), Action::Continue),
            Op::Cmp8 => (self.alu(AluKind::Cmp, ins, false), Action::Continue),
            Op::Cmp16 => (self.alu(AluKind::Cmp, ins, true), Action::Continue),
            Op::And8 => (self.alu(AluKind::And, ins, false), Action::Continue),
            Op::And16 => (self.alu(AluKind::And, ins, true), Action::Continue),
            Op::Or8 => (self.alu(AluKind::Or, ins, false), Action::Continue),
            Op::Or16 => (self.alu(AluKind::Or, ins, true), Action::Continue),
            Op::Xor8 => (self.alu(AluKind::Xor, ins, false), Action::Continue),
            Op::Xor16 => (self.alu(AluKind::Xor, ins, true), Action::Continue),
            Op::Test8 => (self.alu(AluKind::Test, ins, false), Action::Continue),
            Op::Test16 => (self.alu(AluKind::Test, ins, true), Action::Continue),
            Op::Inc8 => (self.inc(d, false), Action::Continue),
            Op::Inc16 => (self.inc(d, true), Action::Continue),
            Op::Dec8 => (self.dec(d, false), Action::Continue),
            Op::Dec16 => (self.dec(d, true), Action::Continue),
            Op::Not8 => (self.not(d, false), Action::Continue),
            Op::Not16 => (self.not(d, true), Action::Continue),
            Op::Neg8 => (self.neg(d, false), Action::Continue),
            Op::Neg16 => (self.neg(d, true), Action::Continue),
            Op::Rol8 | Op::Ror8 | Op::Rcl8 | Op::Rcr8 | Op::Shl8 | Op::Shr8 | Op::Sar8 => (
                self.shift(shift_kind_of(ins.command), ins, false),
                Action::Continue,
            ),
            Op::Rol16 | Op::Ror16 | Op::Rcl16 | Op::Rcr16 | Op::Shl16 | Op::Shr16 | Op::Sar16 => (
                self.shift(shift_kind_of(ins.command), ins, true),
                Action::Continue,
            ),
            Op::Xchg8 => (self.xchg(ins, false), Action::Continue),
            Op::Xchg16 => (self.xchg(ins, true), Action::Continue),
            Op::Lea16 => (self.write16(d, self.mem_ref(src).1), Action::Continue),
            Op::Movzx16 => (self.write16(d, self.read8(src) as u16), Action::Continue),
            Op::Movsx16 => (self.write16(d, sext8(self.read8(src) as i8)), Action::Continue),
            Op::Cbw => (
                self.with_reg16(R16::AX, sext8(self.reg8(R8::AL) as i8)),
                Action::Continue,
            ),
            Op::Cwd => (
                self.with_reg16(
                    R16::DX,
                    if self.reg16(R16::AX) >= 0x8000 {
                        0xFFFF
                    } else {
                        0
                    },
                ),
                Action::Continue,
            ),
            Op::Lahf => (self.with_reg8(R8::AH, f.low_byte()), Action::Continue),
            Op::Sahf => (self.with_flags(f.with_low_byte(self.reg8(R8::AH))), Action::Continue),
            _ => (self, Action::Continue),
        }
    }

    /// Stack operations and jumps.
    pub open spec fn exec_jump(self, ins: Instruction) -> (State, Action) {
        let d = ins.params.dst;
        let src = ins.params.src;
        let f = self.flags;
        let ip = self.ip;
        match ins.command {
            Op::Push16 => (self.push(self.read16(d)), Action::Continue),
            Op::Pop16 => (self.pop().write16(d, self.top_of_stack()), Action::Continue),
            Op::Pushf => (self.push(f.packed()), Action::Continue),
            Op::Popf => (
                self.pop().with_flags(Flags::unpacked(self.top_of_stack())),
                Action::Continue,
            ),
            Op::Jcc(c) => (
                if cond_holds(f, c) {
                    self.with_ip(rel_target(ip, d))
                } else {
                    self
                },
                Action::Continue,
            ),
            Op::Jcxz => (
                if self.reg16(R16::CX) == 0 {
                    self.with_ip(rel_target(ip, d))
                } else {
                    self
                },
                Action::Continue,
            ),
            Op::Loop | Op::Loope | Op::Loopne => {
                let cx = offset_plus(self.reg16(R16::CX), -1);
                let s = self.with_reg16(R16::CX, cx);
                let taken = cx != 0 && match ins.command {
                    Op::Loope => f.zero,
                    Op::Loopne => !f.zero,
                    _ => true,
                };
                (
                    if taken {
                        s.with_ip(rel_target(ip, d))
                    } else {
                        s
                    },
                    Action::Continue,
                )
            },
            Op::JmpShort => (self.with_ip(rel_target(ip, d)), Action::Continue),
            Op::JmpNear => (
                match d {
                    Parameter::Imm16(_) => self.with_ip(rel_target(ip, d)),
                    _ => self.with_ip(self.read16(d)),
                },
                Action::Continue,
            ),
            Op::JmpFar => (
                match self.far_target(d) {
                    Some((seg, off)) => self.with_sreg(SR::CS, seg).with_ip(off),
                    None => self,
                },
                Action::Continue,
            ),
            _ => (self, Action::Continue),
        }
    }

    /// Calls, returns and interrupts.
    pub open spec fn exec_call(self, ins: Instruction) -> (State, Action) {
        let d = ins.params.dst;
        let src = ins.params.src;
        let f = self.flags;
        let ip = self.ip;
        match ins.command {
            Op::CallNear => {
                let target = match d {
                    Parameter::Imm16(_) => rel_target(ip, d),
                    _ => self.read16(d),
                };
                (self.push(ip).with_ip(target), Action::Continue)
            },
            Op::CallFar => (
                match self.far_target(d) {
                    Some((seg, off)) => self.push(self.sreg(SR::CS)).push(ip).with_sreg(
                        SR::CS,
                        seg,
                    ).with_ip(off),
                    None => self,
                },
                Action::Continue,
            ),
            Op::Retn => {
                let s = self.pop().with_ip(self.top_of_stack());
                (
                    match d {
                        Parameter::Imm16(n) => s.with_reg16(
                            R16::SP,
                            offset_plus(s.reg16(R16::SP), n as int),
                        ),
                        _ => s,
                    },
                    Action::Continue,
                )
            },
            Op::Retf => {
                let s1 = self.pop().with_ip(self.top_of_stack());
                let s = s1.pop().with_sreg(SR::CS, s1.top_of_stack());
                (
                    match d {
                        Parameter::Imm16(n) => s.with_reg16(
                            R16::SP,
                            offset_plus(s.reg16(R16::SP), n as int),
                        ),
                        _ => s,
                    },
                    Action::Continue,
                )
            },
            Op::Int => match d {
                Parameter::Imm8(v) => self.interrupt(v),
                _ => (self, Action::Continue),
            },
            Op::Iret => {
                let s1 = self.pop().with_ip(self.top_of_stack());
                let s2 = s1.pop().with_sreg(SR::CS, s1.top_of_stack());
                (s2.pop().with_flags(Flags::unpacked(s2.top_of_stack())), Action::Continue)
            },
            _ => (self, Action::Continue),
        }
    }

    /// String operations.
    pub open spec fn exec_string(self, ins: Instruction) -> (State, Action) {
        let d = ins.params.dst;
        let src = ins.params.src;
        let f = self.flags;
        let ip = self.ip;
        match ins.command {
            Op::Movsb => (self.string_op(StrKind::Movs, ins, false), Action::Continue),
            Op::Movsw => (self.string_op(StrKind::Movs, ins, true), Action::Continue),
            Op::Cmpsb => (self.string_op(StrKind::Cmps, ins, false), Action::Continue),
            Op::Cmpsw => (self.string_op(StrKind::Cmps, ins, true), Action::Continue),
            Op::Stosb => (self.string_op(StrKind::Stos, ins, false), Action::Continue),
            Op::Stosw => (self.string_op(StrKind::Stos, ins, true), Action::Continue),
            Op::Lodsb => (self.string_op(StrKind::Lods, ins, false), Action::Continue),
            Op::Lodsw => (self.string_op(StrKind::Lods, ins, true), Action::Continue),
            Op::Scasb => (self.string_op(StrKind::Scas, ins, false), Action::Continue),
            Op::Scasw => (self.string_op(StrKind::Scas, ins, true), Action::Continue),
            _ => (self, Action::Continue),
        }
    }

    /// Port I/O, flag operations and the rest.
    pub open spec fn exec_other(self, ins: Instruction) -> (State, Action) {
        let d = ins.params.dst;
        let src = ins.params.src;
        let f = self.flags;
        let ip = self.ip;
        match ins.command {
            Op::In8 => (self, Action::PortIn { port: port_of(self, src), wide: false }),
            Op::In16 => (self, Action::PortIn { port: port_of(self, src), wide: true }),
            Op::Out8 => (
                self,
                Action::PortOut {
                    port: port_of(self, d),
                    wide: false,
                    value: self.reg8(R8::AL) as u16,
                },
            ),
            Op::Out16 => (
                self,
                Action::PortOut { port: port_of(self, d), wide: true, value: self.reg16(R16::AX) },
            ),
            Op::Clc => (self.with_flags(Flags { carry: false, ..f }), Action::Continue),
            Op::Stc => (self.with_flags(Flags { carry: true, ..f }), Action::Continue),
            Op::Cmc => (self.with_flags(Flags { carry: !f.carry, ..f }), Action::Continue),
            Op::Cld => (self.with_flags(Flags { direction: false, ..f }), Action::Continue),
            Op::Std => (self.with_flags(Flags { direction: true, ..f }), Action::Continue),
            Op::Cli => (self.with_flags(Flags { interrupt: false, ..f }), Action::Continue),
            Op::Sti => (self.with_flags(Flags { interrupt: true, ..f }), Action::Continue),
            Op::Nop => (self, Action::Continue),
            Op::Hlt => (self, Action::Halt),
            Op::Unimplemented { escape, byte } => (self, Action::Unimplemented { escape, byte }),
            Op::Invalid(_) => (self, Action::Fatal),
            _ => (self, Action::Continue),
        }
    }

    /// One instruction of `len` bytes at CS:IP: IP advances past it, then it takes effect.
    /// An invalid instruction stops the run and leaves IP on it.
    pub open spec fn step(self, ins: Instruction, len: u16) -> (State, Action) {
        match ins.command {
            Op::Invalid(_) => (State { fatal: true, ..self }, Action::Fatal),
            Op::Insb | Op::Insw | Op::Outsb | Op::Outsw => self.string_io(ins, len),
            _ => self.with_ip(offset_plus(self.ip, len as int)).exec(ins),
        }
    }
}

/// Moves, arithmetic, logic, shifts and conversions.
pub open spec fn is_data_op_spec(op: Op) -> bool {
    match op {
        Op::Mov8 | Op::Mov16 | Op::Add8 | Op::Add16 | Op::Adc8 | Op::Adc16 | Op::Sub8 | Op::Sub16
        | Op::Sbb8 | Op::Sbb16 | Op::Cmp8 | Op::Cmp16 | Op::And8 | Op::And16 | Op::Or8 | Op::Or16
        | Op::Xor8 | Op::Xor16 | Op::Test8 | Op::Test16 | Op::Inc8 | Op::Inc16 | Op::Dec8
        | Op::Dec16 | Op::Not8 | Op::Not16 | Op::Neg8 | Op::Neg16 | Op::Rol8 | Op::Rol16
        | Op::Ror8 | Op::Ror16 | Op::Rcl8 | Op::Rcl16 | Op::Rcr8 | Op::Rcr16 | Op::Shl8
        | Op::Shl16 | Op::Shr8 | Op::Shr16 | Op::Sar8 | Op::Sar16 | Op::Xchg8 | Op::Xchg16
        | Op::Lea16 | Op::Movzx16 | Op::Movsx16 | Op::Cbw | Op::Cwd | Op::Lahf | Op::Sahf => true,
        _ => false,
    }
}

/// Stack operations and jumps.
pub open spec fn is_jump_op_spec(op: Op) -> bool {
    match op {
        Op::Push16 | Op::Pop16 | Op::Pushf | Op::Popf | Op::Jcc(_) | Op::Jcxz | Op::Loop
        | Op::Loope | Op::Loopne | Op::JmpShort | Op::JmpNear | Op::JmpFar => true,
        _ => false,
    }
}

/// Calls, returns and interrupts.
pub open spec fn is_call_op_spec(op: Op) -> bool {
    match op {
        Op::CallNear | Op::CallFar | Op::Retn | Op::Retf | Op::Int | Op::Iret => true,
        _ => false,
    }
}

#[verifier::when_used_as_spec(is_data_op_spec)]
fn is_data_op(op: Op) -> (r: bool)
    ensures
        r == is_data_op_spec(op),
{
    match op {
        Op::Mov8 | Op::Mov16 | Op::Add8 | Op::Add16 | Op::Adc8 | Op::Adc16 | Op::Sub8 | Op::Sub16
        | Op::Sbb8 | Op::Sbb16 | Op::Cmp8 | Op::Cmp16 | Op::And8 | Op::And16 | Op::Or8 | Op::Or16
        | Op::Xor8 | Op::Xor16 | Op::Test8 | Op::Test16 | Op::Inc8 | Op::Inc16 | Op::Dec8
        | Op::Dec16 | Op::Not8 | Op::Not16 | Op::Neg8 | Op::Neg16 | Op::Rol8 | Op::Rol16
        | Op::Ror8 | Op::Ror16 | Op::Rcl8 | Op::Rcl16 | Op::Rcr8 | Op::Rcr16 | Op::Shl8
        | Op::Shl16 | Op::Shr8 | Op::Shr16 | Op::Sar8 | Op::Sar16 | Op::Xchg8 | Op::Xchg16
        | Op::Lea16 | Op::Movzx16 | Op::Movsx16 | Op::Cbw | Op::Cwd | Op::Lahf | Op::Sahf => true,
        _ => false,
    }
}

#[verifier::when_used_as_spec(is_jump_op_spec)]
fn is_jump_op(op: Op) -> (r: bool)
    ensures
        r == is_jump_op_spec(op),
{
    match op {
        Op::Push16 | Op::Pop16 | Op::Pushf | Op::Popf | Op::Jcc(_) | Op::Jcxz | Op::Loop
        | Op::Loope | Op::Loopne | Op::JmpShort | Op::JmpNear | Op::JmpFar => true,
        _ => false,
    }
}

#[verifier::when_used_as_spec(is_call_op_spec)]
fn is_call_op(op: Op) -> (r: bool)
    ensures
        r == is_call_op_spec(op),
{
    match op {
        Op::CallNear | Op::CallFar | Op::Retn | Op::Retf | Op::Int | Op::Iret => true,
        _ => false,
    }
}

/// The string operations.
pub open spec fn is_string_op_spec(op: Op) -> bool {
    match op {
        Op::Movsb | Op::Movsw | Op::Cmpsb | Op::Cmpsw | Op::Stosb | Op::Stosw | Op::Lodsb
        | Op::Lodsw | Op::Scasb | Op::Scasw => true,
        _ => false,
    }
}

#[verifier::when_used_as_spec(is_string_op_spec)]
fn is_string_op(op: Op) -> (r: bool)
    ensures
        r == is_string_op_spec(op),
{
    match op {
        Op::Movsb | Op::Movsw | Op::Cmpsb | Op::Cmpsw | Op::Stosb | Op::Stosw | Op::Lodsb
        | Op::Lodsw | Op::Scasb | Op::Scasw => true,
        _ => false,
    }
}

#[verifier::when_used_as_spec(is_extra_op_spec)]
fn is_extra_op(op: Op) -> (r: bool)
    ensures
        r == is_extra_op_spec(op),
{
    match op {
        Op::Mul8 | Op::Mul16 | Op::Imul8 | Op::Imul16 | Op::Div8 | Op::Div16 | Op::Idiv8
        | Op::Idiv16 | Op::Xlatb | Op::Lds | Op::Les | Op::Pusha | Op::Popa | Op::Leave | Op::Aaa
        | Op::Aas | Op::Daa | Op::Das | Op::Aam | Op::Aad | Op::Shld | Op::Shrd | Op::Imul16r
        | Op::Enter => true,
        _ => false,
    }
}

/// Two's-complement value of an operand of the given width.
fn signed_value(v: u16, wide: bool) -> (r: i64)
    ensures
        r == signed(v, wide),
        fits(v, wide) ==> (if wide { -0x8000 <= r <= 0x7FFF } else { -0x80 <= r <= 0x7F }),
        (if wide { -0x8000 <= r <= 0xFFFF } else { -0x80 <= r <= 0xFFFF }),
{
    if wide {
        if v >= 0x8000 {
            v as i64 - 0x10000
        } else {
            v as i64
        }
    } else {
        if v >= 0x80 {
            v as i64 - 0x100
        } else {
            v as i64
        }
    }
}

/// The product that MUL (unsigned) or IMUL (signed) forms of two operands.
fn product(a: u16, b: u16, wide: bool, is_signed: bool) -> (r: i64)
    requires
        fits(a, wide),
        fits(b, wide),
    ensures
        r == (if is_signed { signed(a, wide) } else { a as int }) * (if is_signed {
            signed(b, wide)
        } else {
            b as int
        }),
        wide ==> -0x40000000 <= r <= 0xFFFE0001,
        !wide ==> -0x4000 <= r <= 0xFE01,
{
    let x: i64 = if is_signed {
        signed_value(a, wide)
    } else {
        a as i64
    };
    let y: i64 = if is_signed {
        signed_value(b, wide)
    } else {
        b as i64
    };
    if wide {
        if is_signed {
            assert(-0x40000000 <= x * y <= 0x40000000) by (nonlinear_arith)
                requires
                    -0x8000 <= x <= 0x7FFF,
                    -0x8000 <= y <= 0x7FFF,
            ;
        } else {
            assert(0 <= x * y <= 0xFFFE0001) by (nonlinear_arith)
                requires
                    0 <= x <= 0xFFFF,
                    0 <= y <= 0xFFFF,
            ;
        }
    } else {
        if is_signed {
            assert(-0x4000 <= x * y <= 0x4000) by (nonlinear_arith)
                requires
                    -0x80 <= x <= 0x7F,
                    -0x80 <= y <= 0x7F,
            ;
        } else {
            assert(0 <= x * y <= 0xFE01) by (nonlinear_arith)
                requires
                    0 <= x <= 0xFF,
                    0 <= y <= 0xFF,
            ;
        }
    }
    x * y
}

/// Quotient and remainder of DIV (unsigned, `n` and `d` non-negative) or IDIV
/// (rounded toward zero).
fn quotient(n: i64, d: i64, is_signed: bool) -> (r: (i64, i64))
    requires
        d != 0,
        -0x100000000 <= n <= 0x100000000,
        -0x100000000 <= d <= 0x100000000,
        !is_signed ==> n >= 0 && d > 0,
    ensures
        r.0 == (if is_signed { tdiv(n as int, d as int) } else { n as int / d as int }),
        r.1 == (if is_signed { trem(n as int, d as int) } else { n as int % d as int }),
{
    let na: u64 = if n < 0 {
        (-n) as u64
    } else {
        n as u64
    };
    let da: u64 = if d < 0 {
        (-d) as u64
    } else {
        d as u64
    };
    let qa: u64 = na / da;
    let ra: u64 = na % da;
    proof {
        vstd::arithmetic::div_mod::lemma_div_is_ordered_by_denominator(na as int, 1, da as int);
        assert(na as int / 1 == na as int);
    }
    let q: i64 = if (n >= 0) == (d >= 0) {
        qa as i64
    } else {
        -(qa as i64)
    };
    let rem: i64 = if n >= 0 {
        ra as i64
    } else {
        -(ra as i64)
    };
    (q, rem)
}

fn double_one(left: bool, d: u16, s: u16) -> (r: (u16, u16, bool))
    ensures
        r == double_once(left, d, s),
{
    if left {
        (
            ((d as u32 * 2) % 0x10000 + (if s >= 0x8000 { 1 } else { 0 })) as u16,
            ((s as u32 * 2) % 0x10000) as u16,
            d >= 0x8000,
        )
    } else {
        ((d as u32 / 2 + (if s % 2 == 1 { 0x8000 } else { 0 })) as u16, s / 2, d % 2 == 1)
    }
}

/// `n` steps of SHLD or SHRD.
fn double_by(left: bool, d: u16, s: u16, cf: bool, n: u8) -> (r: (u16, bool))
    ensures
        r == double_steps(left, d, s, cf, n as nat),
{
    let mut i: u8 = 0;
    let mut cur: (u16, u16, bool) = (d, s, cf);
    while i < n
        invariant
            i <= n,
            double_steps(left, d, s, cf, n as nat) == double_steps(
                left,
                cur.0,
                cur.1,
                cur.2,
                (n - i) as nat,
            ),
        decreases n - i,
    {
        cur = double_one(left, cur.0, cur.1);
        i = i + 1;
    }
    (cur.0, cur.2)
}

fn port_value(p: Parameter, dx: u16) -> (r: u16)
    ensures
        forall|s: State| s.reg16(R16::DX) == dx ==> r == port_of(s, p),
{
    match p {
        Parameter::Imm8(v) => v as u16,
        _ => dx,
    }
}

fn shift_kind(op: Op) -> (r: ShiftKind)
    ensures
        r == shift_kind_of(op),
{
    match op {
        Op::Rol8 | Op::Rol16 => ShiftKind::Rol,
        Op::Ror8 | Op::Ror16 => ShiftKind::Ror,
        Op::Rcl8 | Op::Rcl16 => ShiftKind::Rcl,
        Op::Rcr8 | Op::Rcr16 => ShiftKind::Rcr,
        Op::Shl8 | Op::Shl16 => ShiftKind::Shl,
        Op::Shr8 | Op::Shr16 => ShiftKind::Shr,
        _ => ShiftKind::Sar,
    }
}

/// Whether a jump condition holds.
pub fn condition(f: &Flags, c: Cond) -> (r: bool)
    ensures
        r == cond_holds(*f, c),
{
    match c {
        Cond::O => f.overflow,
        Cond::NO => !f.overflow,
        Cond::C => f.carry,
        Cond::NC => !f.carry,
        Cond::Z => f.zero,
        Cond::NZ => !f.zero,
        Cond::NA => f.carry || f.zero,
        Cond::A => !f.carry && !f.zero,
        Cond::S => f.sign,
        Cond::NS => !f.sign,
        Cond::PE => f.parity,
        Cond::PO => !f.parity,
        Cond::L => f.sign != f.overflow,
        Cond::NL => f.sign == f.overflow,
        Cond::NG => f.zero || f.sign != f.overflow,
        Cond::G => !f.zero && f.sign == f.overflow,
    }
}

fn relative_target(ip: u16, p: Parameter) -> (r: u16)
    ensures
        r == rel_target(ip, p),
{
    match p {
        Parameter::ImmS8(d) => offset_add(ip, d as i32),
        Parameter::Imm16(d) => offset_add(ip, d as i32),
        _ => ip,
    }
}

impl CPU {
    fn get(&self, p: Parameter, wide: bool) -> (r: u16)
        requires
            self.wf(),
        ensures
            r == self@.get(p, wide),
            fits(r, wide),
    {
        if wide {
            self.read_parameter_u16(p)
        } else {
            self.read_parameter_u8(p) as u16
        }
    }

    fn put(&mut self, p: Parameter, v: u16, wide: bool)
        requires
            old(self).wf(),
        ensures
            final(self).wf(),
            final(self)@ == old(self)@.put(p, v, wide),
            final(self).instruction_count == old(self).instruction_count,
    {
        if wide {
            self.write_parameter_u16(p, v)
        } else {
            self.write_parameter_u8(p, v as u8)
        }
    }

    fn alu(&mut self, kind: AluKind, ins: &Instruction, wide: bool)
        requires
            old(self).wf(),
        ensures
            final(self).wf(),
            final(self)@ == old(self)@.alu(kind, *ins, wide),
            final(self).instruction_count == old(self).instruction_count,
    {
        let d = ins.params.dst;
        let a = self.get(d, wide);
        let b = self.get(ins.params.src, wide);
        match kind {
            AluKind::Add => {
                let r = self.flags.add(a, b, false, wide);
                self.put(d, r, wide);
            },
            AluKind::Adc => {
                let c = self.flags.carry;
                let r = self.flags.add(a, b, c, wide);
                self.put(d, r, wide);
            },
            AluKind::Sub => {
                let r = self.flags.sub(a, b, false, wide);
                self.put(d, r, wide);
            },
            AluKind::Sbb => {
                let c = self.flags.carry;
                let r = self.flags.sub(a, b, c, wide);
                self.put(d, r, wide);
            },
            AluKind::Cmp => {
                self.flags.sub(a, b, false, wide);
            },
            AluKind::And => {
                self.flags.logic(a & b, wide);
                self.put(d, a & b, wide);
            },
            AluKind::Or => {
                self.flags.logic(a | b, wide);
                self.put(d, a | b, wide);
            },
            AluKind::Xor => {
                self.flags.logic(a ^ b, wide);
                self.put(d, a ^ b, wide);
            },
            AluKind::Test => {
                self.flags.logic(a & b, wide);
            },
        }
    }

    fn unary(&mut self, op: Op, p: Parameter, wide: bool)
        requires
            old(self).wf(),
            op == Op::Inc8 || op == Op::Inc16 || op == Op::Dec8 || op == Op::Dec16 || op
                == Op::Neg8 || op == Op::Neg16 || op == Op::Not8 || op == Op::Not16,
        ensures
            final(self).wf(),
            final(self)@ == (match op {
                Op::Inc8 | Op::Inc16 => old(self)@.inc(p, wide),
                Op::Dec8 | Op::Dec16 => old(self)@.dec(p, wide),
                Op::Neg8 | Op::Neg16 => old(self)@.neg(p, wide),
                _ => old(self)@.not(p, wide),
            }),
            final(self).instruction_count == old(self).instruction_count,
    {
        let a = self.get(p, wide);
        match op {
            Op::Inc8 | Op::Inc16 => {
                let r = self.flags.inc(a, wide);
                self.put(p, r, wide);
            },
            Op::Dec8 | Op::Dec16 => {
                let r = self.flags.dec(a, wide);
                self.put(p, r, wide);
            },
            Op::Neg8 | Op::Neg16 => {
                let r = self.flags.sub(0, a, false, wide);
                self.put(p, r, wide);
            },
            _ => {
                let m: u16 = if wide {
                    0xFFFF
                } else {
                    0xFF
                };
                self.put(p, m - a, wide);
            },
        }
    }

    fn shift(&mut self, kind: ShiftKind, ins: &Instruction, wide: bool)
        requires
            old(self).wf(),
        ensures
            final(self).wf(),
            final(self)@ == old(self)@.shift(kind, *ins, wide),
            final(self).instruction_count == old(self).instruction_count,
    {
        let d = ins.params.dst;
        let a = self.get(d, wide);
        let n = self.read_parameter_u8(ins.params.src);
        let r = self.flags.shift(kind, a, n, wide);
        self.put(d, r, wide);
    }

    fn xchg(&mut self, ins: &Instruction, wide: bool)
        requires
            old(self).wf(),
        ensures
            final(self).wf(),
            final(self)@ == old(self)@.xchg(*ins, wide),
            final(self).instruction_count == old(self).instruction_count,
    {
        let a = self.get(ins.params.dst, wide);
        let b = self.get(ins.params.src, wide);
        self.put(ins.params.dst, b, wide);
        self.put(ins.params.src, a, wide);
    }

    fn int_ivt(&mut self, v: u8)
        requires
            old(self).wf(),
        ensures
            final(self).wf(),
            final(self)@ == old(self)@.int_ivt(v),
            final(self).instruction_count == old(self).instruction_count,
    {
        let fl = self.flags.u16();
        self.push16(fl);
        self.flags.interrupt = false;
        self.flags.trap = false;
        let cs = self.get_sr(SR::CS);
        self.push16(cs);
        let ip = self.ip;
        self.push16(ip);
        let a: u16 = v as u16 * 4;
        let new_ip = self.mmu.read_u16(0, a);
        let new_cs = self.mmu.read_u16(0, a + 2);
        self.set_sr(SR::CS, new_cs);
        self.ip = new_ip;
    }

    fn interrupt(&mut self, v: u8) -> (r: Action)
        requires
            old(self).wf(),
        ensures
            final(self).wf(),
            (final(self)@, r) == old(self)@.interrupt(v),
            final(self).instruction_count == old(self).instruction_count,
    {
        if v == 0x20 || (v == 0x21 && self.get_r8(R8::AH) == 0x4C) {
            self.fatal_error = true;
            Action::Terminate
        } else if v == 0x10 || v == 0x16 || v == 0x1A || v == 0x21 || v == 0x33 {
            Action::Interrupt(v)
        } else {
            self.int_ivt(v);
            Action::Continue
        }
    }

    fn string_once(&mut self, kind: StrKind, ins: &Instruction, wide: bool)
        requires
            old(self).wf(),
        ensures
            final(self).wf(),
            final(self)@ == old(self)@.string_once(kind, *ins, wide),
            final(self).instruction_count == old(self).instruction_count,
    {
        let size: i32 = if wide {
            2
        } else {
            1
        };
        let delta: i32 = if self.flags.direction {
            -size
        } else {
            size
        };
        let si = self.get_r16(R16::SI);
        let di = self.get_r16(R16::DI);
        let src = self.get_sr(crate::cpu::segment_or(ins.segment_prefix, SR::DS));
        let es = self.get_sr(SR::ES);
        let acc = if wide {
            self.get_r16(R16::AX)
        } else {
            self.get_r8(R8::AL) as u16
        };
        let from_src = if wide {
            self.mmu.read_u16(src, si)
        } else {
            self.mmu.read_u8(src, si) as u16
        };
        let at_dst = if wide {
            self.mmu.read_u16(es, di)
        } else {
            self.mmu.read_u8(es, di) as u16
        };
        let next_si = offset_add(si, delta);
        let next_di = offset_add(di, delta);
        match kind {
            StrKind::Movs => {
                if wide {
                    self.mmu.write_u16(es, di, from_src);
                } else {
                    self.mmu.write_u8(es, di, from_src as u8);
                }
                self.set_r16(R16::SI, next_si);
                self.set_r16(R16::DI, next_di);
            },
            StrKind::Stos => {
                if wide {
                    self.mmu.write_u16(es, di, acc);
                } else {
                    self.mmu.write_u8(es, di, acc as u8);
                }
                self.set_r16(R16::DI, next_di);
            },
            StrKind::Lods => {
                if wide {
                    self.set_r16(R16::AX, from_src);
                } else {
                    self.set_r8(R8::AL, from_src as u8);
                }
                self.set_r16(R16::SI, next_si);
            },
            StrKind::Cmps => {
                self.flags.sub(from_src, at_dst, false, wide);
                self.set_r16(R16::SI, next_si);
                self.set_r16(R16::DI, next_di);
            },
            StrKind::Scas => {
                self.flags.sub(acc, at_dst, false, wide);
                self.set_r16(R16::DI, next_di);
            },
        }
    }

    fn string_rep(&mut self, kind: StrKind, ins: &Instruction, wide: bool)
        requires
            old(self).wf(),
        ensures
            final(self).wf(),
            final(self)@ == old(self)@.string_rep(kind, *ins, wide),
            final(self).instruction_count == old(self).instruction_count,
    {
        let ghost target = self@.string_rep(kind, *ins, wide);
        let ghost count = self.instruction_count;
        let mut done = false;
        while !done
            invariant
                self.wf(),
                self.instruction_count == count,
                !done ==> self@.string_rep(kind, *ins, wide) == target,
                done ==> self@ == target,
            decreases self@.regs[1] as int + (if done { 0int } else { 1int }),
        {
            let cx = self.get_r16(R16::CX);
            if cx == 0 {
                done = true;
            } else {
                self.string_once(kind, ins, wide);
                self.set_r16(R16::CX, cx - 1);
                let compares = match kind {
                    StrKind::Cmps | StrKind::Scas => true,
                    _ => false,
                };
                let stop = match ins.repeat {
                    RepeatMode::Repne => self.flags.zero,
                    _ => !self.flags.zero,
                };
                if compares && stop {
                    done = true;
                }
            }
        }
    }

    fn string_op(&mut self, kind: StrKind, ins: &Instruction, wide: bool)
        requires
            old(self).wf(),
        ensures
            final(self).wf(),
            final(self)@ == old(self)@.string_op(kind, *ins, wide),
            final(self).instruction_count == old(self).instruction_count,
    {
        match ins.repeat {
            RepeatMode::Plain => self.string_once(kind, ins, wide),
            _ => self.string_rep(kind, ins, wide),
        }
    }

    fn mul(&mut self, src: Parameter, wide: bool, is_signed: bool)
        requires
            old(self).wf(),
        ensures
            final(self).wf(),
            final(self)@ == old(self)@.mul(src, wide, is_signed),
            final(self).instruction_count == old(self).instruction_count,
    {
        let a: u16 = if wide {
            self.get_r16(R16::AX)
        } else {
            self.get_r8(R8::AL) as u16
        };
        let b = self.get(src, wide);
        let p = product(a, b, wide, is_signed);
        let t: i64 = if wide {
            0x8000
        } else {
            0x80
        };
        let m: i64 = if wide {
            0x10000
        } else {
            0x100
        };
        let fits = if is_signed {
            -t <= p && p < t
        } else {
            p < m
        };
        if wide {
            let u: u64 = if p < 0 {
                (p + 0x100000000) as u64
            } else {
                p as u64
            };
            self.set_r16(R16::AX, (u % 0x10000) as u16);
            self.set_r16(R16::DX, (u / 0x10000) as u16);
        } else {
            let u: i64 = if p < 0 {
                p + 0x10000
            } else {
                p
            };
            self.set_r16(R16::AX, u as u16);
        }
        self.flags.carry = !fits;
        self.flags.overflow = !fits;
    }

    fn div(&mut self, src: Parameter, wide: bool, is_signed: bool)
        requires
            old(self).wf(),
        ensures
            final(self).wf(),
            final(self)@ == old(self)@.div(src, wide, is_signed),
            final(self).instruction_count == old(self).instruction_count,
    {
        let d = self.get(src, wide);
        let ax = self.get_r16(R16::AX);
        let dx = self.get_r16(R16::DX);
        let n0: i64 = if wide {
            dx as i64 * 0x10000 + ax as i64
        } else {
            ax as i64
        };
        let half: i64 = if wide {
            0x80000000
        } else {
            0x8000
        };
        let n: i64 = if is_signed && n0 >= half {
            n0 - 2 * half
        } else {
            n0
        };
        let dd: i64 = if is_signed {
            signed_value(d, wide)
        } else {
            d as i64
        };
        if dd == 0 {
            self.int_ivt(0);
            return;
        }
        let (q, r) = quotient(n, dd, is_signed);
        let t: i64 = if wide {
            0x8000
        } else {
            0x80
        };
        let m: i64 = if wide {
            0x10000
        } else {
            0x100
        };
        let ok = if is_signed {
            -t <= q && q < t
        } else {
            q < m
        };
        if !ok {
            self.int_ivt(0);
            return;
        }
        if wide {
            self.set_r16(R16::AX, (if q < 0 { q + 0x10000 } else { q }) as u16);
            self.set_r16(R16::DX, (if r < 0 { r + 0x10000 } else { r }) as u16);
        } else {
            self.set_r8(R8::AL, (if q < 0 { q + 0x100 } else { q }) as u8);
            self.set_r8(R8::AH, (if r < 0 { r + 0x100 } else { r }) as u8);
        }
    }

    fn load_far(&mut self, ins: &Instruction, sr: SR)
        requires
            old(self).wf(),
        ensures
            final(self).wf(),
            final(self)@ == old(self)@.load_far(*ins, sr),
            final(self).instruction_count == old(self).instruction_count,
    {
        let (s, off) = self.mem_ref(ins.params.src);
        let base = self.get_sr(s);
        let v = self.mmu.read_u16(base, off);
        let seg = self.mmu.read_u16(base, offset_add(off, 2));
        self.write_parameter_u16(ins.params.dst, v);
        self.set_sr(sr, seg);
    }

    fn pusha(&mut self)
        requires
            old(self).wf(),
        ensures
            final(self).wf(),
            final(self)@ == old(self)@.pusha(),
            final(self).instruction_count == old(self).instruction_count,
    {
        let ax = self.get_r16(R16::AX);
        let cx = self.get_r16(R16::CX);
        let dx = self.get_r16(R16::DX);
        let bx = self.get_r16(R16::BX);
        let sp = self.get_r16(R16::SP);
        let bp = self.get_r16(R16::BP);
        let si = self.get_r16(R16::SI);
        let di = self.get_r16(R16::DI);
        self.push16(ax);
        self.push16(cx);
        self.push16(dx);
        self.push16(bx);
        self.push16(sp);
        self.push16(bp);
        self.push16(si);
        self.push16(di);
    }

    fn popa(&mut self)
        requires
            old(self).wf(),
        ensures
            final(self).wf(),
            final(self)@ == old(self)@.popa(),
            final(self).instruction_count == old(self).instruction_count,
    {
        let di = self.pop16();
        let si = self.pop16();
        let bp = self.pop16();
        let _ = self.pop16();
        let bx = self.pop16();
        let dx = self.pop16();
        let cx = self.pop16();
        let ax = self.pop16();
        self.set_r16(R16::DI, di);
        self.set_r16(R16::SI, si);
        self.set_r16(R16::BP, bp);
        self.set_r16(R16::BX, bx);
        self.set_r16(R16::DX, dx);
        self.set_r16(R16::CX, cx);
        self.set_r16(R16::AX, ax);
    }

    fn aaa(&mut self)
        requires
            old(self).wf(),
        ensures
            final(self).wf(),
            final(self)@ == old(self)@.aaa(),
            final(self).instruction_count == old(self).instruction_count,
    {
        let al = self.get_r8(R8::AL);
        if al % 16 > 9 || self.flags.auxiliary_carry {
            let ax = self.get_r16(R16::AX);
            self.set_r16(R16::AX, ((ax as u32 + 0x106) % 0x10000) as u16);
            let al2 = self.get_r8(R8::AL);
            self.set_r8(R8::AL, al2 % 16);
            self.flags.auxiliary_carry = true;
            self.flags.carry = true;
        } else {
            self.set_r8(R8::AL, al % 16);
            self.flags.auxiliary_carry = false;
            self.flags.carry = false;
        }
    }

    fn aas(&mut self)
        requires
            old(self).wf(),
        ensures
            final(self).wf(),
            final(self)@ == old(self)@.aas(),
            final(self).instruction_count == old(self).instruction_count,
    {
        let al = self.get_r8(R8::AL);
        if al % 16 > 9 || self.flags.auxiliary_carry {
            let ax = self.get_r16(R16::AX);
            self.set_r16(R16::AX, ((ax as u32 + 0x10000 - 6) % 0x10000) as u16);
            let ah = self.get_r8(R8::AH);
            self.set_r8(R8::AH, ((ah as u32 + 255) % 256) as u8);
            let al2 = self.get_r8(R8::AL);
            self.set_r8(R8::AL, al2 % 16);
            self.flags.auxiliary_carry = true;
            self.flags.carry = true;
        } else {
            self.set_r8(R8::AL, al % 16);
            self.flags.auxiliary_carry = false;
            self.flags.carry = false;
        }
    }

    fn decimal_adjust(&mut self, sub: bool)
        requires
            old(self).wf(),
        ensures
            final(self).wf(),
            final(self)@ == old(self)@.decimal_adjust(sub),
            final(self).instruction_count == old(self).instruction_count,
    {
        let al = self.get_r8(R8::AL);
        let (v, cf, af) = decimal_value(al, self.flags.carry, self.flags.auxiliary_carry, sub);
        self.set_r8(R8::AL, v);
        self.flags.set_result(v as u16, false);
        self.flags.carry = cf;
        self.flags.auxiliary_carry = af;
    }

    fn ascii_adjust(&mut self, ins: &Instruction, multiply: bool)
        requires
            old(self).wf(),
        ensures
            final(self).wf(),
            final(self)@ == old(self)@.ascii_adjust(*ins, multiply),
            final(self).instruction_count == old(self).instruction_count,
    {
        let base = self.read_parameter_u8(ins.params.dst) as u32;
        let al = self.get_r8(R8::AL) as u32;
        let ah = self.get_r8(R8::AH) as u32;
        if multiply {
            if base == 0 {
                self.int_ivt(0);
            } else {
                let r = (al % base) as u8;
                self.set_r8(R8::AH, (al / base) as u8);
                self.set_r8(R8::AL, r);
                self.flags.set_result(r as u16, false);
            }
        } else {
            assert(ah * base <= 255 * 255) by (nonlinear_arith)
                requires
                    ah <= 255,
                    base <= 255,
            ;
            let r = ((al + ah * base) % 256) as u8;
            self.set_r8(R8::AL, r);
            self.set_r8(R8::AH, 0);
            self.flags.set_result(r as u16, false);
        }
    }

    fn shift_double(&mut self, ins: &Instruction, left: bool)
        requires
            old(self).wf(),
        ensures
            final(self).wf(),
            final(self)@ == old(self)@.shift_double(*ins, left),
            final(self).instruction_count == old(self).instruction_count,
    {
        let d = self.read_parameter_u16(ins.params.dst);
        let s = self.read_parameter_u16(ins.params.src);
        let n = self.read_parameter_u8(ins.params.src2) % 32;
        if n == 0 {
            return;
        }
        let (res, cf) = double_by(left, d, s, self.flags.carry, n);
        self.flags.set_result(res, true);
        self.flags.carry = cf;
        self.flags.overflow = (res >= 0x8000) != (d >= 0x8000);
        self.write_parameter_u16(ins.params.dst, res);
    }

    fn far_target(&self, d: Parameter) -> (r: Option<(u16, u16)>)
        requires
            self.wf(),
        ensures
            r == self@.far_target(d),
    {
        match d {
            Parameter::Ptr16Imm(seg, off) => Some((seg, off)),
            Parameter::Ptr16(..) | Parameter::Ptr16Amode(..) | Parameter::Ptr16AmodeS8(..)
            | Parameter::Ptr16AmodeS16(..) => {
                let (s, o) = self.mem_ref(d);
                let base = self.get_sr(s);
                Some((self.mmu.read_u16(base, offset_add(o, 2)), self.mmu.read_u16(base, o)))
            },
            _ => None,
        }
    }

    fn imul_r16(&mut self, ins: &Instruction)
        requires
            old(self).wf(),
        ensures
            final(self).wf(),
            final(self)@ == old(self)@.imul_r16(*ins),
            final(self).instruction_count == old(self).instruction_count,
    {
        let three = ins.params.src2 != Parameter::Empty;
        let a = if three {
            self.read_parameter_u16(ins.params.src)
        } else {
            self.read_parameter_u16(ins.params.dst)
        };
        let b = if three {
            self.read_parameter_u16(ins.params.src2)
        } else {
            self.read_parameter_u16(ins.params.src)
        };
        let p = product(a, b, true, true);
        let fits = -0x8000 <= p && p < 0x8000;
        let u: u64 = if p < 0 {
            (p + 0x100000000) as u64
        } else {
            p as u64
        };
        self.flags.carry = !fits;
        self.flags.overflow = !fits;
        self.write_parameter_u16(ins.params.dst, (u % 0x10000) as u16);
    }

    fn enter(&mut self, ins: &Instruction)
        requires
            old(self).wf(),
        ensures
            final(self).wf(),
            final(self)@ == old(self)@.enter(*ins),
            final(self).instruction_count == old(self).instruction_count,
    {
        let size = self.read_parameter_u16(ins.params.dst);
        let level = self.read_parameter_u8(ins.params.src) % 32;
        let bp = self.get_r16(R16::BP);
        self.push16(bp);
        let frame = self.get_r16(R16::SP);
        if level > 0 {
            let ghost target = self@.enter_copies((level - 1) as nat);
            let ghost count = self.instruction_count;
            let mut i: u8 = 0;
            while i < level - 1
                invariant
                    self.wf(),
                    i <= level - 1,
                    self.instruction_count == count,
                    self@.enter_copies((level - 1 - i) as nat) == target,
                decreases level - 1 - i,
            {
                let bp2 = offset_add(self.get_r16(R16::BP), -2);
                self.set_r16(R16::BP, bp2);
                let ss = self.get_sr(SR::SS);
                let v = self.mmu.read_u16(ss, bp2);
                self.push16(v);
                i = i + 1;
            }
            self.push16(frame);
        }
        self.set_r16(R16::BP, frame);
        let sp = self.get_r16(R16::SP);
        self.set_r16(R16::SP, offset_add(sp, -(size as i32)));
    }

    fn string_io(&mut self, ins: &Instruction, len: u16) -> (r: Action)
        requires
            old(self).wf(),
            ins.command == Op::Insb || ins.command == Op::Insw || ins.command == Op::Outsb
                || ins.command == Op::Outsw,
        ensures
            final(self).wf(),
            (final(self)@, r) == old(self)@.string_io(*ins, len),
            final(self).instruction_count == old(self).instruction_count,
    {
        let next = offset_add(self.ip, len as i32);
        let rep = match ins.repeat {
            RepeatMode::Plain => false,
            _ => true,
        };
        let cx = self.get_r16(R16::CX);
        let wide = match ins.command {
            Op::Insw | Op::Outsw => true,
            _ => false,
        };
        let port = self.get_r16(R16::DX);
        if rep && cx == 0 {
            self.ip = next;
            return Action::Continue;
        }
        let size: i32 = if wide {
            2
        } else {
            1
        };
        let delta: i32 = if self.flags.direction {
            -size
        } else {
            size
        };
        let si = self.get_r16(R16::SI);
        let src = self.get_sr(crate::cpu::segment_or(ins.segment_prefix, SR::DS));
        let v = if wide {
            self.mmu.read_u16(src, si)
        } else {
            self.mmu.read_u8(src, si) as u16
        };
        if rep {
            self.set_r16(R16::CX, cx - 1);
        }
        if !(rep && cx != 1) {
            self.ip = next;
        }
        match ins.command {
            Op::Outsb | Op::Outsw => {
                self.set_r16(R16::SI, offset_add(si, delta));
                Action::PortOut { port, wide, value: v }
            },
            _ => Action::PortInString { port, wide },
        }
    }

    /// Stores the value that the host read for an INS at ES:DI and moves DI on.
    pub fn complete_ins(&mut self, wide: bool, value: u16)
        requires
            old(self).wf(),
        ensures
            final(self).wf(),
            final(self)@ == old(self)@.store_in_string(wide, value),
            final(self).instruction_count == old(self).instruction_count,
    {
        let es = self.get_sr(SR::ES);
        let di = self.get_r16(R16::DI);
        let size: i32 = if wide {
            2
        } else {
            1
        };
        let delta: i32 = if self.flags.direction {
            -size
        } else {
            size
        };
        if wide {
            self.mmu.write_u16(es, di, value);
        } else {
            self.mmu.write_u8(es, di, value as u8);
        }
        self.set_r16(R16::DI, offset_add(di, delta));
    }

    /// MUL, IMUL, DIV, IDIV, XLAT, LDS, LES, PUSHA, POPA, LEAVE, ENTER, SHLD, SHRD and the
    /// BCD adjustments.
    fn execute_extra(&mut self, ins: &Instruction) -> (r: Action)
        requires
            old(self).wf(),
            is_extra_op(ins.command),
        ensures
            final(self).wf(),
            (final(self)@, r) == old(self)@.exec_extra(*ins),
            final(self).instruction_count == old(self).instruction_count,
    {
        let d = ins.params.dst;
        match ins.command {
            Op::Mul8 => self.mul(d, false, false),
            Op::Mul16 => self.mul(d, true, false),
            Op::Imul8 => self.mul(d, false, true),
            Op::Imul16 => self.mul(d, true, true),
            Op::Div8 => self.div(d, false, false),
            Op::Div16 => self.div(d, true, false),
            Op::Idiv8 => self.div(d, false, true),
            Op::Idiv16 => self.div(d, true, true),
            Op::Xlatb => {
                let seg = self.get_sr(crate::cpu::segment_or(ins.segment_prefix, SR::DS));
                let bx = self.get_r16(R16::BX);
                let al = self.get_r8(R8::AL);
                let v = self.mmu.read_u8(seg, offset_add(bx, al as i32));
                self.set_r8(R8::AL, v);
            },
            Op::Lds => self.load_far(ins, SR::DS),
            Op::Les => self.load_far(ins, SR::ES),
            Op::Pusha => self.pusha(),
            Op::Popa => self.popa(),
            Op::Leave => {
                let bp = self.get_r16(R16::BP);
                self.set_r16(R16::SP, bp);
                let v = self.pop16();
                self.set_r16(R16::BP, v);
            },
            Op::Aaa => self.aaa(),
            Op::Aas => self.aas(),
            Op::Daa => self.decimal_adjust(false),
            Op::Das => self.decimal_adjust(true),
            Op::Aam => self.ascii_adjust(ins, true),
            Op::Aad => self.ascii_adjust(ins, false),
            Op::Shld => self.shift_double(ins, true),
            Op::Shrd => self.shift_double(ins, false),
            Op::Imul16r => self.imul_r16(ins),
            Op::Enter => self.enter(ins),
            _ => {},
        }
        Action::Continue
    }

    /// Executes an instruction of `len` bytes that was fetched at CS:IP: IP advances past
    /// it, then it takes effect. Returns what the host has to do next.
    pub fn execute(&mut self, ins: &Instruction, len: u16) -> (r: Action)
        requires
            old(self).wf(),
        ensures
            final(self).wf(),
            (final(self)@, r) == old(self)@.step(*ins, len),
            final(self).instruction_count == old(self).instruction_count,
    {
        if let Op::Invalid(_) = ins.command {
            self.fatal_error = true;
            return Action::Fatal;
        }
        match ins.command {
            Op::Insb | Op::Insw | Op::Outsb | Op::Outsw => {
                return self.string_io(ins, len);
            },
            _ => {},
        }
        self.ip = offset_add(self.ip, len as i32);
        if is_data_op(ins.command) {
            self.execute_data(ins)
        } else if is_jump_op(ins.command) {
            self.execute_jump(ins)
        } else if is_call_op(ins.command) {
            self.execute_call(ins)
        } else if is_string_op(ins.command) {
            self.execute_string(ins)
        } else if is_extra_op(ins.command) {
            self.execute_extra(ins)
        } else {
            self.execute_other(ins)
        }
    }

    /// Moves, arithmetic, logic, shifts and conversions.
    fn execute_data(&mut self, ins: &Instruction) -> (r: Action)
        requires
            old(self).wf(),
            is_data_op(ins.command),
        ensures
            final(self).wf(),
            (final(self)@, r) == old(self)@.exec_data(*ins),
            final(self).instruction_count == old(self).instruction_count,
    {
        let d = ins.params.dst;
        let src = ins.params.src;
        let ip = self.ip;
        match ins.command {
            Op::Mov8 => {
                let v = self.get(src, false);
                self.put(d, v, false);
            },
            Op::Mov16 => {
                let v = self.get(src, true);
                self.put(d, v, true);
            },
            Op::Add8 => self.alu(AluKind::Add, ins, false),
            Op::Add16 => self.alu(AluKind::Add, ins, true),
            Op::Adc8 => self.alu(AluKind::Adc, ins, false),
            Op::Adc16 => self.alu(AluKind::Adc, ins, true),
            Op::Sub8 => self.alu(AluKind::Sub, ins, false),
            Op::Sub16 => self.alu(AluKind::Sub, ins, true),
            Op::Sbb8 => self.alu(AluKind::Sbb, ins, false),
            Op::Sbb16 => self.alu(AluKind::Sbb, ins, true),
            Op::Cmp8 => self.alu(AluKind::Cmp, ins, false),
            Op::Cmp16 => self.alu(AluKind::Cmp, ins, true),
            Op::And8 => self.alu(AluKind::And, ins, false),
            Op::And16 => self.alu(AluKind::And, ins, true),
            Op::Or8 => self.alu(AluKind::Or, ins, false),
            Op::Or16 => self.alu(AluKind::Or, ins, true),
            Op::Xor8 => self.alu(AluKind::Xor, ins, false),
            Op::Xor16 => self.alu(AluKind::Xor, ins, true),
            Op::Test8 => self.alu(AluKind::Test, ins, false),
            Op::Test16 => self.alu(AluKind::Test, ins, true),
            Op::Inc8 | Op::Dec8 | Op::Not8 | Op::Neg8 => self.unary(ins.command, d, false),
            Op::Inc16 | Op::Dec16 | Op::Not16 | Op::Neg16 => self.unary(ins.command, d, true),
            Op::Rol8 | Op::Ror8 | Op::Rcl8 | Op::Rcr8 | Op::Shl8 | Op::Shr8 | Op::Sar8 => {
                self.shift(shift_kind(ins.command), ins, false)
            },
            Op::Rol16 | Op::Ror16 | Op::Rcl16 | Op::Rcr16 | Op::Shl16 | Op::Shr16 | Op::Sar16 => {
                self.shift(shift_kind(ins.command), ins, true)
            },
            Op::Xchg8 => self.xchg(ins, false),
            Op::Xchg16 => self.xchg(ins, true),
            Op::Lea16 => {
                let (_, off) = self.mem_ref(src);
                self.write_parameter_u16(d, off);
            },
            Op::Movzx16 => {
                let v = self.read_parameter_u8(src);
                self.write_parameter_u16(d, v as u16);
            },
            Op::Movsx16 => {
                let v = self.read_parameter_u8(src);
                self.write_parameter_u16(d, sign_extend8(v as i8));
            },
            Op::Cbw => {
                let al = self.get_r8(R8::AL);
                self.set_r16(R16::AX, sign_extend8(al as i8));
            },
            Op::Cwd => {
                let ax = self.get_r16(R16::AX);
                self.set_r16(R16::DX, if ax >= 0x8000 { 0xFFFF } else { 0 });
            },
            Op::Lahf => {
                let b = self.flags.lahf_value();
                self.set_r8(R8::AH, b);
            },
            Op::Sahf => {
                let ah = self.get_r8(R8::AH);
                self.flags.set_low_byte(ah);
            },
            _ => {},
        }
        Action::Continue
    }

    /// Stack operations and jumps.
    fn execute_jump(&mut self, ins: &Instruction) -> (r: Action)
        requires
            old(self).wf(),
            is_jump_op(ins.command),
        ensures
            final(self).wf(),
            (final(self)@, r) == old(self)@.exec_jump(*ins),
            final(self).instruction_count == old(self).instruction_count,
    {
        let d = ins.params.dst;
        let src = ins.params.src;
        let ip = self.ip;
        match ins.command {
            Op::Push16 => {
                let v = self.read_parameter_u16(d);
                self.push16(v);
            },
            Op::Pop16 => {
                let v = self.pop16();
                self.write_parameter_u16(d, v);
            },
            Op::Pushf => {
                let v = self.flags.u16();
                self.push16(v);
            },
            Op::Popf => {
                let v = self.pop16();
                self.flags.set_u16(v);
            },
            Op::Jcc(c) => {
                if condition(&self.flags, c) {
                    self.ip = relative_target(ip, d);
                }
            },
            Op::Jcxz => {
                if self.get_r16(R16::CX) == 0 {
                    self.ip = relative_target(ip, d);
                }
            },
            Op::Loop | Op::Loope | Op::Loopne => {
                let cx = offset_add(self.get_r16(R16::CX), -1);
                self.set_r16(R16::CX, cx);
                let zf = self.flags.zero;
                let taken = cx != 0 && match ins.command {
                    Op::Loope => zf,
                    Op::Loopne => !zf,
                    _ => true,
                };
                if taken {
                    self.ip = relative_target(ip, d);
                }
            },
            Op::JmpShort => {
                self.ip = relative_target(ip, d);
            },
            Op::JmpNear => {
                match d {
                    Parameter::Imm16(_) => {
                        self.ip = relative_target(ip, d);
                    },
                    _ => {
                        self.ip = self.read_parameter_u16(d);
                    },
                }
            },
            Op::JmpFar => {
                if let Some((seg, off)) = self.far_target(d) {
                    self.set_sr(SR::CS, seg);
                    self.ip = off;
                }
            },
            _ => {},
        }
        Action::Continue
    }

    /// Calls, returns and interrupts.
    fn execute_call(&mut self, ins: &Instruction) -> (r: Action)
        requires
            old(self).wf(),
            is_call_op(ins.command),
        ensures
            final(self).wf(),
            (final(self)@, r) == old(self)@.exec_call(*ins),
            final(self).instruction_count == old(self).instruction_count,
    {
        let d = ins.params.dst;
        let src = ins.params.src;
        let ip = self.ip;
        match ins.command {
            Op::CallNear => {
                let target = match d {
                    Parameter::Imm16(_) => relative_target(ip, d),
                    _ => self.read_parameter_u16(d),
                };
                self.push16(ip);
                self.ip = target;
            },
            Op::CallFar => {
                if let Some((seg, off)) = self.far_target(d) {
                    let cs = self.get_sr(SR::CS);
                    self.push16(cs);
                    self.push16(ip);
                    self.set_sr(SR::CS, seg);
                    self.ip = off;
                }
            },
            Op::Retn => {
                self.ip = self.pop16();
                if let Parameter::Imm16(n) = d {
                    let sp = self.get_r16(R16::SP);
                    self.set_r16(R16::SP, offset_add(sp, n as i32));
                }
            },
            Op::Retf => {
                self.ip = self.pop16();
                let cs = self.pop16();
                self.set_sr(SR::CS, cs);
                if let Parameter::Imm16(n) = d {
                    let sp = self.get_r16(R16::SP);
                    self.set_r16(R16::SP, offset_add(sp, n as i32));
                }
            },
            Op::Int => {
                if let Parameter::Imm8(v) = d {
                    return self.interrupt(v);
                }
            },
            Op::Iret => {
                self.ip = self.pop16();
                let cs = self.pop16();
                self.set_sr(SR::CS, cs);
                let fl = self.pop16();
                self.flags.set_u16(fl);
            },
            _ => {},
        }
        Action::Continue
    }

    /// String operations.
    fn execute_string(&mut self, ins: &Instruction) -> (r: Action)
        requires
            old(self).wf(),
            is_string_op(ins.command),
        ensures
            final(self).wf(),
            (final(self)@, r) == old(self)@.exec_string(*ins),
            final(self).instruction_count == old(self).instruction_count,
    {
        let d = ins.params.dst;
        let src = ins.params.src;
        let ip = self.ip;
        match ins.command {
            Op::Movsb => self.string_op(StrKind::Movs, ins, false),
            Op::Movsw => self.string_op(StrKind::Movs, ins, true),
            Op::Cmpsb => self.string_op(StrKind::Cmps, ins, false),
            Op::Cmpsw => self.string_op(StrKind::Cmps, ins, true),
            Op::Stosb => self.string_op(StrKind::Stos, ins, false),
            Op::Stosw => self.string_op(StrKind::Stos, ins, true),
            Op::Lodsb => self.string_op(StrKind::Lods, ins, false),
            Op::Lodsw => self.string_op(StrKind::Lods, ins, true),
            Op::Scasb => self.string_op(StrKind::Scas, ins, false),
            Op::Scasw => self.string_op(StrKind::Scas, ins, true),
            _ => {},
        }
        Action::Continue
    }

    /// Port I/O, flag operations and the rest.
    #[verifier::rlimit(40)]
    fn execute_other(&mut self, ins: &Instruction) -> (r: Action)
        requires
            old(self).wf(),
            !is_data_op(ins.command) && !is_jump_op(ins.command) && !is_call_op(ins.command)
                && !is_string_op(ins.command) && !is_extra_op(ins.command) && !(ins.command is Invalid),
        ensures
            final(self).wf(),
            (final(self)@, r) == old(self)@.exec_other(*ins),
            final(self).instruction_count == old(self).instruction_count,
    {
        let d = ins.params.dst;
        let src = ins.params.src;
        let ip = self.ip;
        match ins.command {
            Op::In8 | Op::In16 => {
                let dx = self.get_r16(R16::DX);
                let port = port_value(src, dx);
                return Action::PortIn {
                    port,
                    wide: match ins.command {
                        Op::In16 => true,
                        _ => false,
                    },
                };
            },
            Op::Out8 => {
                let dx = self.get_r16(R16::DX);
                let port = port_value(d, dx);
                let al = self.get_r8(R8::AL);
                return Action::PortOut { port, wide: false, value: al as u16 };
            },
            Op::Out16 => {
                let dx = self.get_r16(R16::DX);
                let port = port_value(d, dx);
                let ax = self.get_r16(R16::AX);
                return Action::PortOut { port, wide: true, value: ax };
            },
            Op::Clc => {
                self.flags.carry = false;
            },
            Op::Stc => {
                self.flags.carry = true;
            },
            Op::Cmc => {
                self.flags.carry = !self.flags.carry;
            },
            Op::Cld => {
                self.flags.direction = false;
            },
            Op::Std => {
                self.flags.direction = true;
            },
            Op::Cli => {
                self.flags.interrupt = false;
            },
            Op::Sti => {
                self.flags.interrupt = true;
            },
            Op::Nop => {},
            Op::Hlt => {
                return Action::Halt;
            },
            Op::Unimplemented { escape, byte } => {
                return Action::Unimplemented { escape, byte };
            },
            _ => {},
        }
        Action::Continue
    }

    /// Hands the value that the host read for an IN instruction to AL or AX.
    pub fn complete_port_in(&mut self, wide: bool, value: u16)
        requires
            old(self).wf(),
        ensures
            final(self).wf(),
            final(self)@ == (if wide {
                old(self)@.with_reg16(R16::AX, value)
            } else {
                old(self)@.with_reg8(R8::AL, value as u8)
            }),
            final(self).instruction_count == old(self).instruction_count,
    {
        if wide {
            self.set_r16(R16::AX, value);
        } else {
            self.set_r8(R8::AL, value as u8);
        }
    }
}

pub open spec fn moves_si(kind: StrKind) -> bool {
    kind == StrKind::Movs || kind == StrKind::Cmps || kind == StrKind::Lods
}

pub open spec fn moves_di(kind: StrKind) -> bool {
    kind == StrKind::Movs || kind == StrKind::Cmps || kind == StrKind::Stos || kind == StrKind::Scas
}

/// Signed step of SI and DI per iteration: the operand size, negated when DF is set.
pub open spec fn str_delta(s: State, wide: bool) -> int {
    let size: int = if wide { 2 } else { 1 };
    if s.flags.direction {
        -size
    } else {
        size
    }
}

proof fn lemma_offset_plus_compose(b: u16, x: int, y: int)
    ensures
        offset_plus(offset_plus(b, x), y) == offset_plus(b, x + y),
{
    let m: int = 0x10000;
    let u = b as int + x + m;
    vstd::arithmetic::div_mod::lemma_add_mod_noop_right(y + m, u, m);
    vstd::arithmetic::div_mod::lemma_mod_add_multiples_vanish(b as int + x + y + m, m);
}

/// One iteration of a string operation moves SI and DI by one for bytes and by two for
/// words, upward when DF is clear and downward when it is set: MOVS and CMPS move both,
/// LODS only SI, STOS and SCAS only DI. DF and CX are left as they were.
pub proof fn lemma_string_step(s: State, kind: StrKind, ins: Instruction, wide: bool)
    requires
        s.wf(),
    ensures
        ({
            let t = s.string_once(kind, ins, wide);
            &&& t.wf()
            &&& t.flags.direction == s.flags.direction
            &&& t.reg16(R16::CX) == s.reg16(R16::CX)
            &&& t.reg16(R16::SI) == if moves_si(kind) {
                offset_plus(s.reg16(R16::SI), str_delta(s, wide))
            } else {
                s.reg16(R16::SI)
            }
            &&& t.reg16(R16::DI) == if moves_di(kind) {
                offset_plus(s.reg16(R16::DI), str_delta(s, wide))
            } else {
                s.reg16(R16::DI)
            }
        }),
{
}

/// Under REP, MOVS, STOS and LODS run exactly the initial CX iterations: CX ends at zero
/// and SI and DI have moved CX steps.
pub proof fn lemma_rep_iterations(s: State, kind: StrKind, ins: Instruction, wide: bool)
    requires
        s.wf(),
        kind == StrKind::Movs || kind == StrKind::Stos || kind == StrKind::Lods,
    ensures
        ({
            let t = s.string_rep(kind, ins, wide);
            let n = s.reg16(R16::CX) as int;
            &&& t.wf()
            &&& t.flags.direction == s.flags.direction
            &&& t.reg16(R16::CX) == 0
            &&& t.reg16(R16::SI) == if moves_si(kind) {
                offset_plus(s.reg16(R16::SI), n * str_delta(s, wide))
            } else {
                s.reg16(R16::SI)
            }
            &&& t.reg16(R16::DI) == if moves_di(kind) {
                offset_plus(s.reg16(R16::DI), n * str_delta(s, wide))
            } else {
                s.reg16(R16::DI)
            }
        }),
    decreases s.reg16(R16::CX),
{
    let n = s.reg16(R16::CX) as int;
    let d = str_delta(s, wide);
    if n == 0 {
        assert(offset_plus(s.reg16(R16::SI), 0 * d) == s.reg16(R16::SI));
        assert(offset_plus(s.reg16(R16::DI), 0 * d) == s.reg16(R16::DI));
    } else {
        lemma_string_step(s, kind, ins, wide);
        let s1 = s.string_once(kind, ins, wide).with_reg16(R16::CX, (n - 1) as u16);
        lemma_rep_iterations(s1, kind, ins, wide);
        assert(s.string_rep(kind, ins, wide) == s1.string_rep(kind, ins, wide));
        lemma_offset_plus_compose(s.reg16(R16::SI), d, (n - 1) * d);
        lemma_offset_plus_compose(s.reg16(R16::DI), d, (n - 1) * d);
        assert(d + (n - 1) * d == n * d) by (nonlinear_arith);
    }
}

/// The width-masked result of a two-operand ALU operation, also for CMP and TEST,
/// which do not write it.
pub open spec fn alu_value(kind: AluKind, a: u16, b: u16, carry: bool, wide: bool) -> u16 {
    match kind {
        AluKind::Add => add_result(a, b, false, wide),
        AluKind::Adc => add_result(a, b, carry, wide),
        AluKind::Sub | AluKind::Cmp => sub_result(a, b, false, wide),
        AluKind::Sbb => sub_result(a, b, carry, wide),
        AluKind::And | AluKind::Test => a & b,
        AluKind::Or => a | b,
        AluKind::Xor => a ^ b,
    }
}

/// After ADD, ADC, SUB, SBB, CMP, AND, OR, XOR or TEST on any operands, ZF is set
/// exactly when the width-masked result is zero, SF is its top bit, and PF is set
/// exactly when its low byte has an even number of set bits.
pub proof fn lemma_alu_result_flags(s: State, kind: AluKind, ins: Instruction, wide: bool)
    requires
        s.wf(),
    ensures
        ({
            let a = s.get(ins.params.dst, wide);
            let b = s.get(ins.params.src, wide);
            let r = alu_value(kind, a, b, s.flags.carry, wide);
            let f = s.alu(kind, ins, wide).flags;
            &&& fits(r, wide)
            &&& f.zero == (r == 0)
            &&& f.sign == (r as int / top(wide) == 1)
            &&& f.parity == crate::flags::even_parity(r)
        }),
{
    let a = s.get(ins.params.dst, wide);
    let b = s.get(ins.params.src, wide);
    let d = ins.params.dst;
    let cf = s.flags.carry;
    assert(a & b <= a) by (bit_vector);
    assert(a < 256 && b < 256 ==> (a | b) < 256 && (a ^ b) < 256) by (bit_vector);
    crate::flags::lemma_result_flags(s.flags, a, b, cf, wide);
    crate::flags::lemma_result_flags(s.flags, a, b, false, wide);
    let r = alu_value(kind, a, b, cf, wide);
    match kind {
        AluKind::Add => lemma_put_keeps_flags(s.with_flags(s.flags.after_add(a, b, false, wide)), d, r, wide),
        AluKind::Adc => lemma_put_keeps_flags(s.with_flags(s.flags.after_add(a, b, cf, wide)), d, r, wide),
        AluKind::Sub => lemma_put_keeps_flags(s.with_flags(s.flags.after_sub(a, b, false, wide)), d, r, wide),
        AluKind::Sbb => lemma_put_keeps_flags(s.with_flags(s.flags.after_sub(a, b, cf, wide)), d, r, wide),
        AluKind::And => lemma_put_keeps_flags(s.with_flags(s.flags.after_logic(r, wide)), d, r, wide),
        AluKind::Or => lemma_put_keeps_flags(s.with_flags(s.flags.after_logic(r, wide)), d, r, wide),
        AluKind::Xor => lemma_put_keeps_flags(s.with_flags(s.flags.after_logic(r, wide)), d, r, wide),
        _ => {},
    }
}

/// Writing an operand leaves the flags as they were.
proof fn lemma_put_keeps_flags(s: State, p: Parameter, v: u16, wide: bool)
    ensures
        s.put(p, v, wide).flags == s.flags,
{
}

/// After INC, DEC or NEG on any operand, ZF, SF and PF follow the width-masked result
/// in the same way; INC and DEC keep CF.
pub proof fn lemma_unary_result_flags(s: State, p: Parameter, wide: bool)
    requires
        s.wf(),
    ensures
        ({
            let a = s.get(p, wide);
            let fi = s.inc(p, wide).flags;
            let ri = add_result(a, 1, false, wide);
            let fd = s.dec(p, wide).flags;
            let rd = sub_result(a, 1, false, wide);
            let fg = s.neg(p, wide).flags;
            let rn = sub_result(0, a, false, wide);
            &&& fi.zero == (ri == 0) && fi.sign == (ri as int / top(wide) == 1)
                && fi.parity == crate::flags::even_parity(ri) && fi.carry == s.flags.carry
            &&& fd.zero == (rd == 0) && fd.sign == (rd as int / top(wide) == 1)
                && fd.parity == crate::flags::even_parity(rd) && fd.carry == s.flags.carry
            &&& fg.zero == (rn == 0) && fg.sign == (rn as int / top(wide) == 1)
                && fg.parity == crate::flags::even_parity(rn) && fg.carry == (a != 0)
        }),
{
    let a = s.get(p, wide);
    crate::flags::lemma_result_flags(s.flags, a, 1, false, wide);
    crate::flags::lemma_result_flags(s.flags, 0, a, false, wide);
}

/// Linear address `a` is a byte of one of the first `n` destination elements of a
/// string operation that starts from the state `s`: ES:(DI + i * step + k), with
/// i < n and k below the element size.
pub open spec fn rep_dest(s: State, wide: bool, n: nat, a: int) -> bool {
    let size: int = if wide { 2 } else { 1 };
    exists|i: int, k: int|
        0 <= i < n && 0 <= k < size && a == crate::memory::linear(
            s.sreg(SR::ES),
            #[trigger] offset_plus(s.reg16(R16::DI), i * str_delta(s, wide) + k),
        )
}

/// The first iteration of MOVS or STOS writes memory only at ES:DI, and the byte after
/// it for words.
proof fn lemma_first_write(s: State, kind: StrKind, ins: Instruction, wide: bool)
    requires
        s.wf(),
        kind == StrKind::Movs || kind == StrKind::Stos,
    ensures
        ({
            let t = s.string_once(kind, ins, wide);
            let es = s.sreg(SR::ES);
            let di = s.reg16(R16::DI);
            &&& t.sreg(SR::ES) == es
            &&& t.flags.direction == s.flags.direction
            &&& forall|a: int|
                0 <= a < crate::memory::MEM_SIZE && a != crate::memory::linear(es, di) && !(wide
                    && a == crate::memory::linear(es, crate::memory::next_off(di)))
                    ==> #[trigger] t.mem[a] == s.mem[a]
        }),
{
    let es = s.sreg(SR::ES);
    let di = s.reg16(R16::DI);
    crate::memory::lemma_linear_bounds(es, di);
    crate::memory::lemma_linear_bounds(es, crate::memory::next_off(di));
}

/// A destination element of the later iterations is a destination element of the run.
proof fn lemma_dest_later(s: State, s1: State, wide: bool, n: nat, a: int)
    requires
        n >= 1,
        s1.sreg(SR::ES) == s.sreg(SR::ES),
        s1.flags.direction == s.flags.direction,
        s1.reg16(R16::DI) == offset_plus(s.reg16(R16::DI), str_delta(s, wide)),
        rep_dest(s1, wide, (n - 1) as nat, a),
    ensures
        rep_dest(s, wide, n, a),
{
    let d = str_delta(s, wide);
    let di = s.reg16(R16::DI);
    let es = s.sreg(SR::ES);
    let (i, k) = choose|i: int, k: int|
        0 <= i < n - 1 && 0 <= k < (if wide { 2int } else { 1int }) && a == crate::memory::linear(
            s1.sreg(SR::ES),
            #[trigger] offset_plus(s1.reg16(R16::DI), i * str_delta(s1, wide) + k),
        );
    lemma_offset_plus_compose(di, d, i * d + k);
    assert(d + (i * d + k) == (i + 1) * d + k) by (nonlinear_arith);
    assert(a == crate::memory::linear(es, offset_plus(di, (i + 1) * d + k)));
}

/// The bytes of the first destination element belong to the run's destination.
proof fn lemma_dest_first(s: State, wide: bool, n: nat)
    requires
        n >= 1,
        s.wf(),
    ensures
        rep_dest(s, wide, n, crate::memory::linear(s.sreg(SR::ES), s.reg16(R16::DI))),
        wide ==> rep_dest(
            s,
            wide,
            n,
            crate::memory::linear(s.sreg(SR::ES), crate::memory::next_off(s.reg16(R16::DI))),
        ),
{
    let d = str_delta(s, wide);
    let di = s.reg16(R16::DI);
    assert(offset_plus(di, 0 * d + 0) == di);
    assert(crate::memory::next_off(di) == offset_plus(di, 0 * d + 1));
}

/// Under REP, MOVS and STOS write memory only at their CX destination elements:
/// every other byte keeps its value (and with CX zero nothing is written).
pub proof fn lemma_rep_writes_only_destination(s: State, kind: StrKind, ins: Instruction, wide: bool)
    requires
        s.wf(),
        kind == StrKind::Movs || kind == StrKind::Stos,
    ensures
        ({
            let t = s.string_rep(kind, ins, wide);
            let n = s.reg16(R16::CX) as nat;
            forall|a: int|
                0 <= a < crate::memory::MEM_SIZE && !rep_dest(s, wide, n, a) ==> #[trigger] t.mem[a]
                    == s.mem[a]
        }),
    decreases s.reg16(R16::CX),
{
    let n = s.reg16(R16::CX) as int;
    if n > 0 {
        let s0 = s.string_once(kind, ins, wide);
        let s1 = s0.with_reg16(R16::CX, (n - 1) as u16);
        lemma_string_step(s, kind, ins, wide);
        lemma_first_write(s, kind, ins, wide);
        lemma_dest_first(s, wide, n as nat);
        lemma_rep_writes_only_destination(s1, kind, ins, wide);
        assert(s.string_rep(kind, ins, wide) == s1.string_rep(kind, ins, wide));
        let t = s1.string_rep(kind, ins, wide);
        assert forall|a: int|
            0 <= a < crate::memory::MEM_SIZE && !rep_dest(s, wide, n as nat, a) implies #[trigger] t.mem[a]
                == s.mem[a] by {
            if rep_dest(s1, wide, (n - 1) as nat, a) {
                lemma_dest_later(s, s1, wide, n as nat, a);
            }
        }
    }
}

/// The ALU operation and width of an opcode tag, for the two-operand arithmetic and
/// logic instructions.
pub open spec fn alu_of(op: Op) -> Option<(AluKind, bool)> {
    match op {
        Op::Add8 => Some((AluKind::Add, false)),
        Op::Add16 => Some((AluKind::Add, true)),
        Op::Adc8 => Some((AluKind::Adc, false)),
        Op::Adc16 => Some((AluKind::Adc, true)),
        Op::Sub8 => Some((AluKind::Sub, false)),
        Op::Sub16 => Some((AluKind::Sub, true)),
        Op::Sbb8 => Some((AluKind::Sbb, false)),
        Op::Sbb16 => Some((AluKind::Sbb, true)),
        Op::Cmp8 => Some((AluKind::Cmp, false)),
        Op::Cmp16 => Some((AluKind::Cmp, true)),
        Op::And8 => Some((AluKind::And, false)),
        Op::And16 => Some((AluKind::And, true)),
        Op::Or8 => Some((AluKind::Or, false)),
        Op::Or16 => Some((AluKind::Or, true)),
        Op::Xor8 => Some((AluKind::Xor, false)),
        Op::Xor16 => Some((AluKind::Xor, true)),
        Op::Test8 => Some((AluKind::Test, false)),
        Op::Test16 => Some((AluKind::Test, true)),
        _ => None,
    }
}

/// Executing ADD, ADC, SUB, SBB, CMP, AND, OR, XOR or TEST at CS:IP: ZF is set exactly
/// when the width-masked result is zero, SF is its top bit, and PF is set exactly when
/// its low byte has an even number of set bits.
pub proof fn lemma_step_alu_flags(s: State, ins: Instruction, len: u16)
    requires
        s.wf(),
        alu_of(ins.command) is Some,
    ensures
        ({
            let (kind, wide) = alu_of(ins.command).unwrap();
            let s1 = s.with_ip(offset_plus(s.ip, len as int));
            let a = s1.get(ins.params.dst, wide);
            let b = s1.get(ins.params.src, wide);
            let r = alu_value(kind, a, b, s.flags.carry, wide);
            let f = s.step(ins, len).0.flags;
            &&& fits(r, wide)
            &&& f.zero == (r == 0)
            &&& f.sign == (r as int / top(wide) == 1)
            &&& f.parity == crate::flags::even_parity(r)
        }),
{
    let (kind, wide) = alu_of(ins.command).unwrap();
    let s1 = s.with_ip(offset_plus(s.ip, len as int));
    lemma_step_is_alu(s, ins, len);
    lemma_alu_result_flags(s1, kind, ins, wide);
}

/// An ALU instruction steps as `State::alu` once IP has moved past it.
#[verifier::spinoff_prover]
#[verifier::rlimit(60)]
proof fn lemma_step_is_alu(s: State, ins: Instruction, len: u16)
    requires
        alu_of(ins.command) is Some,
    ensures
        s.step(ins, len).0 == s.with_ip(offset_plus(s.ip, len as int)).alu(
            alu_of(ins.command).unwrap().0,
            ins,
            alu_of(ins.command).unwrap().1,
        ),
{
    let s1 = s.with_ip(offset_plus(s.ip, len as int));
    assert(s.step(ins, len) == s1.exec(ins));
    assert(s1.exec(ins) == s1.exec_data(ins));
}

/// Executing INC, DEC or NEG at CS:IP: ZF, SF and PF follow the width-masked result;
/// INC and DEC keep CF, NEG sets it exactly when the operand was not zero.
pub proof fn lemma_step_unary_flags(s: State, ins: Instruction, len: u16)
    requires
        s.wf(),
        ins.command == Op::Inc8 || ins.command == Op::Inc16 || ins.command == Op::Dec8
            || ins.command == Op::Dec16 || ins.command == Op::Neg8 || ins.command == Op::Neg16,
    ensures
        ({
            let wide = ins.command == Op::Inc16 || ins.command == Op::Dec16 || ins.command
                == Op::Neg16;
            let s1 = s.with_ip(offset_plus(s.ip, len as int));
            let a = s1.get(ins.params.dst, wide);
            let r = if ins.command == Op::Inc8 || ins.command == Op::Inc16 {
                add_result(a, 1, false, wide)
            } else if ins.command == Op::Dec8 || ins.command == Op::Dec16 {
                sub_result(a, 1, false, wide)
            } else {
                sub_result(0, a, false, wide)
            };
            let f = s.step(ins, len).0.flags;
            &&& f.zero == (r == 0)
            &&& f.sign == (r as int / top(wide) == 1)
            &&& f.parity == crate::flags::even_parity(r)
            &&& f.carry == (if ins.command == Op::Neg8 || ins.command == Op::Neg16 {
                a != 0
            } else {
                s.flags.carry
            })
        }),
{
    let wide = ins.command == Op::Inc16 || ins.command == Op::Dec16 || ins.command == Op::Neg16;
    let s1 = s.with_ip(offset_plus(s.ip, len as int));
    lemma_step_is_unary(s, ins, len);
    lemma_unary_result_flags(s1, ins.params.dst, wide);
}

#[verifier::spinoff_prover]
#[verifier::rlimit(60)]
proof fn lemma_step_is_unary(s: State, ins: Instruction, len: u16)
    requires
        ins.command == Op::Inc8 || ins.command == Op::Inc16 || ins.command == Op::Dec8
            || ins.command == Op::Dec16 || ins.command == Op::Neg8 || ins.command == Op::Neg16,
    ensures
        ({
            let wide = ins.command == Op::Inc16 || ins.command == Op::Dec16 || ins.command
                == Op::Neg16;
            let s1 = s.with_ip(offset_plus(s.ip, len as int));
            s.step(ins, len).0 == if ins.command == Op::Inc8 || ins.command == Op::Inc16 {
                s1.inc(ins.params.dst, wide)
            } else if ins.command == Op::Dec8 || ins.command == Op::Dec16 {
                s1.dec(ins.params.dst, wide)
            } else {
                s1.neg(ins.params.dst, wide)
            }
        }),
{
    let s1 = s.with_ip(offset_plus(s.ip, len as int));
    assert(s.step(ins, len) == s1.exec(ins));
    assert(s1.exec(ins) == s1.exec_data(ins));
}

/// The string operation kind and width of MOVS, STOS and LODS.
pub open spec fn copy_string_of(op: Op) -> Option<(StrKind, bool)> {
    match op {
        Op::Movsb => Some((StrKind::Movs, false)),
        Op::Movsw => Some((StrKind::Movs, true)),
        Op::Stosb => Some((StrKind::Stos, false)),
        Op::Stosw => Some((StrKind::Stos, true)),
        Op::Lodsb => Some((StrKind::Lods, false)),
        Op::Lodsw => Some((StrKind::Lods, true)),
        _ => None,
    }
}

/// Executing REP MOVS, REP STOS or REP LODS at CS:IP runs exactly the initial CX
/// iterations: CX ends at zero, SI (MOVS, LODS) and DI (MOVS, STOS) have moved CX
/// element steps, and MOVS and STOS write memory only at their CX destination elements.
pub proof fn lemma_step_rep_string(s: State, ins: Instruction, len: u16)
    requires
        s.wf(),
        copy_string_of(ins.command) is Some,
        ins.repeat != RepeatMode::Plain,
    ensures
        ({
            let (kind, wide) = copy_string_of(ins.command).unwrap();
            let s1 = s.with_ip(offset_plus(s.ip, len as int));
            let t = s.step(ins, len).0;
            let n = s.reg16(R16::CX) as nat;
            &&& t.reg16(R16::CX) == 0
            &&& t.reg16(R16::SI) == if moves_si(kind) {
                offset_plus(s.reg16(R16::SI), n * str_delta(s, wide))
            } else {
                s.reg16(R16::SI)
            }
            &&& t.reg16(R16::DI) == if moves_di(kind) {
                offset_plus(s.reg16(R16::DI), n * str_delta(s, wide))
            } else {
                s.reg16(R16::DI)
            }
            &&& (kind != StrKind::Lods ==> forall|a: int|
                0 <= a < crate::memory::MEM_SIZE && !rep_dest(s1, wide, n, a) ==> #[trigger] t.mem[a]
                    == s.mem[a])
        }),
{
    let (kind, wide) = copy_string_of(ins.command).unwrap();
    let s1 = s.with_ip(offset_plus(s.ip, len as int));
    lemma_step_is_string(s, ins, len);
    lemma_rep_iterations(s1, kind, ins, wide);
    if kind != StrKind::Lods {
        lemma_rep_writes_only_destination(s1, kind, ins, wide);
    }
}

#[verifier::spinoff_prover]
#[verifier::rlimit(60)]
proof fn lemma_step_is_string(s: State, ins: Instruction, len: u16)
    requires
        copy_string_of(ins.command) is Some,
        ins.repeat != RepeatMode::Plain,
    ensures
        s.step(ins, len).0 == s.with_ip(offset_plus(s.ip, len as int)).string_rep(
            copy_string_of(ins.command).unwrap().0,
            ins,
            copy_string_of(ins.command).unwrap().1,
        ),
{
    let s1 = s.with_ip(offset_plus(s.ip, len as int));
    assert(s.step(ins, len) == s1.exec(ins));
    assert(s1.exec(ins) == s1.exec_string(ins));
}

} // verus!
