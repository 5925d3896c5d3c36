use vstd::prelude::*;

use crate::flags::Flags;
use crate::instruction::{AMode, Parameter, Segment, R16, R8, SR};
use crate::memory::{
    byte_at, hi_byte, lo_byte, store_byte, store_word, word, word_at, MMU,
};

verus! {

/// The architectural state: registers, flags and memory.
pub struct State {
    pub ip: u16,
    /// AX, CX, DX, BX, SP, BP, SI, DI.
    pub regs: Seq<u16>,
    /// ES, CS, SS, DS, FS, GS.
    pub sregs: Seq<u16>,
    pub flags: Flags,
    pub mem: Seq<u8>,
    /// Sticky stop signal: set on an invalid instruction or on program termination.
    pub fatal: bool,
}

/// Sign extension of a byte to a word.
pub open spec fn sext8(v: i8) -> u16 {
    if v < 0 {
        (v as int + 0x10000) as u16
    } else {
        v as u16
    }
}

/// `base + disp` in 16-bit wrap-around arithmetic.
pub open spec fn offset_plus(base: u16, disp: int) -> u16 {
    ((base as int + disp + 0x10000) % 0x10000) as u16
}

/// The segment that an override names, or `dflt` where there is none.
pub open spec fn seg_or(seg: Segment, dflt: SR) -> SR {
    match seg {
        Segment::Default => dflt,
        Segment::ES => SR::ES,
        Segment::CS => SR::CS,
        Segment::SS => SR::SS,
        Segment::DS => SR::DS,
        Segment::FS => SR::FS,
        Segment::GS => SR::GS,
    }
}

/// The default segment of an addressing mode: SS through BP, DS otherwise.
pub open spec fn amode_default(am: AMode) -> SR {
    if am.uses_bp() {
        SR::SS
    } else {
        SR::DS
    }
}

impl State {
    pub open spec fn wf(self) -> bool {
        self.regs.len() == 8 && self.sregs.len() == 6 && self.mem.len() == crate::memory::MEM_SIZE
    }

    pub open spec fn reg16(self, r: R16) -> u16 {
        self.regs[r.idx() as int]
    }

    pub open spec fn reg8(self, r: R8) -> u8 {
        if r.idx() < 4 {
            lo_byte(self.regs[r.idx() as int])
        } else {
            hi_byte(self.regs[r.idx() - 4])
        }
    }

    pub open spec fn sreg(self, s: SR) -> u16 {
        self.sregs[s.idx() as int]
    }

    pub open spec fn with_reg16(self, r: R16, v: u16) -> State {
        State { regs: self.regs.update(r.idx() as int, v), ..self }
    }

    /// Writes an 8-bit half; the other half of the register is kept.
    pub open spec fn with_reg8(self, r: R8, v: u8) -> State {
        if r.idx() < 4 {
            let i = r.idx() as int;
            State { regs: self.regs.update(i, word(v, hi_byte(self.regs[i]))), ..self }
        } else {
            let i = r.idx() - 4;
            State { regs: self.regs.update(i, word(lo_byte(self.regs[i]), v)), ..self }
        }
    }

    pub open spec fn with_sreg(self, s: SR, v: u16) -> State {
        State { sregs: self.sregs.update(s.idx() as int, v), ..self }
    }

    pub open spec fn with_flags(self, f: Flags) -> State {
        State { flags: f, ..self }
    }

    pub open spec fn with_ip(self, ip: u16) -> State {
        State { ip, ..self }
    }

    pub open spec fn with_mem(self, mem: Seq<u8>) -> State {
        State { mem, ..self }
    }

    /// Offset of an addressing mode, before any displacement.
    pub open spec fn amode_offset(self, am: AMode) -> u16 {
        let bx = self.reg16(R16::BX);
        let bp = self.reg16(R16::BP);
        let si = self.reg16(R16::SI);
        let di = self.reg16(R16::DI);
        match am {
            AMode::BXSI => offset_plus(bx, si as int),
            AMode::BXDI => offset_plus(bx, di as int),
            AMode::BPSI => offset_plus(bp, si as int),
            AMode::BPDI => offset_plus(bp, di as int),
            AMode::SI => si,
            AMode::DI => di,
            AMode::BP => bp,
            AMode::BX => bx,
        }
    }

    /// The segment register and the offset a memory operand refers to.
    pub open spec fn mem_ref(self, p: Parameter) -> (SR, u16) {
        match p {
            Parameter::Ptr8(seg, off) => (seg_or(seg, SR::DS), off),
            Parameter::Ptr16(seg, off) => (seg_or(seg, SR::DS), off),
            Parameter::Ptr8Amode(seg, am) => (seg_or(seg, amode_default(am)), self.amode_offset(
                am,
            )),
            Parameter::Ptr16Amode(seg, am) => (seg_or(seg, amode_default(am)), self.amode_offset(
                am,
            )),
            Parameter::Ptr8AmodeS8(seg, am, d) => (
                seg_or(seg, amode_default(am)),
                offset_plus(self.amode_offset(am), d as int),
            ),
            Parameter::Ptr16AmodeS8(seg, am, d) => (
                seg_or(seg, amode_default(am)),
                offset_plus(self.amode_offset(am), d as int),
            ),
            Parameter::Ptr8AmodeS16(seg, am, d) => (
                seg_or(seg, amode_default(am)),
                offset_plus(self.amode_offset(am), d as int),
            ),
            Parameter::Ptr16AmodeS16(seg, am, d) => (
                seg_or(seg, amode_default(am)),
                offset_plus(self.amode_offset(am), d as int),
            ),
            _ => (SR::DS, 0),
        }
    }

    pub open spec fn read8(self, p: Parameter) -> u8 {
        match p {
            Parameter::Imm8(v) => v,
            Parameter::Reg8(r) => self.reg8(r),
            Parameter::Ptr8(..) | Parameter::Ptr8Amode(..) | Parameter::Ptr8AmodeS8(..)
            | Parameter::Ptr8AmodeS16(..) => {
                let (s, o) = self.mem_ref(p);
                byte_at(self.mem, self.sreg(s), o)
            },
            _ => 0,
        }
    }

    pub open spec fn read16(self, p: Parameter) -> u16 {
        match p {
            Parameter::Imm16(v) => v,
            Parameter::ImmS8(v) => sext8(v),
            Parameter::Reg16(r) => self.reg16(r),
            Parameter::SReg16(s) => self.sreg(s),
            Parameter::Ptr16(..) | Parameter::Ptr16Amode(..) | Parameter::Ptr16AmodeS8(..)
            | Parameter::Ptr16AmodeS16(..) => {
                let (s, o) = self.mem_ref(p);
                word_at(self.mem, self.sreg(s), o)
            },
            _ => 0,
        }
    }

    pub open spec fn write8(self, p: Parameter, v: u8) -> State {
        match p {
            Parameter::Reg8(r) => self.with_reg8(r, v),
            Parameter::Ptr8(..) | Parameter::Ptr8Amode(..) | Parameter::Ptr8AmodeS8(..)
            | Parameter::Ptr8AmodeS16(..) => {
                let (s, o) = self.mem_ref(p);
                self.with_mem(store_byte(self.mem, self.sreg(s), o, v))
            },
            _ => self,
        }
    }

    pub open spec fn write16(self, p: Parameter, v: u16) -> State {
        match p {
            Parameter::Reg16(r) => self.with_reg16(r, v),
            Parameter::SReg16(s) => self.with_sreg(s, v),
            Parameter::Ptr16(..) | Parameter::Ptr16Amode(..) | Parameter::Ptr16AmodeS8(..)
            | Parameter::Ptr16AmodeS16(..) => {
                let (s, o) = self.mem_ref(p);
                self.with_mem(store_word(self.mem, self.sreg(s), o, v))
            },
            _ => self,
        }
    }

    /// PUSH: SP is decremented by two, then the word is stored at SS:SP.
    pub open spec fn push(self, v: u16) -> State {
        let sp = offset_plus(self.reg16(R16::SP), -2);
        let s = self.with_reg16(R16::SP, sp);
        s.with_mem(store_word(s.mem, s.sreg(SR::SS), sp, v))
    }

    /// The word that POP reads.
    pub open spec fn top_of_stack(self) -> u16 {
        word_at(self.mem, self.sreg(SR::SS), self.reg16(R16::SP))
    }

    /// POP: SP is incremented by two after the read.
    pub open spec fn pop(self) -> State {
        self.with_reg16(R16::SP, offset_plus(self.reg16(R16::SP), 2))
    }
}

pub fn offset_add(base: u16, disp: i32) -> (r: u16)
    requires
        -0x10000 <= disp <= 0x10000,
    ensures
        r == offset_plus(base, disp as int),
{
    ((base as i32 + disp + 0x10000) % 0x10000) as u16
}

pub fn sign_extend8(v: i8) -> (r: u16)
    ensures
        r == sext8(v),
{
    if v < 0 {
        (v as i32 + 0x10000) as u16
    } else {
        v as u16
    }
}

pub fn segment_or(seg: Segment, dflt: SR) -> (r: SR)
    ensures
        r == seg_or(seg, dflt),
{
    match seg {
        Segment::Default => dflt,
        Segment::ES => SR::ES,
        Segment::CS => SR::CS,
        Segment::SS => SR::SS,
        Segment::DS => SR::DS,
        Segment::FS => SR::FS,
        Segment::GS => SR::GS,
    }
}

fn default_segment(am: AMode) -> (r: SR)
    ensures
        r == amode_default(am),
{
    match am {
        AMode::BPSI | AMode::BPDI | AMode::BP => SR::SS,
        _ => SR::DS,
    }
}

/// The processor: register file, flags, memory and the stop signal.
pub struct CPU {
    pub ip: u16,
    pub r16: Vec<u16>,
    pub sreg16: Vec<u16>,
    pub flags: Flags,
    pub mmu: MMU,
    pub fatal_error: bool,
    pub instruction_count: u64,
    /// Linear addresses at which a debugger wants to stop.
    pub breakpoints: Vec<usize>,
}

impl View for CPU {
    type V = State;

    open spec fn view(&self) -> State {
        State {
            ip: self.ip,
            regs: self.r16@,
            sregs: self.sreg16@,
            flags: self.flags,
            mem: self.mmu@,
            fatal: self.fatal_error,
        }
    }
}

impl CPU {
    pub open spec fn wf(&self) -> bool {
        self.r16@.len() == 8 && self.sreg16@.len() == 6 && self.mmu.wf()
    }

    /// A processor over the given memory, with every register zero but SP,
    /// which holds 0xFFFE, the last word of the first segment.
    pub fn new(mmu: MMU) -> (r: CPU)
        requires
            mmu.wf(),
        ensures
            r.wf(),
            r@.mem == mmu@,
            r@.ip == 0,
            r@.flags == Flags::new_spec(),
            !r@.fatal,
            forall|i: int| 0 <= i < 8 && i != 4 ==> #[trigger] r@.regs[i] == 0,
            r@.regs[4] == 0xFFFE,
            forall|i: int| 0 <= i < 6 ==> #[trigger] r@.sregs[i] == 0,
            r.breakpoints@.len() == 0,
    {
        let mut r16: Vec<u16> = vec![0u16; 8];
        r16.set(4, 0xFFFE);
        CPU {
            ip: 0,
            r16,
            sreg16: vec![0u16; 6],
            flags: Flags::new(),
            mmu,
            fatal_error: false,
            instruction_count: 0,
            breakpoints: Vec::new(),
        }
    }

    pub fn get_r16(&self, r: R16) -> (v: u16)
        requires
            self.wf(),
        ensures
            v == self@.reg16(r),
    {
        self.r16[r.index() as usize]
    }

    pub fn set_r16(&mut self, r: R16, v: u16)
        requires
            old(self).wf(),
        ensures
            final(self).wf(),
            final(self)@ == old(self)@.with_reg16(r, v),
            final(self).instruction_count == old(self).instruction_count,
    {
        self.r16.set(r.index() as usize, v);
    }

    pub fn get_r8(&self, r: R8) -> (v: u8)
        requires
            self.wf(),
        ensures
            v == self@.reg8(r),
    {
        let i = r.index();
        if i < 4 {
            (self.r16[i as usize] % 256) as u8
        } else {
            (self.r16[(i - 4) as usize] / 256) as u8
        }
    }

    /// Writes an 8-bit half register; the other half is kept.
    pub fn set_r8(&mut self, r: R8, v: u8)
        requires
            old(self).wf(),
        ensures
            final(self).wf(),
            final(self)@ == old(self)@.with_reg8(r, v),
            final(self).instruction_count == old(self).instruction_count,
    {
        let i = r.index();
        if i < 4 {
            let hi = (self.r16[i as usize] / 256) as u8;
            self.r16.set(i as usize, crate::memory::make_word(v, hi));
        } else {
            let lo = (self.r16[(i - 4) as usize] % 256) as u8;
            self.r16.set((i - 4) as usize, crate::memory::make_word(lo, v));
        }
    }

    pub fn get_sr(&self, s: SR) -> (v: u16)
        requires
            self.wf(),
        ensures
            v == self@.sreg(s),
    {
        self.sreg16[s.index() as usize]
    }

    pub fn set_sr(&mut self, s: SR, v: u16)
        requires
            old(self).wf(),
        ensures
            final(self).wf(),
            final(self)@ == old(self)@.with_sreg(s, v),
            final(self).instruction_count == old(self).instruction_count,
    {
        self.sreg16.set(s.index() as usize, v);
    }

    /// Offset of an addressing mode, in 16-bit wrap-around arithmetic.
    pub fn amode16(&self, am: AMode) -> (r: u16)
        requires
            self.wf(),
        ensures
            r == self@.amode_offset(am),
    {
        let bx = self.get_r16(R16::BX);
        let bp = self.get_r16(R16::BP);
        let si = self.get_r16(R16::SI);
        let di = self.get_r16(R16::DI);
        match am {
            AMode::BXSI => offset_add(bx, si as i32),
            AMode::BXDI => offset_add(bx, di as i32),
            AMode::BPSI => offset_add(bp, si as i32),
            AMode::BPDI => offset_add(bp, di as i32),
            AMode::SI => si,
            AMode::DI => di,
            AMode::BP => bp,
            AMode::BX => bx,
        }
    }

    /// Segment register and offset of a memory operand, overrides applied.
    pub fn mem_ref(&self, p: Parameter) -> (r: (SR, u16))
        requires
            self.wf(),
        ensures
            r == self@.mem_ref(p),
    {
        match p {
            Parameter::Ptr8(seg, off) => (segment_or(seg, SR::DS), off),
            Parameter::Ptr16(seg, off) => (segment_or(seg, SR::DS), off),
            Parameter::Ptr8Amode(seg, am) => (
                segment_or(seg, default_segment(am)),
                self.amode16(am),
            ),
            Parameter::Ptr16Amode(seg, am) => (
                segment_or(seg, default_segment(am)),
                self.amode16(am),
            ),
            Parameter::Ptr8AmodeS8(seg, am, d) => (
                segment_or(seg, default_segment(am)),
                offset_add(self.amode16(am), d as i32),
            ),
            Parameter::Ptr16AmodeS8(seg, am, d) => (
                segment_or(seg, default_segment(am)),
                offset_add(self.amode16(am), d as i32),
            ),
            Parameter::Ptr8AmodeS16(seg, am, d) => (
                segment_or(seg, default_segment(am)),
                offset_add(self.amode16(am), d as i32),
            ),
            Parameter::Ptr16AmodeS16(seg, am, d) => (
                segment_or(seg, default_segment(am)),
                offset_add(self.amode16(am), d as i32),
            ),
            _ => (SR::DS, 0),
        }
    }

    /// Reads an 8-bit operand: an immediate, a register half or a byte of memory.
    pub fn read_parameter_u8(&self, p: Parameter) -> (r: u8)
        requires
            self.wf(),
        ensures
            r == self@.read8(p),
    {
        match p {
            Parameter::Imm8(v) => v,
            Parameter::Reg8(r) => self.get_r8(r),
            Parameter::Ptr8(..) | Parameter::Ptr8Amode(..) | Parameter::Ptr8AmodeS8(..)
            | Parameter::Ptr8AmodeS16(..) => {
                let (s, o) = self.mem_ref(p);
                self.mmu.read_u8(self.get_sr(s), o)
            },
            _ => 0,
        }
    }

    /// Reads a 16-bit operand: an immediate, a register or a word of memory.
    pub fn read_parameter_u16(&self, p: Parameter) -> (r: u16)
        requires
            self.wf(),
        ensures
            r == self@.read16(p),
    {
        match p {
            Parameter::Imm16(v) => v,
            Parameter::ImmS8(v) => sign_extend8(v),
            Parameter::Reg16(r) => self.get_r16(r),
            Parameter::SReg16(s) => self.get_sr(s),
            Parameter::Ptr16(..) | Parameter::Ptr16Amode(..) | Parameter::Ptr16AmodeS8(..)
            | Parameter::Ptr16AmodeS16(..) => {
                let (s, o) = self.mem_ref(p);
                self.mmu.read_u16(self.get_sr(s), o)
            },
            _ => 0,
        }
    }

    pub fn write_parameter_u8(&mut self, p: Parameter, v: u8)
        requires
            old(self).wf(),
        ensures
            final(self).wf(),
            final(self)@ == old(self)@.write8(p, v),
            final(self).instruction_count == old(self).instruction_count,
    {
        match p {
            Parameter::Reg8(r) => self.set_r8(r, v),
            Parameter::Ptr8(..) | Parameter::Ptr8Amode(..) | Parameter::Ptr8AmodeS8(..)
            | Parameter::Ptr8AmodeS16(..) => {
                let (s, o) = self.mem_ref(p);
                let seg = self.get_sr(s);
                self.mmu.write_u8(seg, o, v);
            },
            _ => {},
        }
    }

    pub fn write_parameter_u16(&mut self, p: Parameter, v: u16)
        requires
            old(self).wf(),
        ensures
            final(self).wf(),
            final(self)@ == old(self)@.write16(p, v),
            final(self).instruction_count == old(self).instruction_count,
    {
        match p {
            Parameter::Reg16(r) => self.set_r16(r, v),
            Parameter::SReg16(s) => self.set_sr(s, v),
            Parameter::Ptr16(..) | Parameter::Ptr16Amode(..) | Parameter::Ptr16AmodeS8(..)
            | Parameter::Ptr16AmodeS16(..) => {
                let (s, o) = self.mem_ref(p);
                let seg = self.get_sr(s);
                self.mmu.write_u16(seg, o, v);
            },
            _ => {},
        }
    }

    pub fn push16(&mut self, v: u16)
        requires
            old(self).wf(),
        ensures
            final(self).wf(),
            final(self)@ == old(self)@.push(v),
            final(self).instruction_count == old(self).instruction_count,
    {
        let sp = offset_add(self.get_r16(R16::SP), -2);
        self.set_r16(R16::SP, sp);
        let ss = self.get_sr(SR::SS);
        self.mmu.write_u16(ss, sp, v);
    }

    pub fn pop16(&mut self) -> (r: u16)
        requires
            old(self).wf(),
        ensures
            final(self).wf(),
            r == old(self)@.top_of_stack(),
            final(self)@ == old(self)@.pop(),
            final(self).instruction_count == old(self).instruction_count,
    {
        let ss = self.get_sr(SR::SS);
        let sp = self.get_r16(R16::SP);
        let v = self.mmu.read_u16(ss, sp);
        self.set_r16(R16::SP, offset_add(sp, 2));
        v
    }
}

/// Two offsets of one segment are two bytes of memory.
pub proof fn lemma_linear_distinct(seg: u16, a: u16, b: u16)
    requires
        a != b,
    ensures
        crate::memory::linear(seg, a) != crate::memory::linear(seg, b),
{
    let x = seg as int * 16 + a as int;
    let y = seg as int * 16 + b as int;
    assert(x % 0x100000 != y % 0x100000) by {
        if x % 0x100000 == y % 0x100000 {
            vstd::arithmetic::div_mod::lemma_fundamental_div_mod(x, 0x100000);
            vstd::arithmetic::div_mod::lemma_fundamental_div_mod(y, 0x100000);
            assert(x - y == 0x100000 * (x / 0x100000 - y / 0x100000));
            if x / 0x100000 - y / 0x100000 >= 1 {
                assert(0x100000 * (x / 0x100000 - y / 0x100000) >= 0x100000) by (nonlinear_arith)
                    requires
                        x / 0x100000 - y / 0x100000 >= 1,
                ;
            } else if x / 0x100000 - y / 0x100000 <= -1 {
                assert(0x100000 * (x / 0x100000 - y / 0x100000) <= -0x100000) by (nonlinear_arith)
                    requires
                        x / 0x100000 - y / 0x100000 <= -1,
                ;
            }
        }
    }
}

/// Writing an 8-bit half register gives it the new value and leaves the other half
/// of the 16-bit register, and every other register, unchanged.
pub proof fn lemma_sub_register_write(s: State, r: R8, v: u8)
    requires
        s.wf(),
    ensures
        s.with_reg8(r, v).reg8(r) == v,
        s.with_reg8(r, v).wf(),
        r.idx() < 4 ==> s.with_reg8(r, v).reg8(R8::of((r.idx() + 4) as u8)) == s.reg8(
            R8::of((r.idx() + 4) as u8),
        ),
        r.idx() >= 4 ==> s.with_reg8(r, v).reg8(R8::of((r.idx() - 4) as u8)) == s.reg8(
            R8::of((r.idx() - 4) as u8),
        ),
        forall|q: R16| q.idx() != r.idx() % 4 ==> #[trigger] s.with_reg8(r, v).reg16(q) == s.reg16(q),
        s.with_reg8(r, v).sregs == s.sregs && s.with_reg8(r, v).mem == s.mem
            && s.with_reg8(r, v).flags == s.flags && s.with_reg8(r, v).ip == s.ip,
{
}

/// PUSH of `x` then POP reads back `x` and restores SP.
pub proof fn lemma_push_pop(s: State, x: u16)
    requires
        s.wf(),
    ensures
        s.push(x).top_of_stack() == x,
        s.push(x).pop().reg16(R16::SP) == s.reg16(R16::SP),
        s.push(x).pop().wf(),
{
    let sp = offset_plus(s.reg16(R16::SP), -2);
    let ss = s.sreg(SR::SS);
    crate::memory::lemma_linear_bounds(ss, sp);
    crate::memory::lemma_linear_bounds(ss, crate::memory::next_off(sp));
    lemma_linear_distinct(ss, sp, crate::memory::next_off(sp));
    crate::memory::lemma_word_bytes(x);
}

impl CPU {
    pub fn add_breakpoint(&mut self, bp: usize)
        ensures
            final(self).breakpoints@ == old(self).breakpoints@.push(bp),
            final(self)@ == old(self)@,
            final(self).instruction_count == old(self).instruction_count,
    {
        self.breakpoints.push(bp);
    }

    pub fn get_breakpoints(&self) -> (r: Vec<usize>)
        ensures
            r@ == self.breakpoints@,
    {
        let mut out: Vec<usize> = Vec::new();
        let mut i: usize = 0;
        while i < self.breakpoints.len()
            invariant
                i <= self.breakpoints@.len(),
                out@ == self.breakpoints@.subrange(0, i as int),
            decreases self.breakpoints@.len() - i,
        {
            out.push(self.breakpoints[i]);
            i = i + 1;
            assert(out@ =~= self.breakpoints@.subrange(0, i as int));
        }
        assert(self.breakpoints@.subrange(0, i as int) =~= self.breakpoints@);
        out
    }

    pub fn clear_breakpoints(&mut self)
        ensures
            final(self).breakpoints@.len() == 0,
            final(self)@ == old(self)@,
            final(self).instruction_count == old(self).instruction_count,
    {
        self.breakpoints.clear();
    }

    /// Whether a breakpoint is set at the linear address `offset`.
    pub fn is_offset_at_breakpoint(&self, offset: usize) -> (r: bool)
        ensures
            r == self.breakpoints@.contains(offset),
    {
        let mut i: usize = 0;
        while i < self.breakpoints.len()
            invariant
                i <= self.breakpoints@.len(),
                forall|j: int| 0 <= j < i ==> self.breakpoints@[j] != offset,
            decreases self.breakpoints@.len() - i,
        {
            if self.breakpoints[i] == offset {
                return true;
            }
            i = i + 1;
        }
        false
    }

    /// Whether a breakpoint is set at the linear address of CS:IP.
    pub fn is_ip_at_breakpoint(&self) -> (r: bool)
        requires
            self.wf(),
        ensures
            r == self.breakpoints@.contains(
                crate::memory::linear(self@.sreg(SR::CS), self@.ip) as usize,
            ),
    {
        let a = MMU::translate(self.get_sr(SR::CS), self.ip);
        self.is_offset_at_breakpoint(a)
    }
}

impl CPU {
    /// Linear address of CS:IP.
    pub fn get_address(&self) -> (r: usize)
        requires
            self.wf(),
        ensures
            r as int == crate::memory::linear(self@.sreg(SR::CS), self@.ip),
    {
        MMU::translate(self.get_sr(SR::CS), self.ip)
    }

    /// Resets the processor as `new` leaves it, keeping the memory.
    pub fn soft_reset(&mut self)
        requires
            old(self).wf(),
        ensures
            final(self).wf(),
            final(self)@.mem == old(self)@.mem,
            final(self)@.ip == 0,
            final(self)@.flags == Flags::new_spec(),
            !final(self)@.fatal,
            forall|i: int| 0 <= i < 8 && i != 4 ==> #[trigger] final(self)@.regs[i] == 0,
            final(self)@.regs[4] == 0xFFFE,
            forall|i: int| 0 <= i < 6 ==> #[trigger] final(self)@.sregs[i] == 0,
            final(self).instruction_count == 0,
            final(self).breakpoints@.len() == 0,
    {
        let mut i: usize = 0;
        while i < 8
            invariant
                self.wf(),
                i <= 8,
                self.mmu@ == old(self).mmu@,
                forall|j: int| 0 <= j < i ==> #[trigger] self.r16@[j] == (if j == 4 { 0xFFFEu16 } else { 0u16 }),
            decreases 8 - i,
        {
            self.r16.set(i, if i == 4 { 0xFFFE } else { 0 });
            i = i + 1;
        }
        let mut k: usize = 0;
        while k < 6
            invariant
                self.wf(),
                k <= 6,
                self.mmu@ == old(self).mmu@,
                forall|j: int| 0 <= j < 8 ==> #[trigger] self.r16@[j] == (if j == 4 { 0xFFFEu16 } else { 0u16 }),
                forall|j: int| 0 <= j < k ==> #[trigger] self.sreg16@[j] == 0,
            decreases 6 - k,
        {
            self.sreg16.set(k, 0);
            k = k + 1;
        }
        self.ip = 0;
        self.flags = Flags::new();
        self.fatal_error = false;
        self.instruction_count = 0;
        self.breakpoints.clear();
    }

    /// Resets the processor as `new` leaves it, over the given memory.
    pub fn hard_reset(&mut self, mmu: MMU)
        requires
            old(self).wf(),
            mmu.wf(),
        ensures
            final(self).wf(),
            final(self)@.mem == mmu@,
            final(self)@.ip == 0,
            final(self)@.flags == Flags::new_spec(),
            !final(self)@.fatal,
            forall|i: int| 0 <= i < 8 && i != 4 ==> #[trigger] final(self)@.regs[i] == 0,
            final(self)@.regs[4] == 0xFFFE,
            forall|i: int| 0 <= i < 6 ==> #[trigger] final(self)@.sregs[i] == 0,
            final(self).instruction_count == 0,
            final(self).breakpoints@.len() == 0,
    {
        self.mmu = mmu;
        self.soft_reset();
    }
}

} // verus!
