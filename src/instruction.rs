use vstd::prelude::*;

verus! {

/// 8-bit registers in encoding order.
#[derive(Clone, Copy, Debug, PartialEq, Eq, Structural)]
pub enum R8 {
    AL,
    CL,
    DL,
    BL,
    AH,
    CH,
    DH,
    BH,
}

/// 16-bit general registers in encoding order.
#[derive(Clone, Copy, Debug, PartialEq, Eq, Structural)]
pub enum R16 {
    AX,
    CX,
    DX,
    BX,
    SP,
    BP,
    SI,
    DI,
}

/// Segment registers in encoding order.
#[derive(Clone, Copy, Debug, PartialEq, Eq, Structural)]
pub enum SR {
    ES,
    CS,
    SS,
    DS,
    FS,
    GS,
}

/// The base/index forms of a 16-bit effective address, in `rm` order.
#[derive(Clone, Copy, Debug, PartialEq, Eq, Structural)]
pub enum AMode {
    BXSI,
    BXDI,
    BPSI,
    BPDI,
    SI,
    DI,
    BP,
    BX,
}

/// The segment a memory operand names: `Default` where no override prefix was seen.
#[derive(Clone, Copy, Debug, PartialEq, Eq, Structural)]
pub enum Segment {
    Default,
    ES,
    CS,
    SS,
    DS,
    FS,
    GS,
}

#[derive(Clone, Copy, Debug, PartialEq, Eq, Structural)]
pub enum RepeatMode {
    Plain,
    Rep,
    Repe,
    Repne,
}

/// Conditions of the conditional jumps, in encoding order.
#[derive(Clone, Copy, Debug, PartialEq, Eq, Structural)]
pub enum Cond {
    O,
    NO,
    C,
    NC,
    Z,
    NZ,
    NA,
    A,
    S,
    NS,
    PE,
    PO,
    L,
    NL,
    NG,
    G,
}

/// Why a byte sequence is no instruction.
#[derive(Clone, Copy, Debug, PartialEq, Eq, Structural)]
pub enum InvalidOp {
    /// An opcode byte without an entry; `escape` is set on the `0F` page.
    Op { escape: bool, byte: u8 },
    /// A group opcode whose ModR/M `reg` field is reserved.
    Reg { opcode: u8, reg: u8 },
}

/// Opcode tags.
#[derive(Clone, Copy, Debug, PartialEq, Eq, Structural)]
pub enum Op {
    Mov8,
    Mov16,
    Add8,
    Add16,
    Adc8,
    Adc16,
    Sub8,
    Sub16,
    Sbb8,
    Sbb16,
    Cmp8,
    Cmp16,
    And8,
    And16,
    Or8,
    Or16,
    Xor8,
    Xor16,
    Test8,
    Test16,
    Inc8,
    Inc16,
    Dec8,
    Dec16,
    Not8,
    Not16,
    Neg8,
    Neg16,
    Rol8,
    Rol16,
    Ror8,
    Ror16,
    Rcl8,
    Rcl16,
    Rcr8,
    Rcr16,
    Shl8,
    Shl16,
    Shr8,
    Shr16,
    Sar8,
    Sar16,
    Shld,
    Shrd,
    Xchg8,
    Xchg16,
    Lea16,
    Lds,
    Les,
    Xlatb,
    Mul8,
    Mul16,
    Imul8,
    Imul16,
    Div8,
    Div16,
    Idiv8,
    Idiv16,
    Pusha,
    Popa,
    Leave,
    /// IMUL r16, r/m16 (dst times src) and IMUL r16, r/m16, imm (src times src2).
    Imul16r,
    Enter,
    Insb,
    Insw,
    Outsb,
    Outsw,
    Aaa,
    Aas,
    Daa,
    Das,
    Aam,
    Aad,
    Movzx16,
    Movsx16,
    Cbw,
    Cwd,
    Lahf,
    Sahf,
    Push16,
    Pop16,
    Pushf,
    Popf,
    Jcc(Cond),
    Jcxz,
    Loop,
    Loope,
    Loopne,
    JmpShort,
    JmpNear,
    JmpFar,
    CallNear,
    CallFar,
    Retn,
    Retf,
    Int,
    Iret,
    Movsb,
    Movsw,
    Cmpsb,
    Cmpsw,
    Stosb,
    Stosw,
    Lodsb,
    Lodsw,
    Scasb,
    Scasw,
    In8,
    In16,
    Out8,
    Out16,
    Clc,
    Stc,
    Cmc,
    Cld,
    Std,
    Cli,
    Sti,
    Nop,
    Hlt,
    /// A recognised opcode that this executor does not carry out.
    Unimplemented { escape: bool, byte: u8 },
    Invalid(InvalidOp),
}

/// A tagged operand.
#[derive(Clone, Copy, Debug, PartialEq, Eq, Structural)]
pub enum Parameter {
    Empty,
    Imm8(u8),
    Imm16(u16),
    ImmS8(i8),
    /// Far pointer `segment:offset`.
    Ptr16Imm(u16, u16),
    Reg8(R8),
    Reg16(R16),
    SReg16(SR),
    Ptr8(Segment, u16),
    Ptr16(Segment, u16),
    Ptr8Amode(Segment, AMode),
    Ptr8AmodeS8(Segment, AMode, i8),
    Ptr8AmodeS16(Segment, AMode, i16),
    Ptr16Amode(Segment, AMode),
    Ptr16AmodeS8(Segment, AMode, i8),
    Ptr16AmodeS16(Segment, AMode, i16),
}

#[derive(Clone, Copy, Debug, PartialEq, Eq, Structural)]
pub struct ParameterSet {
    pub dst: Parameter,
    pub src: Parameter,
    pub src2: Parameter,
}

/// A decoded instruction.
#[derive(Clone, Copy, Debug, PartialEq, Eq, Structural)]
pub struct Instruction {
    pub command: Op,
    pub params: ParameterSet,
    pub segment_prefix: Segment,
    pub lock: bool,
    pub repeat: RepeatMode,
}

/// A decoded instruction with the number of bytes it was encoded in.
#[derive(Clone, Copy, Debug, PartialEq, Eq, Structural)]
pub struct InstructionInfo {
    pub instruction: Instruction,
    pub length: usize,
}

/// The three fields of a ModR/M byte.
#[derive(Clone, Copy, Debug, PartialEq, Eq, Structural)]
pub struct ModRegRm {
    pub md: u8,
    pub reg: u8,
    pub rm: u8,
}

impl ModRegRm {
    pub open spec fn from_spec(b: u8) -> ModRegRm {
        ModRegRm { md: b / 64, reg: (b / 8) % 8, rm: b % 8 }
    }

    pub open spec fn value(self) -> u8 {
        (self.md as int * 64 + self.reg as int * 8 + self.rm as int) as u8
    }

    pub fn from_u8(b: u8) -> (r: ModRegRm)
        ensures
            r == ModRegRm::from_spec(b),
            r.md < 4 && r.reg < 8 && r.rm < 8,
    {
        ModRegRm { md: b / 64, reg: (b / 8) % 8, rm: b % 8 }
    }

    /// The packed byte `md:2 | reg:3 | rm:3`.
    pub fn u8(&self) -> (r: u8)
        requires
            self.md < 4 && self.reg < 8 && self.rm < 8,
        ensures
            r == self.value(),
            ModRegRm::from_spec(r) == *self,
    {
        self.md * 64 + self.reg * 8 + self.rm
    }
}

impl R8 {
    pub open spec fn idx(self) -> nat {
        match self {
            R8::AL => 0,
            R8::CL => 1,
            R8::DL => 2,
            R8::BL => 3,
            R8::AH => 4,
            R8::CH => 5,
            R8::DH => 6,
            R8::BH => 7,
        }
    }

    pub open spec fn of(i: u8) -> R8 {
        if i % 8 == 0 {
            R8::AL
        } else if i % 8 == 1 {
            R8::CL
        } else if i % 8 == 2 {
            R8::DL
        } else if i % 8 == 3 {
            R8::BL
        } else if i % 8 == 4 {
            R8::AH
        } else if i % 8 == 5 {
            R8::CH
        } else if i % 8 == 6 {
            R8::DH
        } else {
            R8::BH
        }
    }

    pub fn index(&self) -> (r: u8)
        ensures
            r as nat == self.idx(),
            r < 8,
            R8::of(r) == *self,
    {
        match self {
            R8::AL => 0,
            R8::CL => 1,
            R8::DL => 2,
            R8::BL => 3,
            R8::AH => 4,
            R8::CH => 5,
            R8::DH => 6,
            R8::BH => 7,
        }
    }

    /// The register that encoding `i % 8` names.
    pub fn from_index(i: u8) -> (r: R8)
        ensures
            r == R8::of(i),
            r.idx() == (i % 8) as nat,
    {
        let j = i % 8;
        if j == 0 {
            R8::AL
        } else if j == 1 {
            R8::CL
        } else if j == 2 {
            R8::DL
        } else if j == 3 {
            R8::BL
        } else if j == 4 {
            R8::AH
        } else if j == 5 {
            R8::CH
        } else if j == 6 {
            R8::DH
        } else {
            R8::BH
        }
    }
}

impl R16 {
    pub open spec fn idx(self) -> nat {
        match self {
            R16::AX => 0,
            R16::CX => 1,
            R16::DX => 2,
            R16::BX => 3,
            R16::SP => 4,
            R16::BP => 5,
            R16::SI => 6,
            R16::DI => 7,
        }
    }

    pub open spec fn of(i: u8) -> R16 {
        if i % 8 == 0 {
            R16::AX
        } else if i % 8 == 1 {
            R16::CX
        } else if i % 8 == 2 {
            R16::DX
        } else if i % 8 == 3 {
            R16::BX
        } else if i % 8 == 4 {
            R16::SP
        } else if i % 8 == 5 {
            R16::BP
        } else if i % 8 == 6 {
            R16::SI
        } else {
            R16::DI
        }
    }

    pub fn index(&self) -> (r: u8)
        ensures
            r as nat == self.idx(),
            r < 8,
            R16::of(r) == *self,
    {
        match self {
            R16::AX => 0,
            R16::CX => 1,
            R16::DX => 2,
            R16::BX => 3,
            R16::SP => 4,
            R16::BP => 5,
            R16::SI => 6,
            R16::DI => 7,
        }
    }

    /// The register that encoding `i % 8` names.
    pub fn from_index(i: u8) -> (r: R16)
        ensures
            r == R16::of(i),
            r.idx() == (i % 8) as nat,
    {
        let j = i % 8;
        if j == 0 {
            R16::AX
        } else if j == 1 {
            R16::CX
        } else if j == 2 {
            R16::DX
        } else if j == 3 {
            R16::BX
        } else if j == 4 {
            R16::SP
        } else if j == 5 {
            R16::BP
        } else if j == 6 {
            R16::SI
        } else {
            R16::DI
        }
    }
}

impl SR {
    pub open spec fn idx(self) -> nat {
        match self {
            SR::ES => 0,
            SR::CS => 1,
            SR::SS => 2,
            SR::DS => 3,
            SR::FS => 4,
            SR::GS => 5,
        }
    }

    /// The segment register that encoding `i` names, where `i < 6`.
    pub open spec fn of(i: u8) -> SR {
        if i == 0 {
            SR::ES
        } else if i == 1 {
            SR::CS
        } else if i == 2 {
            SR::SS
        } else if i == 3 {
            SR::DS
        } else if i == 4 {
            SR::FS
        } else {
            SR::GS
        }
    }

    pub fn index(&self) -> (r: u8)
        ensures
            r as nat == self.idx(),
            r < 6,
            SR::of(r) == *self,
    {
        match self {
            SR::ES => 0,
            SR::CS => 1,
            SR::SS => 2,
            SR::DS => 3,
            SR::FS => 4,
            SR::GS => 5,
        }
    }

    pub fn from_index(i: u8) -> (r: SR)
        requires
            i < 6,
        ensures
            r == SR::of(i),
            r.idx() == i as nat,
    {
        if i == 0 {
            SR::ES
        } else if i == 1 {
            SR::CS
        } else if i == 2 {
            SR::SS
        } else if i == 3 {
            SR::DS
        } else if i == 4 {
            SR::FS
        } else {
            SR::GS
        }
    }
}

impl AMode {
    pub open spec fn idx(self) -> nat {
        match self {
            AMode::BXSI => 0,
            AMode::BXDI => 1,
            AMode::BPSI => 2,
            AMode::BPDI => 3,
            AMode::SI => 4,
            AMode::DI => 5,
            AMode::BP => 6,
            AMode::BX => 7,
        }
    }

    pub open spec fn of(i: u8) -> AMode {
        if i % 8 == 0 {
            AMode::BXSI
        } else if i % 8 == 1 {
            AMode::BXDI
        } else if i % 8 == 2 {
            AMode::BPSI
        } else if i % 8 == 3 {
            AMode::BPDI
        } else if i % 8 == 4 {
            AMode::SI
        } else if i % 8 == 5 {
            AMode::DI
        } else if i % 8 == 6 {
            AMode::BP
        } else {
            AMode::BX
        }
    }

    /// Addressing through BP defaults to the stack segment.
    pub open spec fn uses_bp(self) -> bool {
        self == AMode::BPSI || self == AMode::BPDI || self == AMode::BP
    }

    pub fn index(&self) -> (r: u8)
        ensures
            r as nat == self.idx(),
            r < 8,
            AMode::of(r) == *self,
    {
        match self {
            AMode::BXSI => 0,
            AMode::BXDI => 1,
            AMode::BPSI => 2,
            AMode::BPDI => 3,
            AMode::SI => 4,
            AMode::DI => 5,
            AMode::BP => 6,
            AMode::BX => 7,
        }
    }

    pub fn from_index(i: u8) -> (r: AMode)
        ensures
            r == AMode::of(i),
            r.idx() == (i % 8) as nat,
    {
        let j = i % 8;
        if j == 0 {
            AMode::BXSI
        } else if j == 1 {
            AMode::BXDI
        } else if j == 2 {
            AMode::BPSI
        } else if j == 3 {
            AMode::BPDI
        } else if j == 4 {
            AMode::SI
        } else if j == 5 {
            AMode::DI
        } else if j == 6 {
            AMode::BP
        } else {
            AMode::BX
        }
    }
}

impl ParameterSet {
    pub open spec fn of(dst: Parameter, src: Parameter) -> ParameterSet {
        ParameterSet { dst, src, src2: Parameter::Empty }
    }
}

impl Instruction {
    /// An instruction of the given operands, without prefixes.
    pub open spec fn plain(command: Op, dst: Parameter, src: Parameter) -> Instruction {
        Instruction {
            command,
            params: ParameterSet::of(dst, src),
            segment_prefix: Segment::Default,
            lock: false,
            repeat: RepeatMode::Plain,
        }
    }

    pub fn new(command: Op) -> (r: Instruction)
        ensures
            r == Instruction::plain(command, Parameter::Empty, Parameter::Empty),
    {
        Instruction::new2(command, Parameter::Empty, Parameter::Empty)
    }

    pub fn new1(command: Op, dst: Parameter) -> (r: Instruction)
        ensures
            r == Instruction::plain(command, dst, Parameter::Empty),
    {
        Instruction::new2(command, dst, Parameter::Empty)
    }

    pub fn new2(command: Op, dst: Parameter, src: Parameter) -> (r: Instruction)
        ensures
            r == Instruction::plain(command, dst, src),
    {
        Instruction {
            command,
            params: ParameterSet { dst, src, src2: Parameter::Empty },
            segment_prefix: Segment::Default,
            lock: false,
            repeat: RepeatMode::Plain,
        }
    }
}

} // verus!
