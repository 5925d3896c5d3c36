use vstd::prelude::*;

use crate::cpu::{State, CPU};
use crate::decoder::{decode, decode_spec};
use crate::execute::Action;
use crate::instruction::{InstructionInfo, R16, SR};
use crate::memory::{byte_at, bytes_from, MEM_SIZE};

verus! {

/// Bytes fetched for decoding: an instruction with its prefixes fits in them.
pub const FETCH_LEN: usize = 16;

/// Clock of the modelled processor: an 8086 at 5 MHz.
pub const CLOCK_HZ: u64 = 5_000_000;

/// Cycles in one video frame at 60 frames per second.
pub const FRAME_CYCLES: u64 = 5_000_000 / 60;

/// PSP segment of a loaded .COM program.
pub const COM_SEGMENT: u16 = 0x085F;

/// Linear address of a loaded .COM image: 085F:0100.
pub const COM_IMAGE: usize = 0x86F0;

/// `new` is `old` with a .COM image loaded: CS = DS = ES = SS = 085F, IP = 0100,
/// SP = FFFE, BP = 091C, CX = 00FF, DX = 085F, SI = 0100, DI = FFFE; the image at
/// 085F:0100; AX, BX, FS, GS, the flags, the stop signal and the rest of memory kept.
pub open spec fn com_loaded(old: State, new: State, data: Seq<u8>) -> bool {
    &&& new.ip == 0x100
    &&& new.sreg(SR::CS) == COM_SEGMENT
    &&& new.sreg(SR::DS) == COM_SEGMENT
    &&& new.sreg(SR::ES) == COM_SEGMENT
    &&& new.sreg(SR::SS) == COM_SEGMENT
    &&& new.sreg(SR::FS) == old.sreg(SR::FS)
    &&& new.sreg(SR::GS) == old.sreg(SR::GS)
    &&& new.reg16(R16::SP) == 0xFFFE
    &&& new.reg16(R16::BP) == 0x091C
    &&& new.reg16(R16::CX) == 0x00FF
    &&& new.reg16(R16::DX) == COM_SEGMENT
    &&& new.reg16(R16::SI) == 0x0100
    &&& new.reg16(R16::DI) == 0xFFFE
    &&& new.reg16(R16::AX) == old.reg16(R16::AX)
    &&& new.reg16(R16::BX) == old.reg16(R16::BX)
    &&& new.flags == old.flags
    &&& new.fatal == old.fatal
    &&& forall|i: int|
        0 <= i < data.len() ==> #[trigger] byte_at(new.mem, COM_SEGMENT, (0x100 + i) as u16)
            == data[i]
    &&& forall|a: int|
        0 <= a < MEM_SIZE && !(COM_IMAGE <= a < COM_IMAGE + data.len()) ==> #[trigger] new.mem[a]
            == old.mem[a]
}

impl State {
    /// The instruction at CS:IP.
    pub open spec fn fetch(self) -> InstructionInfo {
        decode_spec(bytes_from(self.mem, self.sreg(SR::CS), self.ip, FETCH_LEN as nat))
    }

    /// Fetch, decode and execute the instruction at CS:IP.
    pub open spec fn next(self) -> (State, Action) {
        self.step(self.fetch().instruction, self.fetch().length as u16)
    }

    /// Up to `n` instructions, stopping after the first one that needs the host.
    pub open spec fn run(self, n: nat) -> (State, Action)
        decreases n,
    {
        if n == 0 {
            (self, Action::Continue)
        } else {
            let (s, a) = self.next();
            if a != Action::Continue {
                (s, a)
            } else {
                s.run((n - 1) as nat)
            }
        }
    }
}

impl CPU {
    /// Decodes the instruction at CS:IP.
    pub fn decode_instruction(&self) -> (r: InstructionInfo)
        requires
            self.wf(),
        ensures
            r == self@.fetch(),
    {
        let cs = self.get_sr(SR::CS);
        let bytes = self.mmu.read_u8_slice(cs, self.ip, FETCH_LEN);
        decode(bytes.as_slice())
    }

    /// Fetches, decodes and executes one instruction; returns what the host has to do.
    pub fn execute_instruction(&mut self) -> (r: Action)
        requires
            old(self).wf(),
        ensures
            final(self).wf(),
            (final(self)@, r) == old(self)@.next(),
            final(self).instruction_count == (if old(self).instruction_count < u64::MAX {
                old(self).instruction_count + 1
            } else {
                old(self).instruction_count as int
            }),
    {
        let info = self.decode_instruction();
        let r = self.execute(&info.instruction, info.length as u16);
        if self.instruction_count < u64::MAX {
            self.instruction_count = self.instruction_count + 1;
        }
        r
    }

    /// Runs a burst of up to `max` cycles, returning early with the first action that
    /// needs the host (I/O, a trapped interrupt, HLT, termination or an invalid
    /// instruction). Each instruction takes one cycle in this model, so the cycle counter
    /// is `instruction_count`; a video frame is `FRAME_CYCLES` cycles.
    pub fn execute_frame(&mut self, max: u64) -> (r: Action)
        requires
            old(self).wf(),
        ensures
            final(self).wf(),
            (final(self)@, r) == old(self)@.run(max as nat),
    {
        let ghost target = self@.run(max as nat);
        let mut i: u64 = 0;
        while i < max
            invariant
                self.wf(),
                i <= max,
                self@.run((max - i) as nat) == target,
                target == old(self)@.run(max as nat),
            decreases max - i,
        {
            let ghost prev = self@;
            let ghost n = (max - i) as nat;
            let a = self.execute_instruction();
            assert(prev.run(n) == (if a != Action::Continue {
                (self@, a)
            } else {
                self@.run((n - 1) as nat)
            }));
            i = i + 1;
            if a != Action::Continue {
                return a;
            }
        }
        Action::Continue
    }

    /// Loads a .COM image at 085F:0100 and sets the registers as DOS does for it.
    pub fn load_com(&mut self, data: &[u8])
        requires
            old(self).wf(),
            data@.len() <= 0xFF00,
        ensures
            final(self).wf(),
            com_loaded(old(self)@, final(self)@, data@),
            final(self).instruction_count == old(self).instruction_count,
    {
        self.set_sr(SR::CS, COM_SEGMENT);
        self.set_sr(SR::DS, COM_SEGMENT);
        self.set_sr(SR::ES, COM_SEGMENT);
        self.set_sr(SR::SS, COM_SEGMENT);
        self.set_r16(R16::SP, 0xFFFE);
        self.set_r16(R16::BP, 0x091C);
        self.set_r16(R16::CX, 0x00FF);
        self.set_r16(R16::DX, COM_SEGMENT);
        self.set_r16(R16::SI, 0x0100);
        self.set_r16(R16::DI, 0xFFFE);
        self.ip = 0x100;
        let ghost regs = self@.regs;
        let ghost sregs = self@.sregs;
        let mut i: usize = 0;
        while i < data.len()
            invariant
                self.wf(),
                data@.len() <= 0xFF00,
                i <= data@.len(),
                self@.regs == regs,
                self@.sregs == sregs,
                self@.ip == 0x100,
                self@.flags == old(self)@.flags,
                self@.fatal == old(self)@.fatal,
                self.instruction_count == old(self).instruction_count,
                forall|j: int|
                    0 <= j < i ==> #[trigger] byte_at(self@.mem, COM_SEGMENT, (0x100 + j) as u16)
                        == data@[j],
                forall|a: int|
                    0 <= a < MEM_SIZE && !(COM_IMAGE <= a < COM_IMAGE + i) ==> #[trigger] self@.mem[a]
                        == old(self)@.mem[a],
            decreases data@.len() - i,
        {
            let ghost before = self@.mem;
            assert(crate::memory::linear(COM_SEGMENT, (0x100 + i) as u16) == COM_IMAGE + i);
            self.mmu.write_u8(COM_SEGMENT, (0x100 + i) as u16, data[i]);
            assert forall|j: int| 0 <= j < i + 1 implies #[trigger] byte_at(
                self@.mem,
                COM_SEGMENT,
                (0x100 + j) as u16,
            ) == data@[j] by {
                assert(crate::memory::linear(COM_SEGMENT, (0x100 + j) as u16) == COM_IMAGE + j);
                if j < i {
                    assert(byte_at(before, COM_SEGMENT, (0x100 + j) as u16) == data@[j]);
                }
            }
            i = i + 1;
        }
    }
}

/// After a move, arithmetic, logic, shift or conversion instruction, IP has advanced
/// by exactly the length the decoder reported for it.
pub proof fn lemma_ip_advances_by_length(s: State)
    requires
        crate::execute::is_data_op_spec(s.fetch().instruction.command),
    ensures
        s.next().0.ip == crate::cpu::offset_plus(s.ip, s.fetch().length as u16 as int),
{
    lemma_step_advances_ip(s, s.fetch().instruction, s.fetch().length as u16);
}

/// The same for any such instruction and any length.
#[verifier::spinoff_prover]
#[verifier::rlimit(80)]
pub proof fn lemma_step_advances_ip(s: State, ins: crate::instruction::Instruction, len: u16)
    requires
        crate::execute::is_data_op_spec(ins.command),
    ensures
        s.step(ins, len).0.ip == crate::cpu::offset_plus(s.ip, len as int),
{
    let s1 = s.with_ip(crate::cpu::offset_plus(s.ip, len as int));
    assert(s.step(ins, len) == s1.exec(ins));
    assert(s1.exec(ins) == s1.exec_data(ins));
}

} // verus!
