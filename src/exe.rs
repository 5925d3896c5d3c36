use vstd::prelude::*;

use crate::cpu::{State, CPU};
use crate::instruction::{R16, SR};
use crate::machine::{com_loaded, COM_SEGMENT};
use crate::memory::{store_word, word, word_at, MEM_SIZE};

verus! {

/// Segment an EXE image is loaded at: right after the 256-byte PSP at 085F:0000.
pub const IMAGE_SEGMENT: u16 = 0x086F;

/// Size of the fixed part of an MZ header.
pub const HEADER_LEN: usize = 28;

/// The fixed part of an MZ executable's header.
#[derive(Clone, Copy, Debug, PartialEq, Eq, Structural)]
pub struct ExeHeader {
    pub signature: u16,
    pub bytes_in_last_block: u16,
    pub blocks_in_file: u16,
    pub num_relocs: u16,
    pub header_paragraphs: u16,
    pub min_extra_paragraphs: u16,
    pub max_extra_paragraphs: u16,
    pub ss: u16,
    pub sp: u16,
    pub checksum: u16,
    pub ip: u16,
    pub cs: u16,
    pub reloc_table_offset: u16,
    pub overlay_number: u16,
}

#[derive(Clone, Copy, Debug, PartialEq, Eq, Structural)]
pub enum ExeError {
    /// Fewer bytes than the fixed header.
    TooShort,
    /// The first two bytes are not `MZ`.
    NotMz,
    /// The code the header describes does not lie within the file.
    BadCodeRange,
    /// The relocation table does not lie within the file.
    BadRelocTable,
    /// The program does not fit in memory where it is loaded.
    TooLarge,
}

/// Little-endian word at byte `i`.
pub open spec fn le16_at(d: Seq<u8>, i: int) -> u16 {
    word(d[i], d[i + 1])
}

/// `"MZ"` read as a little-endian word.
pub const MZ_SIGNATURE: u16 = 0x5A4D;

pub open spec fn header_spec(d: Seq<u8>) -> ExeHeader {
    ExeHeader {
        signature: le16_at(d, 0),
        bytes_in_last_block: le16_at(d, 2),
        blocks_in_file: le16_at(d, 4),
        num_relocs: le16_at(d, 6),
        header_paragraphs: le16_at(d, 8),
        min_extra_paragraphs: le16_at(d, 10),
        max_extra_paragraphs: le16_at(d, 12),
        ss: le16_at(d, 14),
        sp: le16_at(d, 16),
        checksum: le16_at(d, 18),
        ip: le16_at(d, 20),
        cs: le16_at(d, 22),
        reloc_table_offset: le16_at(d, 24),
        overlay_number: le16_at(d, 26),
    }
}

/// Offset in the file where the code starts.
pub open spec fn code_start(h: ExeHeader) -> int {
    h.header_paragraphs as int * 16
}

/// Offset in the file where the code ends: whole 512-byte blocks, the last one only
/// partly used when `bytes_in_last_block` is not zero.
pub open spec fn code_end(h: ExeHeader) -> int {
    h.blocks_in_file as int * 512 - (if h.bytes_in_last_block > 0 {
        512 - h.bytes_in_last_block as int
    } else {
        0
    })
}

pub open spec fn relocated_seg(seg: u16) -> u16 {
    ((seg as int + IMAGE_SEGMENT as int) % 0x10000) as u16
}

/// Memory with `code` placed at linear address `base`.
pub open spec fn placed(mem: Seq<u8>, base: int, code: Seq<u8>) -> Seq<u8> {
    Seq::new(mem.len(), |a: int| if base <= a < base + code.len() { code[a - base] } else { mem[a] })
}

/// Relocation `j` of the table at `t`: the word at `(segment + image):offset` gets the
/// image segment added.
pub open spec fn fixup(mem: Seq<u8>, d: Seq<u8>, t: int, j: int) -> Seq<u8> {
    let off = le16_at(d, t + 4 * j);
    let seg = relocated_seg(le16_at(d, t + 4 * j + 2));
    store_word(mem, seg, off, relocated_seg(word_at(mem, seg, off)))
}

/// The first `k` relocations applied in order.
pub open spec fn relocate(mem: Seq<u8>, d: Seq<u8>, t: int, k: nat) -> Seq<u8>
    decreases k,
{
    if k == 0 {
        mem
    } else {
        fixup(relocate(mem, d, t, (k - 1) as nat), d, t, k - 1)
    }
}

/// Whether an MZ file can be loaded, and why not.
pub open spec fn exe_check(d: Seq<u8>) -> Result<ExeHeader, ExeError> {
    if d.len() < HEADER_LEN {
        Err(ExeError::TooShort)
    } else {
        let h = header_spec(d);
        if h.signature != MZ_SIGNATURE {
            Err(ExeError::NotMz)
        } else if !(code_start(h) <= code_end(h) <= d.len()) {
            Err(ExeError::BadCodeRange)
        } else if h.reloc_table_offset as int + 4 * h.num_relocs as int > d.len() {
            Err(ExeError::BadRelocTable)
        } else if IMAGE_SEGMENT as int * 16 + (code_end(h) - code_start(h)) > MEM_SIZE {
            Err(ExeError::TooLarge)
        } else {
            Ok(h)
        }
    }
}

fn le16(d: &[u8], i: usize) -> (r: u16)
    requires
        i + 1 < d@.len(),
    ensures
        r == le16_at(d@, i as int),
{
    crate::memory::make_word(d[i], d[i + 1])
}

/// Reads the fixed MZ header.
pub fn parse_exe_header(data: &[u8]) -> (r: Result<ExeHeader, ExeError>)
    ensures
        data@.len() < HEADER_LEN ==> r == Err::<ExeHeader, ExeError>(ExeError::TooShort),
        data@.len() >= HEADER_LEN && le16_at(data@, 0) != MZ_SIGNATURE ==> r == Err::<
            ExeHeader,
            ExeError,
        >(ExeError::NotMz),
        data@.len() >= HEADER_LEN && le16_at(data@, 0) == MZ_SIGNATURE ==> r == Ok::<
            ExeHeader,
            ExeError,
        >(header_spec(data@)),
{
    if data.len() < HEADER_LEN {
        return Err(ExeError::TooShort);
    }
    let h = ExeHeader {
        signature: le16(data, 0),
        bytes_in_last_block: le16(data, 2),
        blocks_in_file: le16(data, 4),
        num_relocs: le16(data, 6),
        header_paragraphs: le16(data, 8),
        min_extra_paragraphs: le16(data, 10),
        max_extra_paragraphs: le16(data, 12),
        ss: le16(data, 14),
        sp: le16(data, 16),
        checksum: le16(data, 18),
        ip: le16(data, 20),
        cs: le16(data, 22),
        reloc_table_offset: le16(data, 24),
        overlay_number: le16(data, 26),
    };
    if h.signature != MZ_SIGNATURE {
        return Err(ExeError::NotMz);
    }
    Ok(h)
}

fn add_image(seg: u16) -> (r: u16)
    ensures
        r == relocated_seg(seg),
{
    ((seg as u32 + IMAGE_SEGMENT as u32) % 0x10000) as u16
}

/// `new` is `old` with the MZ program `d` of header `h` loaded: the code placed at
/// IMAGE_SEGMENT:0000 and relocated, CS:IP and SS:SP from the header (segments
/// relocated), DS and ES at the PSP, the other registers as for a .COM program, the
/// flags kept.
pub open spec fn exe_loaded(old: State, new: State, d: Seq<u8>, h: ExeHeader) -> bool {
    &&& new.mem == relocate(
        placed(old.mem, IMAGE_SEGMENT as int * 16, d.subrange(code_start(h), code_end(h))),
        d,
        h.reloc_table_offset as int,
        h.num_relocs as nat,
    )
    &&& new.ip == h.ip
    &&& new.sreg(SR::CS) == relocated_seg(h.cs)
    &&& new.sreg(SR::SS) == relocated_seg(h.ss)
    &&& new.reg16(R16::SP) == h.sp
    &&& new.sreg(SR::DS) == COM_SEGMENT
    &&& new.sreg(SR::ES) == COM_SEGMENT
    &&& new.reg16(R16::BP) == 0x091C
    &&& new.reg16(R16::CX) == 0x00FF
    &&& new.reg16(R16::DX) == COM_SEGMENT
    &&& new.reg16(R16::SI) == 0x0100
    &&& new.reg16(R16::DI) == 0xFFFE
    &&& new.flags == old.flags
}

impl CPU {
    /// Loads an MZ executable: the code goes to IMAGE_SEGMENT:0000, every relocation
    /// gets the image segment added, CS:IP and SS:SP come from the header (segments
    /// relocated), DS and ES point at the PSP; the other registers are set as for a
    /// .COM program.
    pub fn load_exe(&mut self, data: &[u8]) -> (r: Result<(), ExeError>)
        requires
            old(self).wf(),
        ensures
            final(self).wf(),
            match exe_check(data@) {
                Err(e) => r == Err::<(), ExeError>(e) && final(self)@ == old(self)@,
                Ok(h) => r is Ok && exe_loaded(old(self)@, final(self)@, data@, h),
            },
    {
        let h = match parse_exe_header(data) {
            Ok(h) => h,
            Err(e) => {
                return Err(e);
            },
        };
        let start: usize = h.header_paragraphs as usize * 16;
        let mut end: usize = h.blocks_in_file as usize * 512;
        if h.bytes_in_last_block > 0 {
            let total: usize = end + h.bytes_in_last_block as usize;
            if total < 512 {
                return Err(ExeError::BadCodeRange);
            }
            end = total - 512;
        }
        if !(start <= end && end <= data.len()) {
            return Err(ExeError::BadCodeRange);
        }
        let table: usize = h.reloc_table_offset as usize;
        let count: usize = h.num_relocs as usize;
        if table + 4 * count > data.len() {
            return Err(ExeError::BadRelocTable);
        }
        let base: usize = IMAGE_SEGMENT as usize * 16;
        if base + (end - start) > MEM_SIZE {
            return Err(ExeError::TooLarge);
        }
        let ghost mem0 = self.mmu@;
        let mut i: usize = 0;
        while i < end - start
            invariant
                self.wf(),
                start <= end <= data@.len(),
                base + (end - start) <= MEM_SIZE,
                base == IMAGE_SEGMENT as usize * 16,
                i <= end - start,
                self.mmu@ =~= placed(mem0, base as int, data@.subrange(start as int, start + i)),
                self.r16@ == old(self).r16@,
                self.sreg16@ == old(self).sreg16@,
                self.ip == old(self).ip,
                self.flags == old(self).flags,
            decreases end - start - i,
        {
            self.mmu.memory.set(base + i, data[start + i]);
            i = i + 1;
            assert(self.mmu@ =~= placed(mem0, base as int, data@.subrange(start as int, start + i)));
        }
        let ghost mem1 = self.mmu@;
        let mut k: usize = 0;
        while k < count
            invariant
                self.wf(),
                table + 4 * count <= data@.len(),
                count <= 0xFFFF,
                table <= 0xFFFF,
                k <= count,
                self.mmu@ == relocate(mem1, data@, table as int, k as nat),
                self.r16@ == old(self).r16@,
                self.sreg16@ == old(self).sreg16@,
                self.ip == old(self).ip,
                self.flags == old(self).flags,
            decreases count - k,
        {
            let off = le16(data, table + 4 * k);
            let seg = add_image(le16(data, table + 4 * k + 2));
            let v = self.mmu.read_u16(seg, off);
            self.mmu.write_u16(seg, off, add_image(v));
            k = k + 1;
        }
        self.set_sr(SR::CS, add_image(h.cs));
        self.set_sr(SR::SS, add_image(h.ss));
        self.set_sr(SR::DS, COM_SEGMENT);
        self.set_sr(SR::ES, COM_SEGMENT);
        self.set_r16(R16::SP, h.sp);
        self.set_r16(R16::BP, 0x091C);
        self.set_r16(R16::CX, 0x00FF);
        self.set_r16(R16::DX, COM_SEGMENT);
        self.set_r16(R16::SI, 0x0100);
        self.set_r16(R16::DI, 0xFFFE);
        self.ip = h.ip;
        Ok(())
    }

    /// Loads an MZ executable when the data starts with `MZ`, a .COM image otherwise.
    pub fn load_executable(&mut self, data: &[u8]) -> (r: Result<(), ExeError>)
        requires
            old(self).wf(),
        ensures
            final(self).wf(),
            data@.len() >= 2 && data@[0] == 0x4D && data@[1] == 0x5A ==> match exe_check(data@) {
                Err(e) => r == Err::<(), ExeError>(e) && final(self)@ == old(self)@,
                Ok(h) => r is Ok && exe_loaded(old(self)@, final(self)@, data@, h),
            },
            !(data@.len() >= 2 && data@[0] == 0x4D && data@[1] == 0x5A) && data@.len() <= 0xFF00
                ==> r is Ok && com_loaded(old(self)@, final(self)@, data@),
            !(data@.len() >= 2 && data@[0] == 0x4D && data@[1] == 0x5A) && data@.len() > 0xFF00
                ==> r == Err::<(), ExeError>(ExeError::TooLarge) && final(self)@ == old(self)@,
    {
        if data.len() >= 2 && data[0] == 0x4D && data[1] == 0x5A {
            self.load_exe(data)
        } else if data.len() <= 0xFF00 {
            self.load_com(data);
            Ok(())
        } else {
            Err(ExeError::TooLarge)
        }
    }
}

} // verus!
