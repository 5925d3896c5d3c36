use vstd::prelude::*;

verus! {

/// Size of the real-mode address space: 1 MiB.
pub const MEM_SIZE: usize = 0x100000;

/// Linear address of `seg:off`: `seg * 16 + off`, truncated to 20 bits.
pub open spec fn linear(seg: u16, off: u16) -> int {
    (seg as int * 16 + off as int) % 0x100000
}

/// The offset that follows `off` within a 64 KiB segment.
pub open spec fn next_off(off: u16) -> u16 {
    if off == 0xFFFF {
        0
    } else {
        (off + 1) as u16
    }
}

/// Little-endian word made of a low and a high byte.
pub open spec fn word(lo: u8, hi: u8) -> u16 {
    (lo as int + 256 * hi as int) as u16
}

pub open spec fn lo_byte(w: u16) -> u8 {
    (w % 256) as u8
}

pub open spec fn hi_byte(w: u16) -> u8 {
    (w / 256) as u8
}

/// Byte at `seg:off` of a memory image.
pub open spec fn byte_at(mem: Seq<u8>, seg: u16, off: u16) -> u8 {
    mem[linear(seg, off)]
}

/// Word at `seg:off`; its high byte is read at the next offset of the same segment.
pub open spec fn word_at(mem: Seq<u8>, seg: u16, off: u16) -> u16 {
    word(byte_at(mem, seg, off), byte_at(mem, seg, next_off(off)))
}

pub open spec fn store_byte(mem: Seq<u8>, seg: u16, off: u16, v: u8) -> Seq<u8> {
    mem.update(linear(seg, off), v)
}

pub open spec fn store_word(mem: Seq<u8>, seg: u16, off: u16, v: u16) -> Seq<u8> {
    store_byte(store_byte(mem, seg, off, lo_byte(v)), seg, next_off(off), hi_byte(v))
}

/// `n` bytes starting at `seg:off`, the offset wrapping within the segment.
pub open spec fn bytes_from(mem: Seq<u8>, seg: u16, off: u16, n: nat) -> Seq<u8> {
    Seq::new(n, |i: int| mem[linear(seg, ((off as int + i) % 0x10000) as u16)])
}

pub proof fn lemma_linear_bounds(seg: u16, off: u16)
    ensures
        0 <= linear(seg, off) < MEM_SIZE,
{
}

/// A word is made of its low and its high byte.
pub proof fn lemma_word_bytes(w: u16)
    ensures
        word(lo_byte(w), hi_byte(w)) == w,
{
}

pub fn next_offset(off: u16) -> (r: u16)
    ensures
        r == next_off(off),
{
    if off == 0xFFFF {
        0
    } else {
        off + 1
    }
}

pub fn make_word(lo: u8, hi: u8) -> (r: u16)
    ensures
        r == word(lo, hi),
        r as int == lo as int + 256 * hi as int,
        lo_byte(r) == lo,
        hi_byte(r) == hi,
{
    lo as u16 + (hi as u16) * 256
}

/// The memory management unit: a flat 1 MiB byte array addressed through segments.
pub struct MMU {
    pub memory: Vec<u8>,
}

impl View for MMU {
    type V = Seq<u8>;

    open spec fn view(&self) -> Seq<u8> {
        self.memory@
    }
}

impl MMU {
    pub open spec fn wf(&self) -> bool {
        self.memory@.len() == MEM_SIZE
    }

    /// A zero-filled address space.
    pub fn new() -> (r: MMU)
        ensures
            r.wf(),
            forall|i: int| 0 <= i < MEM_SIZE ==> #[trigger] r@[i] == 0,
    {
        MMU { memory: vec![0u8; MEM_SIZE] }
    }

    /// Translates `seg:off` to a linear address: `((seg << 4) + off) & 0xFFFFF`.
    pub fn translate(seg: u16, off: u16) -> (r: usize)
        ensures
            r == ((((seg as u32) << 4u32) + off as u32) as u32 & 0xFFFFFu32) as usize,
            r as int == linear(seg, off),
            r < MEM_SIZE,
    {
        let s = seg as u32;
        let o = off as u32;
        let v = (s * 16 + o) & 0xFFFFFu32;
        assert(((s << 4u32) + o) as u32 & 0xFFFFFu32 == (s * 16 + o) as u32 & 0xFFFFFu32
            && (s * 16 + o) as u32 & 0xFFFFFu32 == ((s * 16 + o) as u32) % 0x100000) by (bit_vector)
            requires
                s < 0x10000,
                o < 0x10000,
        ;
        v as usize
    }

    pub fn read_u8(&self, seg: u16, off: u16) -> (r: u8)
        requires
            self.wf(),
        ensures
            r == byte_at(self@, seg, off),
    {
        self.memory[MMU::translate(seg, off)]
    }

    pub fn read_u16(&self, seg: u16, off: u16) -> (r: u16)
        requires
            self.wf(),
        ensures
            r == word_at(self@, seg, off),
    {
        let lo = self.read_u8(seg, off);
        let hi = self.read_u8(seg, next_offset(off));
        make_word(lo, hi)
    }

    pub fn write_u8(&mut self, seg: u16, off: u16, v: u8)
        requires
            old(self).wf(),
        ensures
            final(self).wf(),
            final(self)@ == store_byte(old(self)@, seg, off, v),
    {
        let a = MMU::translate(seg, off);
        self.memory.set(a, v);
    }

    pub fn write_u16(&mut self, seg: u16, off: u16, v: u16)
        requires
            old(self).wf(),
        ensures
            final(self).wf(),
            final(self)@ == store_word(old(self)@, seg, off, v),
    {
        self.write_u8(seg, off, (v % 256) as u8);
        self.write_u8(seg, next_offset(off), (v / 256) as u8);
    }

    /// Reads `n` bytes from `seg:off` on, wrapping at the end of the segment.
    pub fn read_u8_slice(&self, seg: u16, off: u16, n: usize) -> (r: Vec<u8>)
        requires
            self.wf(),
        ensures
            r@ == bytes_from(self@, seg, off, n as nat),
    {
        let mut out: Vec<u8> = Vec::new();
        let mut i: usize = 0;
        let mut o: u16 = off;
        while i < n
            invariant
                self.wf(),
                i <= n,
                o as int == (off as int + i) % 0x10000,
                out@ =~= bytes_from(self@, seg, off, i as nat),
            decreases n - i,
        {
            let b = self.read_u8(seg, o);
            out.push(b);
            o = next_offset(o);
            i = i + 1;
        }
        assert(out@ =~= bytes_from(self@, seg, off, n as nat));
        out
    }
}

} // verus!
