use vstd::prelude::*;

use crate::memory::MMU;

verus! {

/// Linear address of the 320x200 paletted framebuffer at A000:0000.
pub const FRAMEBUFFER: usize = 0xA0000;

pub const SCREEN_WIDTH: u32 = 320;

pub const SCREEN_HEIGHT: u32 = 200;

/// One entry of the VGA DAC palette, 8 bits per channel.
#[derive(Clone, Copy, Debug, PartialEq, Eq, Structural)]
pub struct DACPalette {
    pub r: u8,
    pub g: u8,
    pub b: u8,
}

/// The video state the processor reaches through ports: the DAC palette with its
/// index and the channel that the next data write fills, and a scanline counter.
pub struct GPU {
    pub scanline: u32,
    pub width: u32,
    pub height: u32,
    pub palette: Vec<DACPalette>,
    pub pel_index: u8,
    /// 0, 1, 2: the next data write sets red, green, blue.
    pub pel_component: u8,
}

/// A 6-bit DAC value widened to an 8-bit channel.
pub open spec fn channel(v: u8) -> u8 {
    ((v % 64) * 4) as u8
}

/// A palette entry after a data write to the channel `component` (0 red, 1 green, 2 blue).
pub open spec fn dac_entry(c: DACPalette, component: u8, v: u8) -> DACPalette {
    if component == 0 {
        DACPalette { r: channel(v), ..c }
    } else if component == 1 {
        DACPalette { g: channel(v), ..c }
    } else {
        DACPalette { b: channel(v), ..c }
    }
}

/// Byte `k` of the RGBA image of the framebuffer.
pub open spec fn frame_byte(mem: Seq<u8>, pal: Seq<DACPalette>, k: int) -> u8 {
    let c = pal[mem[FRAMEBUFFER + k / 4] as int];
    if k % 4 == 0 {
        c.r
    } else if k % 4 == 1 {
        c.g
    } else if k % 4 == 2 {
        c.b
    } else {
        255
    }
}

impl GPU {
    pub open spec fn wf(&self) -> bool {
        &&& self.palette@.len() == 256
        &&& self.pel_component < 3
        &&& self.width == SCREEN_WIDTH
        &&& self.height == SCREEN_HEIGHT
        &&& self.scanline <= SCREEN_WIDTH
    }

    /// Mode 13h: 320x200, a black palette, the DAC at index 0.
    pub fn new() -> (r: GPU)
        ensures
            r.wf(),
            r.scanline == 0,
            r.pel_index == 0 && r.pel_component == 0,
            forall|i: int| 0 <= i < 256 ==> #[trigger] r.palette@[i] == (DACPalette { r: 0, g: 0, b: 0 }),
    {
        GPU {
            scanline: 0,
            width: SCREEN_WIDTH,
            height: SCREEN_HEIGHT,
            palette: vec![DACPalette { r: 0, g: 0, b: 0 }; 256],
            pel_index: 0,
            pel_component: 0,
        }
    }

    /// Ports 3C7 and 3C8: selects the palette entry that data writes fill, starting with red.
    pub fn set_pel_address(&mut self, index: u8)
        requires
            old(self).wf(),
        ensures
            final(self).wf(),
            final(self).pel_index == index,
            final(self).pel_component == 0,
            final(self).palette@ == old(self).palette@,
            final(self).scanline == old(self).scanline,
    {
        self.pel_index = index;
        self.pel_component = 0;
    }

    /// Port 3C9: the next of red, green and blue of the selected entry gets the 6-bit
    /// value shifted left by two; after blue the index moves to the next entry.
    pub fn set_pel_data(&mut self, v: u8)
        requires
            old(self).wf(),
        ensures
            final(self).wf(),
            final(self).scanline == old(self).scanline,
            final(self).palette@ == old(self).palette@.update(
                old(self).pel_index as int,
                dac_entry(old(self).palette@[old(self).pel_index as int], old(self).pel_component, v),
            ),
            old(self).pel_component < 2 ==> final(self).pel_component == old(self).pel_component + 1
                && final(self).pel_index == old(self).pel_index,
            old(self).pel_component == 2 ==> final(self).pel_component == 0 && final(self).pel_index
                == (old(self).pel_index + 1) % 256,
    {
        let i = self.pel_index as usize;
        let c = self.palette[i];
        let value = (v % 64) * 4;
        let n = if self.pel_component == 0 {
            DACPalette { r: value, ..c }
        } else if self.pel_component == 1 {
            DACPalette { g: value, ..c }
        } else {
            DACPalette { b: value, ..c }
        };
        self.palette.set(i, n);
        if self.pel_component < 2 {
            self.pel_component = self.pel_component + 1;
        } else {
            self.pel_component = 0;
            self.pel_index = if self.pel_index == 255 {
                0
            } else {
                self.pel_index + 1
            };
        }
    }

    /// Advances the scanline counter; past the last one it starts over and the frame is
    /// complete (returns true).
    pub fn progress_scanline(&mut self) -> (r: bool)
        requires
            old(self).wf(),
        ensures
            final(self).wf(),
            r == (old(self).scanline + 1 > SCREEN_WIDTH),
            final(self).scanline == (if r { 0 } else { old(self).scanline + 1 }),
            final(self).palette@ == old(self).palette@,
            final(self).pel_index == old(self).pel_index,
            final(self).pel_component == old(self).pel_component,
    {
        self.scanline = self.scanline + 1;
        if self.scanline > self.width {
            self.scanline = 0;
            true
        } else {
            false
        }
    }

    /// Port 3DA, input status register 1: bit 0 (horizontal retrace) on odd scanlines,
    /// bit 3 (vertical retrace) past the last visible line.
    pub fn read_cga_status_register(&self) -> (r: u8)
        requires
            self.wf(),
        ensures
            r == (if self.scanline % 2 == 1 { 1u8 } else { 0u8 }) + (if self.scanline >= SCREEN_HEIGHT {
                8u8
            } else {
                0u8
            }),
    {
        (if self.scanline % 2 == 1 {
            1u8
        } else {
            0u8
        }) + (if self.scanline >= self.height {
            8u8
        } else {
            0u8
        })
    }

    /// The framebuffer as RGBA bytes, row by row: each byte of A000:0000 on picks its
    /// palette entry.
    pub fn frame(&self, mmu: &MMU) -> (r: Vec<u8>)
        requires
            self.wf(),
            mmu.wf(),
        ensures
            r@.len() == 4 * 320 * 200,
            forall|k: int| 0 <= k < 4 * 320 * 200 ==> #[trigger] r@[k] == frame_byte(mmu@, self.palette@, k),
    {
        let mut out: Vec<u8> = Vec::new();
        let mut i: usize = 0;
        while i < 320 * 200
            invariant
                self.wf(),
                mmu.wf(),
                i <= 320 * 200,
                out@.len() == 4 * i,
                forall|k: int| 0 <= k < 4 * i ==> #[trigger] out@[k] == frame_byte(mmu@, self.palette@, k),
            decreases 320 * 200 - i,
        {
            let c = self.palette[mmu.memory[FRAMEBUFFER + i] as usize];
            let ghost before = out@;
            out.push(c.r);
            out.push(c.g);
            out.push(c.b);
            out.push(255);
            assert forall|k: int| 0 <= k < 4 * (i + 1) implies #[trigger] out@[k] == frame_byte(
                mmu@,
                self.palette@,
                k,
            ) by {
                if k >= 4 * i {
                    assert(k / 4 == i as int);
                } else {
                    assert(out@[k] == before[k]);
                }
            }
            i = i + 1;
        }
        out
    }

    /// Writes a video port: 3C7 and 3C8 select the palette entry, 3C9 writes the next
    /// channel of it; other ports ignore the write.
    pub fn port_out(&mut self, port: u16, value: u8)
        requires
            old(self).wf(),
        ensures
            final(self).wf(),
            final(self).scanline == old(self).scanline,
            (port == 0x3C7 || port == 0x3C8) ==> final(self).pel_index == value
                && final(self).pel_component == 0 && final(self).palette@ == old(self).palette@,
            port == 0x3C9 ==> final(self).palette@ == old(self).palette@.update(
                old(self).pel_index as int,
                dac_entry(old(self).palette@[old(self).pel_index as int], old(self).pel_component, value),
            ) && final(self).pel_component == (old(self).pel_component + 1) % 3
                && final(self).pel_index == (if old(self).pel_component == 2 {
                (old(self).pel_index + 1) % 256
            } else {
                old(self).pel_index as int
            }),
            port != 0x3C7 && port != 0x3C8 && port != 0x3C9 ==> final(self).palette@ == old(self).palette@ && final(self).pel_index == old(self).pel_index && final(self).pel_component
                == old(self).pel_component,
    {
        if port == 0x3C7 || port == 0x3C8 {
            self.set_pel_address(value);
        } else if port == 0x3C9 {
            self.set_pel_data(value);
        }
    }

    /// Reads a video port: 3DA, the input status register, moves the beam one scanline
    /// on and reports it; other ports read zero.
    pub fn port_in(&mut self, port: u16) -> (r: u8)
        requires
            old(self).wf(),
        ensures
            final(self).wf(),
            final(self).palette@ == old(self).palette@,
            final(self).pel_index == old(self).pel_index,
            final(self).pel_component == old(self).pel_component,
            port == 0x3DA ==> final(self).scanline == (if old(self).scanline + 1 > SCREEN_WIDTH {
                0
            } else {
                old(self).scanline + 1
            }) && r == (if final(self).scanline % 2 == 1 { 1u8 } else { 0u8 }) + (if final(self).scanline >= SCREEN_HEIGHT {
                8u8
            } else {
                0u8
            }),
            port != 0x3DA ==> r == 0 && final(self).scanline == old(self).scanline,
    {
        if port == 0x3DA {
            self.progress_scanline();
            self.read_cga_status_register()
        } else {
            0
        }
    }
}

} // verus!
