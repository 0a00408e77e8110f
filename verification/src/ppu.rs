//! The picture unit: display control, background and window settings,
//! blending, a copy of video RAM for the bitmap and tile modes, and the
//! scanline counters.

use vstd::prelude::*;
use crate::bits::{le16, make_half};

verus! {

/// Names for the bits of the display control register.
#[derive(Debug, Clone, Copy, PartialEq, Eq, Structural)]
pub struct DisplayControl {
    bits: u16,
}

impl View for DisplayControl {
    type V = u16;

    closed spec fn view(&self) -> u16 {
        self.bits
    }
}

impl DisplayControl {
    pub const MODE0: u16 = 0x0000;

    pub const MODE1: u16 = 0x0001;

    pub const MODE2: u16 = 0x0002;

    pub const MODE3: u16 = 0x0003;

    pub const MODE4: u16 = 0x0004;

    pub const MODE5: u16 = 0x0005;

    pub const MODE_MASK: u16 = 0x0007;

    pub const BG0: u16 = 0x0100;

    pub const BG1: u16 = 0x0200;

    pub const BG2: u16 = 0x0400;

    pub const BG3: u16 = 0x0800;

    pub const OBJ: u16 = 0x1000;

    pub const WIN0: u16 = 0x2000;

    pub const WIN1: u16 = 0x4000;

    pub const OBJ_WIN: u16 = 0x8000;

    pub const FRAME_0: u16 = 0x0000;

    pub const FRAME_1: u16 = 0x0010;

    /// Every named bit.
    pub const ALL: u16 = 0xFF17;

    pub fn empty() -> (r: Self)
        ensures
            r@ == 0,
    {
        DisplayControl { bits: 0 }
    }

    /// The set with the given bits; bits without a name are dropped.
    pub fn from_bits_truncate(bits: u16) -> (r: Self)
        ensures
            r@ == bits & Self::ALL,
    {
        DisplayControl { bits: bits & Self::ALL }
    }

    pub fn bits(&self) -> (r: u16)
        ensures
            r == self@,
    {
        self.bits
    }

    pub fn contains(&self, other: DisplayControl) -> (r: bool)
        ensures
            r == (self@ & other@ == other@),
    {
        self.bits & other.bits == other.bits
    }
}

/// What the picture unit keeps of one sprite.
#[derive(Debug, Clone, Copy, PartialEq, Eq, Structural)]
pub struct Sprite {
    pub x: u16,
    pub y: u16,
    pub tile: u16,
    pub priority: u16,
    pub enabled: bool,
}

pub const SCREEN_WIDTH: u16 = 240;

pub const SCREEN_HEIGHT: u16 = 160;

pub const VRAM_BYTES: usize = 0x18000;

/// Cycles per scanline.
pub const LINE_CYCLES: u32 = 1232;

/// Scanlines per frame.
pub const FRAME_LINES: u16 = 228;

/// The smaller of a number and a limit.
pub open spec fn at_most(value: u16, limit: u16) -> u16 {
    if value < limit {
        value
    } else {
        limit
    }
}

fn clamp(value: u16, limit: u16) -> (r: u16)
    ensures
        r == at_most(value, limit),
{
    if value < limit {
        value
    } else {
        limit
    }
}

/// The mask of bit `n`.
pub open spec fn bit_mask(n: usize) -> u16 {
    1u16 << (n as u16)
}

fn mask_of(n: usize) -> (r: u16)
    requires
        n < 16,
    ensures
        r == bit_mask(n),
{
    1u16 << (n as u16)
}

/// The parts of a tile map entry: tile number, horizontal flip, vertical
/// flip, palette number and priority.
pub open spec fn screen_entry_parts(entry: u16) -> (u16, bool, bool, u16, u16) {
    (
        (entry % 0x400) as u16,
        entry / 0x400 % 2 == 1,
        entry / 0x800 % 2 == 1,
        (entry / 0x1000) as u16,
        (entry / 0x400 % 4) as u16,
    )
}

/// The picture unit's state as plain values.
pub struct PpuView {
    pub dispcnt: u16,
    pub display_enabled: bool,
    pub dispstat: u16,
    pub vcount: u16,
    pub hcounter: u32,
    pub bgcnt: Seq<u16>,
    pub bg_hofs: Seq<u16>,
    pub bg_vofs: Seq<u16>,
    /// The four matrix entries of background 2, then those of background 3.
    pub bg_affine: Seq<u32>,
    pub bg_mosaic: u16,
    pub obj_mosaic: u16,
    pub win0_h: u16,
    pub win0_v: u16,
    pub win1_h: u16,
    pub win1_v: u16,
    pub winin: u16,
    pub winout: u16,
    pub bldcnt: u16,
    pub bldalpha: u16,
    pub bldy: u16,
    pub vram: Seq<u8>,
    pub sprites: Seq<Sprite>,
}

impl PpuView {
    pub open spec fn wf(self) -> bool {
        &&& self.bgcnt.len() == 4
        &&& self.bg_hofs.len() == 4
        &&& self.bg_vofs.len() == 4
        &&& self.bg_affine.len() == 8
        &&& self.vram.len() == VRAM_BYTES
        &&& self.sprites.len() == 128
    }

    /// The state after construction or a reset: everything cleared, the
    /// two matrices at the identity.
    pub open spec fn initial() -> PpuView {
        PpuView {
            dispcnt: 0,
            display_enabled: false,
            dispstat: 0,
            vcount: 0,
            hcounter: 0,
            bgcnt: Seq::new(4, |i: int| 0u16),
            bg_hofs: Seq::new(4, |i: int| 0u16),
            bg_vofs: Seq::new(4, |i: int| 0u16),
            bg_affine: Seq::new(
                8,
                |i: int|
                    if i % 4 == 0 || i % 4 == 3 {
                        0x100u32
                    } else {
                        0u32
                    },
            ),
            bg_mosaic: 0,
            obj_mosaic: 0,
            win0_h: 0,
            win0_v: 0,
            win1_h: 0,
            win1_v: 0,
            winin: 0,
            winout: 0,
            bldcnt: 0,
            bldalpha: 0,
            bldy: 0,
            vram: Seq::new(VRAM_BYTES as nat, |i: int| 0u8),
            sprites: Seq::new(
                128,
                |i: int| Sprite { x: 0, y: 0, tile: 0, priority: 0, enabled: false },
            ),
        }
    }

    pub open spec fn display_mode(self) -> u8 {
        (self.dispcnt % 8) as u8
    }

    pub open spec fn in_vblank(self) -> bool {
        self.vcount >= SCREEN_HEIGHT
    }

    pub open spec fn in_hblank(self) -> bool {
        self.hcounter >= 960
    }

    /// The display status register: the stored value with bit 0 showing
    /// the vertical blank and bit 1 the horizontal blank.
    pub open spec fn dispstat_value(self) -> u16 {
        let vertical = if self.in_vblank() {
            self.dispstat | 0x0001
        } else {
            self.dispstat & !0x0001u16
        };
        if self.in_hblank() {
            vertical | 0x0002
        } else {
            vertical & !0x0002u16
        }
    }

    /// The half-word at an offset of video RAM, low byte first; nothing
    /// past the end.
    pub open spec fn vram_half(self, offset: int) -> u16 {
        if 0 <= offset && offset + 1 < VRAM_BYTES {
            le16(self.vram[offset], self.vram[offset + 1])
        } else {
            0
        }
    }

    pub open spec fn vram_byte(self, offset: int) -> u8 {
        if 0 <= offset < VRAM_BYTES {
            self.vram[offset]
        } else {
            0
        }
    }

    /// Where a pixel of the 240 by 160 bitmap lies, counted in pixels.
    pub open spec fn pixel_index(x: u16, y: u16) -> int {
        y * 240 + x
    }

    pub open spec fn on_screen(x: u16, y: u16) -> bool {
        x < SCREEN_WIDTH && y < SCREEN_HEIGHT
    }

    /// A coordinate inside a tile, mirrored where the tile is flipped.
    pub open spec fn flipped(v: u8, flip: bool) -> u8 {
        if flip {
            7u8.wrapping_sub(v)
        } else {
            v
        }
    }

    /// The colour index of a pixel of a sixteen-colour tile: half a byte,
    /// the low half for even columns. Tiles past the end of video RAM read
    /// as zero.
    pub open spec fn tile_pixel_4bpp(
        self,
        tile_base: usize,
        tile_num: u16,
        x: u8,
        y: u8,
        flip_h: bool,
        flip_v: bool,
    ) -> u8 {
        let px = Self::flipped(x, flip_h);
        let py = Self::flipped(y, flip_v);
        let byte = self.vram_byte(tile_base + tile_num * 32 + py * 4 + px / 2);
        if px % 2 == 0 {
            byte % 16
        } else {
            byte / 16
        }
    }

    /// The colour index of a pixel of a 256-colour tile.
    pub open spec fn tile_pixel_8bpp(
        self,
        tile_base: usize,
        tile_num: u16,
        x: u8,
        y: u8,
        flip_h: bool,
        flip_v: bool,
    ) -> u8 {
        self.vram_byte(
            tile_base + tile_num * 64 + Self::flipped(y, flip_v) * 8 + Self::flipped(x, flip_h),
        )
    }

    /// The entry of a tile map at a tile position, which wraps at the
    /// map's width and height. A map without width or height has none.
    pub open spec fn screen_entry(self, screen_base: usize, x: u16, y: u16, width: u16, height: u16) -> u16 {
        if width == 0 || height == 0 {
            0
        } else {
            self.vram_half(
                screen_base + ((y % height) as u16).wrapping_mul(width).wrapping_add(
                    (x % width) as u16,
                ) * 2,
            )
        }
    }

    /// The counters after `cycles` cycles: the line counter moves on where
    /// the cycle counter reaches a line's length, and starts again at the
    /// end of the frame.
    pub open spec fn stepped(self, cycles: u32) -> PpuView {
        let h = self.hcounter.wrapping_add(cycles);
        if h >= LINE_CYCLES {
            let v = self.vcount.wrapping_add(1);
            PpuView {
                hcounter: (h - LINE_CYCLES) as u32,
                vcount: if v >= FRAME_LINES {
                    0
                } else {
                    v
                },
                ..self
            }
        } else {
            PpuView { hcounter: h, ..self }
        }
    }

    /// Video RAM after a copy from `data`: as much of it as `data` covers.
    pub open spec fn synced(self, data: Seq<u8>) -> Seq<u8> {
        Seq::new(
            VRAM_BYTES as nat,
            |i: int|
                if i < data.len() {
                    data[i]
                } else {
                    self.vram[i]
                },
        )
    }
}

/// The picture unit.
pub struct Ppu {
    dispcnt: DisplayControl,
    display_enabled: bool,
    dispstat: u16,
    vcount: u16,
    hcounter: u32,
    bgcnt: [u16; 4],
    bg_hofs: [u16; 4],
    bg_vofs: [u16; 4],
    bg_affine: [u32; 8],
    bg_mosaic: u16,
    obj_mosaic: u16,
    win0_h: u16,
    win0_v: u16,
    win1_h: u16,
    win1_v: u16,
    winin: u16,
    winout: u16,
    bldcnt: u16,
    bldalpha: u16,
    bldy: u16,
    vram: Box<[u8; 0x18000]>,
    sprites: [Sprite; 128],
}

impl View for Ppu {
    type V = PpuView;

    closed spec fn view(&self) -> PpuView {
        PpuView {
            dispcnt: self.dispcnt@,
            display_enabled: self.display_enabled,
            dispstat: self.dispstat,
            vcount: self.vcount,
            hcounter: self.hcounter,
            bgcnt: self.bgcnt@,
            bg_hofs: self.bg_hofs@,
            bg_vofs: self.bg_vofs@,
            bg_affine: self.bg_affine@,
            bg_mosaic: self.bg_mosaic,
            obj_mosaic: self.obj_mosaic,
            win0_h: self.win0_h,
            win0_v: self.win0_v,
            win1_h: self.win1_h,
            win1_v: self.win1_v,
            winin: self.winin,
            winout: self.winout,
            bldcnt: self.bldcnt,
            bldalpha: self.bldalpha,
            bldy: self.bldy,
            vram: self.vram@,
            sprites: self.sprites@,
        }
    }
}

impl Ppu {
    /// The view of any picture unit is well formed.
    pub proof fn lemma_view_wf(&self)
        ensures
            self@.wf(),
    {
    }

    pub fn new() -> (r: Self)
        ensures
            r@ == PpuView::initial(),
    {
        let r = Ppu {
            dispcnt: DisplayControl::empty(),
            display_enabled: false,
            dispstat: 0,
            vcount: 0,
            hcounter: 0,
            bgcnt: [0u16; 4],
            bg_hofs: [0u16; 4],
            bg_vofs: [0u16; 4],
            bg_affine: [0x100, 0, 0, 0x100, 0x100, 0, 0, 0x100],
            bg_mosaic: 0,
            obj_mosaic: 0,
            win0_h: 0,
            win0_v: 0,
            win1_h: 0,
            win1_v: 0,
            winin: 0,
            winout: 0,
            bldcnt: 0,
            bldalpha: 0,
            bldy: 0,
            vram: Box::new([0u8; 0x18000]),
            sprites: [Sprite { x: 0, y: 0, tile: 0, priority: 0, enabled: false };128],
        };
        proof {
            let f = PpuView::initial();
            assert(r@.bgcnt =~= f.bgcnt);
            assert(r@.bg_hofs =~= f.bg_hofs);
            assert(r@.bg_vofs =~= f.bg_vofs);
            assert(r@.bg_affine =~= f.bg_affine);
            assert(r@.vram =~= f.vram);
            assert(r@.sprites =~= f.sprites);
        }
        r
    }

    pub fn reset(&mut self)
        ensures
            final(self)@ == PpuView::initial(),
    {
        *self = Ppu::new();
    }

    /// Copies video RAM from the bus: as many bytes as `vram_data` holds,
    /// at most all.
    pub fn sync_vram(&mut self, vram_data: &[u8])
        ensures
            final(self)@ == (PpuView { vram: old(self)@.synced(vram_data@), ..old(self)@ }),
    {
        let len: usize = if vram_data.len() < VRAM_BYTES {
            vram_data.len()
        } else {
            VRAM_BYTES
        };
        let mut i: usize = 0;
        while i < len
            invariant
                i <= len <= VRAM_BYTES,
                len <= vram_data@.len(),
                self@ == (PpuView { vram: self@.vram, ..old(self)@ }),
                forall|j: int| 0 <= j < i ==> self@.vram[j] == vram_data@[j],
                forall|j: int| i <= j < VRAM_BYTES ==> self@.vram[j] == old(self)@.vram[j],
            decreases len - i,
        {
            self.vram[i] = vram_data[i];
            i = i + 1;
        }
        proof {
            assert(self@.vram =~= old(self)@.synced(vram_data@));
        }
    }

    /// The unit's copy of video RAM.
    pub fn vram(&self) -> (r: &[u8])
        ensures
            r@ == self@.vram,
    {
        self.vram.as_slice()
    }

    /// Whether the display is on.
    pub fn is_display_enabled(&self) -> (r: bool)
        ensures
            r == (self@.display_enabled),
    {
        self.display_enabled
    }

    /// Switches the display on or off.
    pub fn set_display_enabled(&mut self, enabled: bool)
        ensures
            final(self)@ == (PpuView { display_enabled: enabled, ..old(self)@ }),
    {
        self.display_enabled = enabled;
    }

    /// The display mode: the low three bits of display control.
    pub fn get_display_mode(&self) -> (r: u8)
        ensures
            r == (self@.display_mode()),
    {
        (self.dispcnt.bits() % 8) as u8
    }

    /// Selects the display mode, of which three bits count.
    pub fn set_display_mode(&mut self, mode: u8)
        ensures
            final(self)@ == (PpuView {
                dispcnt: ((old(self)@.dispcnt & !0x7u16) | (mode as u16 & 0x7)) & DisplayControl::ALL,
                ..old(self)@
            }),
    {
        let bits = self.dispcnt.bits() & !0x7u16;
        self.dispcnt = DisplayControl::from_bits_truncate(bits | (mode as u16 & 0x7));
    }

    /// The display control register.
    pub fn get_dispcnt(&self) -> (r: u16)
        ensures
            r == self@.dispcnt,
    {
        self.dispcnt.bits()
    }

    /// Writes the display control register; bits without a name are
    /// dropped.
    pub fn set_dispcnt(&mut self, val: u16)
        ensures
            final(self)@ == (PpuView { dispcnt: val & DisplayControl::ALL, ..old(self)@ }),
    {
        self.dispcnt = DisplayControl::from_bits_truncate(val);
    }

    /// The width of the picture: 160 in mode 5, else 240.
    pub fn get_width(&self) -> (r: u16)
        ensures
            r == (if self@.display_mode() == 5 {
                160u16
            } else {
                240u16
            }),
    {
        if self.get_display_mode() == 5 {
            160
        } else {
            240
        }
    }

    /// The height of the picture: 128 in mode 5, else 160.
    pub fn get_height(&self) -> (r: u16)
        ensures
            r == (if self@.display_mode() == 5 {
                128u16
            } else {
                160u16
            }),
    {
        if self.get_display_mode() == 5 {
            128
        } else {
            160
        }
    }

    /// The current scanline.
    pub fn get_vcount(&self) -> (r: u16)
        ensures
            r == (self@.vcount),
    {
        self.vcount
    }

    /// Sets the current scanline.
    pub fn set_vcount(&mut self, count: u16)
        ensures
            final(self)@ == (PpuView { vcount: count, ..old(self)@ }),
    {
        self.vcount = count;
    }

    /// Sets the cycle counter of the scanline.
    pub fn set_hcounter(&mut self, count: u32)
        ensures
            final(self)@ == (PpuView { hcounter: count, ..old(self)@ }),
    {
        self.hcounter = count;
    }

    /// Whether the scanline lies in the vertical blank.
    pub fn is_in_vblank(&self) -> (r: bool)
        ensures
            r == (self@.in_vblank()),
    {
        self.vcount >= SCREEN_HEIGHT
    }

    /// Whether the scanline is past its visible part.
    pub fn is_in_hblank(&self) -> (r: bool)
        ensures
            r == (self@.in_hblank()),
    {
        self.hcounter >= 960
    }

    /// The display status register.
    pub fn get_dispstat(&self) -> (r: u16)
        ensures
            r == self@.dispstat_value(),
    {
        let vertical: u16 = if self.is_in_vblank() {
            self.dispstat | 0x0001
        } else {
            self.dispstat & !0x0001u16
        };
        if self.is_in_hblank() {
            vertical | 0x0002
        } else {
            vertical & !0x0002u16
        }
    }

    /// Writes the display status register.
    pub fn set_dispstat(&mut self, val: u16)
        ensures
            final(self)@ == (PpuView { dispstat: val, ..old(self)@ }),
    {
        self.dispstat = val;
    }

    /// Whether a background is switched on; there are four.
    pub fn is_bg_enabled(&self, bg: usize) -> (r: bool)
        ensures
            r == if bg > 3 {
                false
            } else {
                self@.dispcnt & bit_mask((8 + bg) as usize) == bit_mask((8 + bg) as usize)
            },
    {
        if bg > 3 {
            return false;
        }
        let flag = mask_of(8 + bg);
        self.dispcnt.bits() & flag == flag
    }

    /// Switches a background on or off.
    pub fn set_bg_enabled(&mut self, bg: usize, enabled: bool)
        ensures
            final(self)@ == if bg > 3 {
                old(self)@
            } else {
                (PpuView {
                    dispcnt: if enabled {
                        (old(self)@.dispcnt | bit_mask((8 + bg) as usize)) & DisplayControl::ALL
                    } else {
                        (old(self)@.dispcnt & !bit_mask((8 + bg) as usize)) & DisplayControl::ALL
                    },
                    ..old(self)@
                })
            },
    {
        if bg > 3 {
            return ;
        }
        let flag = mask_of(8 + bg);
        if enabled {
            self.dispcnt = DisplayControl::from_bits_truncate(self.dispcnt.bits() | flag);
        } else {
            self.dispcnt = DisplayControl::from_bits_truncate(self.dispcnt.bits() & !flag);
        }
    }

    /// A background's priority: the low two bits of its control register.
    pub fn get_bg_priority(&self, bg: usize) -> (r: u16)
        ensures
            r == if bg > 3 {
                0
            } else {
                self@.bgcnt[bg as int] & 0x3
            },
    {
        if bg > 3 {
            return 0;
        }
        self.bgcnt[bg] & 0x3
    }

    /// Sets a background's priority, of which two bits count.
    pub fn set_bg_priority(&mut self, bg: usize, priority: u16)
        ensures
            final(self)@ == if bg > 3 {
                old(self)@
            } else {
                (PpuView {
                    bgcnt: old(self)@.bgcnt.update(
                        bg as int,
                        (old(self)@.bgcnt[bg as int] & !0x3u16) | (priority & 0x3),
                    ),
                    ..old(self)@
                })
            },
    {
        if bg > 3 {
            return ;
        }
        let value = (self.bgcnt[bg] & !0x3u16) | (priority & 0x3);
        self.bgcnt[bg] = value;
    }

    /// A background's tile base: bits 2 and 3 of its control register, times
    /// sixteen.
    pub fn get_bg_tile_base(&self, bg: usize) -> (r: u16)
        ensures
            r == if bg > 3 {
                0
            } else {
                (self@.bgcnt[bg as int] / 4 % 4) * 16
            },
    {
        if bg > 3 {
            return 0;
        }
        (self.bgcnt[bg] / 4 % 4) * 16
    }

    /// Sets a background's tile base from bits 5 and 6 of `base`.
    pub fn set_bg_tile_base(&mut self, bg: usize, base: u16)
        ensures
            final(self)@ == if bg > 3 {
                old(self)@
            } else {
                (PpuView {
                    bgcnt: old(self)@.bgcnt.update(
                        bg as int,
                        (old(self)@.bgcnt[bg as int] & !0xCu16) | ((base & 0x60) << 2),
                    ),
                    ..old(self)@
                })
            },
    {
        if bg > 3 {
            return ;
        }
        let value = (self.bgcnt[bg] & !0xCu16) | ((base & 0x60) << 2);
        self.bgcnt[bg] = value;
    }

    /// A background's map base: bits 8 to 12 of its control register, times
    /// two.
    pub fn get_bg_map_base(&self, bg: usize) -> (r: u16)
        ensures
            r == if bg > 3 {
                0
            } else {
                (self@.bgcnt[bg as int] / 256 % 32) * 2
            },
    {
        if bg > 3 {
            return 0;
        }
        (self.bgcnt[bg] / 256 % 32) * 2
    }

    /// Sets a background's map base, of which five bits count.
    pub fn set_bg_map_base(&mut self, bg: usize, base: u16)
        ensures
            final(self)@ == if bg > 3 {
                old(self)@
            } else {
                (PpuView {
                    bgcnt: old(self)@.bgcnt.update(
                        bg as int,
                        (old(self)@.bgcnt[bg as int] & !0x1F00u16) | ((base & 0x1F) << 8),
                    ),
                    ..old(self)@
                })
            },
    {
        if bg > 3 {
            return ;
        }
        let value = (self.bgcnt[bg] & !0x1F00u16) | ((base & 0x1F) << 8);
        self.bgcnt[bg] = value;
    }

    /// A background's control register.
    pub fn get_bgcnt(&self, bg: usize) -> (r: u16)
        ensures
            r == if bg > 3 {
                0
            } else {
                self@.bgcnt[bg as int]
            },
    {
        if bg > 3 {
            return 0;
        }
        self.bgcnt[bg]
    }

    /// Writes a background's control register.
    pub fn set_bgcnt(&mut self, bg: usize, val: u16)
        ensures
            final(self)@ == if bg > 3 {
                old(self)@
            } else {
                (PpuView {
                    bgcnt: old(self)@.bgcnt.update(
                        bg as int,
                        val,
                    ),
                    ..old(self)@
                })
            },
    {
        if bg > 3 {
            return ;
        }
        let value = val;
        self.bgcnt[bg] = value;
    }

    /// A background's horizontal offset.
    pub fn get_bg_hofs(&self, bg: usize) -> (r: u16)
        ensures
            r == if bg > 3 {
                0
            } else {
                self@.bg_hofs[bg as int]
            },
    {
        if bg > 3 {
            return 0;
        }
        self.bg_hofs[bg]
    }

    /// Sets a background's horizontal offset, of which nine bits count.
    pub fn set_bg_hofs(&mut self, bg: usize, val: u16)
        ensures
            final(self)@ == if bg > 3 {
                old(self)@
            } else {
                (PpuView {
                    bg_hofs: old(self)@.bg_hofs.update(
                        bg as int,
                        val & 0x1FF,
                    ),
                    ..old(self)@
                })
            },
    {
        if bg > 3 {
            return ;
        }
        let value = val & 0x1FF;
        self.bg_hofs[bg] = value;
    }

    /// A background's vertical offset.
    pub fn get_bg_vofs(&self, bg: usize) -> (r: u16)
        ensures
            r == if bg > 3 {
                0
            } else {
                self@.bg_vofs[bg as int]
            },
    {
        if bg > 3 {
            return 0;
        }
        self.bg_vofs[bg]
    }

    /// Sets a background's vertical offset, of which nine bits count.
    pub fn set_bg_vofs(&mut self, bg: usize, val: u16)
        ensures
            final(self)@ == if bg > 3 {
                old(self)@
            } else {
                (PpuView {
                    bg_vofs: old(self)@.bg_vofs.update(
                        bg as int,
                        val & 0x1FF,
                    ),
                    ..old(self)@
                })
            },
    {
        if bg > 3 {
            return ;
        }
        let value = val & 0x1FF;
        self.bg_vofs[bg] = value;
    }

    /// Sets entry A of the matrix of background 2 or 3; other backgrounds have
    /// none.
    pub fn set_bg_affine_a(&mut self, bg: usize, val: u32)
        ensures
            final(self)@ == if bg != 2 && bg != 3 {
                old(self)@
            } else {
                (PpuView {
                    bg_affine: old(self)@.bg_affine.update(
                        (bg - 2) * 4 + 0,
                        val,
                    ),
                    ..old(self)@
                })
            },
    {
        if bg != 2 && bg != 3 {
            return ;
        }
        let value = val;
        self.bg_affine[(bg - 2) * 4 + 0] = value;
    }

    /// Entry A of the matrix of background 2 or 3; one, in fixed point, for the
    /// others.
    pub fn get_bg_affine_a(&self, bg: usize) -> (r: u32)
        ensures
            r == if bg != 2 && bg != 3 {
                0x100
            } else {
                self@.bg_affine[(bg - 2) * 4]
            },
    {
        if bg != 2 && bg != 3 {
            return 0x100;
        }
        self.bg_affine[(bg - 2) * 4]
    }

    /// Sets entry B of the matrix of background 2 or 3; other backgrounds have
    /// none.
    pub fn set_bg_affine_b(&mut self, bg: usize, val: u32)
        ensures
            final(self)@ == if bg != 2 && bg != 3 {
                old(self)@
            } else {
                (PpuView {
                    bg_affine: old(self)@.bg_affine.update(
                        (bg - 2) * 4 + 1,
                        val,
                    ),
                    ..old(self)@
                })
            },
    {
        if bg != 2 && bg != 3 {
            return ;
        }
        let value = val;
        self.bg_affine[(bg - 2) * 4 + 1] = value;
    }

    /// Sets entry C of the matrix of background 2 or 3; other backgrounds have
    /// none.
    pub fn set_bg_affine_c(&mut self, bg: usize, val: u32)
        ensures
            final(self)@ == if bg != 2 && bg != 3 {
                old(self)@
            } else {
                (PpuView {
                    bg_affine: old(self)@.bg_affine.update(
                        (bg - 2) * 4 + 2,
                        val,
                    ),
                    ..old(self)@
                })
            },
    {
        if bg != 2 && bg != 3 {
            return ;
        }
        let value = val;
        self.bg_affine[(bg - 2) * 4 + 2] = value;
    }

    /// Sets entry D of the matrix of background 2 or 3; other backgrounds have
    /// none.
    pub fn set_bg_affine_d(&mut self, bg: usize, val: u32)
        ensures
            final(self)@ == if bg != 2 && bg != 3 {
                old(self)@
            } else {
                (PpuView {
                    bg_affine: old(self)@.bg_affine.update(
                        (bg - 2) * 4 + 3,
                        val,
                    ),
                    ..old(self)@
                })
            },
    {
        if bg != 2 && bg != 3 {
            return ;
        }
        let value = val;
        self.bg_affine[(bg - 2) * 4 + 3] = value;
    }

    /// The width of a background mosaic block.
    pub fn get_bg_mosaic_h(&self) -> (r: u16)
        ensures
            r == (self@.bg_mosaic % 16 + 1),
    {
        self.bg_mosaic % 16 + 1
    }

    /// Sets the width of a background mosaic block: one to sixteen.
    pub fn set_bg_mosaic_h(&mut self, val: u16)
        ensures
            final(self)@ == (PpuView {
                bg_mosaic: (old(self)@.bg_mosaic & !0xFu16) | at_most(val.wrapping_sub(1), 0xF),
                ..old(self)@
            }),
    {
        self.bg_mosaic = (self.bg_mosaic & !0xFu16) | clamp(val.wrapping_sub(1), 0xF);
    }

    /// The height of a background mosaic block.
    pub fn get_bg_mosaic_v(&self) -> (r: u16)
        ensures
            r == (self@.bg_mosaic / 16 % 16 + 1),
    {
        self.bg_mosaic / 16 % 16 + 1
    }

    /// Sets the height of a background mosaic block: one to sixteen.
    pub fn set_bg_mosaic_v(&mut self, val: u16)
        ensures
            final(self)@ == (PpuView {
                bg_mosaic: (old(self)@.bg_mosaic & !0xF0u16) | (at_most(val.wrapping_sub(1), 0xF) << 4),
                ..old(self)@
            }),
    {
        self.bg_mosaic = (self.bg_mosaic & !0xF0u16) | (clamp(val.wrapping_sub(1), 0xF) << 4);
    }

    /// The width of a sprite mosaic block.
    pub fn get_obj_mosaic_h(&self) -> (r: u16)
        ensures
            r == (self@.obj_mosaic % 16 + 1),
    {
        self.obj_mosaic % 16 + 1
    }

    /// Sets the width of a sprite mosaic block: one to sixteen.
    pub fn set_obj_mosaic_h(&mut self, val: u16)
        ensures
            final(self)@ == (PpuView {
                obj_mosaic: (old(self)@.obj_mosaic & !0xFu16) | at_most(val.wrapping_sub(1), 0xF),
                ..old(self)@
            }),
    {
        self.obj_mosaic = (self.obj_mosaic & !0xFu16) | clamp(val.wrapping_sub(1), 0xF);
    }

    /// The height of a sprite mosaic block.
    pub fn get_obj_mosaic_v(&self) -> (r: u16)
        ensures
            r == (self@.obj_mosaic / 16 % 16 + 1),
    {
        self.obj_mosaic / 16 % 16 + 1
    }

    /// Sets the height of a sprite mosaic block: one to sixteen.
    pub fn set_obj_mosaic_v(&mut self, val: u16)
        ensures
            final(self)@ == (PpuView {
                obj_mosaic: (old(self)@.obj_mosaic & !0xF0u16) | (at_most(val.wrapping_sub(1), 0xF) << 4),
                ..old(self)@
            }),
    {
        self.obj_mosaic = (self.obj_mosaic & !0xF0u16) | (clamp(val.wrapping_sub(1), 0xF) << 4);
    }

    /// Whether the second window is switched on.
    pub fn is_window1_enabled(&self) -> (r: bool)
        ensures
            r == (self@.dispcnt & DisplayControl::WIN1 == DisplayControl::WIN1),
    {
        self.dispcnt.bits() & DisplayControl::WIN1 == DisplayControl::WIN1
    }

    /// Switches the second window on or off.
    pub fn set_window1_enabled(&mut self, enabled: bool)
        ensures
            final(self)@ == (PpuView {
                dispcnt: if enabled {
                    (old(self)@.dispcnt | DisplayControl::WIN1) & DisplayControl::ALL
                } else {
                    (old(self)@.dispcnt & !DisplayControl::WIN1) & DisplayControl::ALL
                },
                ..old(self)@
            }),
    {
        if enabled {
            self.dispcnt = DisplayControl::from_bits_truncate(
                self.dispcnt.bits() | DisplayControl::WIN1,
            );
        } else {
            self.dispcnt = DisplayControl::from_bits_truncate(
                self.dispcnt.bits() & !DisplayControl::WIN1,
            );
        }
    }

    /// The left edge of the second window.
    pub fn get_window1_left(&self) -> (r: u16)
        ensures
            r == (self@.win1_h & 0xFF),
    {
        self.win1_h & 0xFF
    }

    /// Sets the left edge of the second window, of which eight bits count.
    pub fn set_window1_left(&mut self, val: u16)
        ensures
            final(self)@ == (PpuView {
                win1_h: (old(self)@.win1_h & !0xFFu16) | (val & 0xFF),
                ..old(self)@
            }),
    {
        self.win1_h = (self.win1_h & !0xFFu16) | (val & 0xFF);
    }

    /// The right edge of the second window.
    pub fn get_window1_right(&self) -> (r: u16)
        ensures
            r == ((self@.win1_h >> 8) & 0xFF),
    {
        (self.win1_h >> 8) & 0xFF
    }

    /// Sets the right edge of the second window, of which eight bits count.
    pub fn set_window1_right(&mut self, val: u16)
        ensures
            final(self)@ == (PpuView {
                win1_h: (old(self)@.win1_h & !0xFF00u16) | ((val & 0xFF) << 8),
                ..old(self)@
            }),
    {
        self.win1_h = (self.win1_h & !0xFF00u16) | ((val & 0xFF) << 8);
    }

    /// The top edge of the second window.
    pub fn get_window1_top(&self) -> (r: u16)
        ensures
            r == (self@.win1_v & 0xFF),
    {
        self.win1_v & 0xFF
    }

    /// Sets the top edge of the second window, of which eight bits count.
    pub fn set_window1_top(&mut self, val: u16)
        ensures
            final(self)@ == (PpuView {
                win1_v: (old(self)@.win1_v & !0xFFu16) | (val & 0xFF),
                ..old(self)@
            }),
    {
        self.win1_v = (self.win1_v & !0xFFu16) | (val & 0xFF);
    }

    /// The bottom edge of the second window.
    pub fn get_window1_bottom(&self) -> (r: u16)
        ensures
            r == ((self@.win1_v >> 8) & 0xFF),
    {
        (self.win1_v >> 8) & 0xFF
    }

    /// Sets the bottom edge of the second window, of which eight bits count.
    pub fn set_window1_bottom(&mut self, val: u16)
        ensures
            final(self)@ == (PpuView {
                win1_v: (old(self)@.win1_v & !0xFF00u16) | ((val & 0xFF) << 8),
                ..old(self)@
            }),
    {
        self.win1_v = (self.win1_v & !0xFF00u16) | ((val & 0xFF) << 8);
    }

    /// Whether a background shows inside the second window.
    pub fn is_window1_bg_enabled(&self, bg: usize) -> (r: bool)
        ensures
            r == if bg > 3 {
                false
            } else {
                self@.winin & bit_mask(bg) != 0
            },
    {
        if bg > 3 {
            return false;
        }
        self.winin & mask_of(bg) != 0
    }

    /// Lets a background show inside the second window, or not.
    pub fn set_window1_bg_enable(&mut self, bg: usize, enabled: bool)
        ensures
            final(self)@ == if bg > 3 {
                old(self)@
            } else {
                (PpuView {
                    winin: if enabled {
                        old(self)@.winin | bit_mask(bg)
                    } else {
                        old(self)@.winin & !bit_mask(bg)
                    },
                    ..old(self)@
                })
            },
    {
        if bg > 3 {
            return ;
        }
        if enabled {
            self.winin = self.winin | mask_of(bg);
        } else {
            self.winin = self.winin & !mask_of(bg);
        }
    }

    /// Whether sprites show inside the second window.
    pub fn is_window1_obj_enabled(&self) -> (r: bool)
        ensures
            r == (self@.winin & 0x10u16 != 0),
    {
        self.winin & 0x10u16 != 0
    }

    /// Lets sprites show inside the second window, or not.
    pub fn set_window1_obj_enable(&mut self, enabled: bool)
        ensures
            final(self)@ == (PpuView {
                    winin: if enabled {
                        old(self)@.winin | 0x10u16
                    } else {
                        old(self)@.winin & !0x10u16
                    },
                    ..old(self)@
                }),
    {
        if enabled {
            self.winin = self.winin | 0x10u16;
        } else {
            self.winin = self.winin & !0x10u16;
        }
    }

    /// Whether blending is switched on.
    pub fn is_blending_enabled(&self) -> (r: bool)
        ensures
            r == (self@.bldcnt & 0x40u16 != 0),
    {
        self.bldcnt & 0x40u16 != 0
    }

    /// Switches blending on or off.
    pub fn set_blending_enabled(&mut self, enabled: bool)
        ensures
            final(self)@ == (PpuView {
                    bldcnt: if enabled {
                        old(self)@.bldcnt | 0x40u16
                    } else {
                        old(self)@.bldcnt & !0x40u16
                    },
                    ..old(self)@
                }),
    {
        if enabled {
            self.bldcnt = self.bldcnt | 0x40u16;
        } else {
            self.bldcnt = self.bldcnt & !0x40u16;
        }
    }

    /// Whether a background takes part in blending.
    pub fn is_blend_target_bg(&self, bg: usize) -> (r: bool)
        ensures
            r == if bg > 3 {
                false
            } else {
                self@.bldcnt & bit_mask(bg) != 0
            },
    {
        if bg > 3 {
            return false;
        }
        self.bldcnt & mask_of(bg) != 0
    }

    /// Lets a background take part in blending, or not.
    pub fn set_blend_target_bg(&mut self, bg: usize, enabled: bool)
        ensures
            final(self)@ == if bg > 3 {
                old(self)@
            } else {
                (PpuView {
                    bldcnt: if enabled {
                        old(self)@.bldcnt | bit_mask(bg)
                    } else {
                        old(self)@.bldcnt & !bit_mask(bg)
                    },
                    ..old(self)@
                })
            },
    {
        if bg > 3 {
            return ;
        }
        if enabled {
            self.bldcnt = self.bldcnt | mask_of(bg);
        } else {
            self.bldcnt = self.bldcnt & !mask_of(bg);
        }
    }

    /// Whether a sprite layer takes part in blending; there are two.
    pub fn is_blend_target_obj(&self, layer: usize) -> (r: bool)
        ensures
            r == if layer > 1 {
                false
            } else {
                self@.bldcnt & bit_mask((4 + layer) as usize) != 0
            },
    {
        if layer > 1 {
            return false;
        }
        self.bldcnt & mask_of(4 + layer) != 0
    }

    /// Lets a sprite layer take part in blending, or not.
    pub fn set_blend_target_obj(&mut self, layer: usize, enabled: bool)
        ensures
            final(self)@ == if layer > 1 {
                old(self)@
            } else {
                (PpuView {
                    bldcnt: if enabled {
                        old(self)@.bldcnt | bit_mask((4 + layer) as usize)
                    } else {
                        old(self)@.bldcnt & !bit_mask((4 + layer) as usize)
                    },
                    ..old(self)@
                })
            },
    {
        if layer > 1 {
            return ;
        }
        if enabled {
            self.bldcnt = self.bldcnt | mask_of(4 + layer);
        } else {
            self.bldcnt = self.bldcnt & !mask_of(4 + layer);
        }
    }

    /// The weight of the first blending target.
    pub fn get_blend_eva(&self) -> (r: u16)
        ensures
            r == (self@.bldalpha & 0x1F),
    {
        self.bldalpha & 0x1F
    }

    /// Sets the weight of the first blending target: at most sixteen.
    pub fn set_blend_eva(&mut self, val: u16)
        ensures
            final(self)@ == (PpuView {
                bldalpha: (old(self)@.bldalpha & !0x1Fu16) | (at_most(val, 16) & 0x1F),
                ..old(self)@
            }),
    {
        self.bldalpha = (self.bldalpha & !0x1Fu16) | (clamp(val, 16) & 0x1F);
    }

    /// The weight of the second blending target.
    pub fn get_blend_evb(&self) -> (r: u16)
        ensures
            r == ((self@.bldalpha >> 8) & 0x1F),
    {
        (self.bldalpha >> 8) & 0x1F
    }

    /// Sets the weight of the second blending target: at most sixteen.
    pub fn set_blend_evb(&mut self, val: u16)
        ensures
            final(self)@ == (PpuView {
                bldalpha: (old(self)@.bldalpha & !0x1F00u16) | ((at_most(val, 16) & 0x1F) << 8),
                ..old(self)@
            }),
    {
        self.bldalpha = (self.bldalpha & !0x1F00u16) | ((clamp(val, 16) & 0x1F) << 8);
    }

    /// Writes the blend control register.
    pub fn set_blend_control(&mut self, val: u16)
        ensures
            final(self)@ == (PpuView { bldcnt: val, ..old(self)@ }),
    {
        self.bldcnt = val;
    }

    /// Writes the blend weight register.
    pub fn set_blend_alpha(&mut self, val: u16)
        ensures
            final(self)@ == (PpuView { bldalpha: val, ..old(self)@ }),
    {
        self.bldalpha = val;
    }

    /// Sets a pixel of the sixteen-bit bitmap; a pixel off the screen is
    /// ignored.
    pub fn set_pixel_mode3(&mut self, x: u16, y: u16, color: u16)
        ensures
            final(self)@ == if PpuView::on_screen(x, y) {
                (PpuView {
                    vram: old(self)@.vram.update(
                        PpuView::pixel_index(x, y) * 2,
                        (color % 0x100) as u8,
                    ).update(PpuView::pixel_index(x, y) * 2 + 1, (color / 0x100) as u8),
                    ..old(self)@
                })
            } else {
                old(self)@
            },
    {
        if x < SCREEN_WIDTH && y < SCREEN_HEIGHT {
            let offset: usize = (y as usize * 240 + x as usize) * 2;
            self.vram[offset] = (color % 0x100) as u8;
            self.vram[offset + 1] = (color / 0x100) as u8;
        }
    }

    /// A pixel of the sixteen-bit bitmap; nothing off the screen.
    pub fn get_pixel_mode3(&self, x: u16, y: u16) -> (r: u16)
        ensures
            r == if PpuView::on_screen(x, y) {
                self@.vram_half(PpuView::pixel_index(x, y) * 2)
            } else {
                0
            },
    {
        if x < SCREEN_WIDTH && y < SCREEN_HEIGHT {
            let offset: usize = (y as usize * 240 + x as usize) * 2;
            make_half(self.vram[offset], self.vram[offset + 1])
        } else {
            0
        }
    }

    /// Sets a pixel of the eight-bit bitmap; a pixel off the screen is
    /// ignored.
    pub fn set_pixel_mode4(&mut self, x: u16, y: u16, index: u8)
        ensures
            final(self)@ == if PpuView::on_screen(x, y) {
                (PpuView {
                    vram: old(self)@.vram.update(PpuView::pixel_index(x, y), index),
                    ..old(self)@
                })
            } else {
                old(self)@
            },
    {
        if x < SCREEN_WIDTH && y < SCREEN_HEIGHT {
            let offset: usize = y as usize * 240 + x as usize;
            self.vram[offset] = index;
        }
    }

    /// A pixel of the eight-bit bitmap; nothing off the screen.
    pub fn get_pixel_mode4(&self, x: u16, y: u16) -> (r: u8)
        ensures
            r == if PpuView::on_screen(x, y) {
                self@.vram[PpuView::pixel_index(x, y)]
            } else {
                0
            },
    {
        if x < SCREEN_WIDTH && y < SCREEN_HEIGHT {
            let offset: usize = y as usize * 240 + x as usize;
            self.vram[offset]
        } else {
            0
        }
    }

    /// Sets a sprite's horizontal position; there are 128 sprites.
    pub fn set_sprite_x(&mut self, num: usize, x: u16)
        ensures
            final(self)@ == if num >= 128 {
                old(self)@
            } else {
                (PpuView {
                    sprites: old(self)@.sprites.update(
                        num as int,
                        Sprite { x: x, ..old(self)@.sprites[num as int] },
                    ),
                    ..old(self)@
                })
            },
    {
        if num < 128 {
            let current = self.sprites[num];
            self.sprites[num] = Sprite { x: x, ..current };
        }
    }

    /// A sprite's horizontal position.
    pub fn get_sprite_x(&self, num: usize) -> (r: u16)
        ensures
            r == if num >= 128 {
                0
            } else {
                self@.sprites[num as int].x
            },
    {
        if num >= 128 {
            return 0;
        }
        self.sprites[num].x
    }

    /// Sets a sprite's vertical position.
    pub fn set_sprite_y(&mut self, num: usize, y: u16)
        ensures
            final(self)@ == if num >= 128 {
                old(self)@
            } else {
                (PpuView {
                    sprites: old(self)@.sprites.update(
                        num as int,
                        Sprite { y: y, ..old(self)@.sprites[num as int] },
                    ),
                    ..old(self)@
                })
            },
    {
        if num < 128 {
            let current = self.sprites[num];
            self.sprites[num] = Sprite { y: y, ..current };
        }
    }

    /// A sprite's vertical position.
    pub fn get_sprite_y(&self, num: usize) -> (r: u16)
        ensures
            r == if num >= 128 {
                0
            } else {
                self@.sprites[num as int].y
            },
    {
        if num >= 128 {
            return 0;
        }
        self.sprites[num].y
    }

    /// Sets a sprite's tile.
    pub fn set_sprite_tile(&mut self, num: usize, tile: u16)
        ensures
            final(self)@ == if num >= 128 {
                old(self)@
            } else {
                (PpuView {
                    sprites: old(self)@.sprites.update(
                        num as int,
                        Sprite { tile: tile, ..old(self)@.sprites[num as int] },
                    ),
                    ..old(self)@
                })
            },
    {
        if num < 128 {
            let current = self.sprites[num];
            self.sprites[num] = Sprite { tile: tile, ..current };
        }
    }

    /// Sets a sprite's priority.
    pub fn set_sprite_priority(&mut self, num: usize, priority: u16)
        ensures
            final(self)@ == if num >= 128 {
                old(self)@
            } else {
                (PpuView {
                    sprites: old(self)@.sprites.update(
                        num as int,
                        Sprite { priority: priority, ..old(self)@.sprites[num as int] },
                    ),
                    ..old(self)@
                })
            },
    {
        if num < 128 {
            let current = self.sprites[num];
            self.sprites[num] = Sprite { priority: priority, ..current };
        }
    }

    /// A sprite's palette lives in object memory; the picture unit keeps
    /// none and stays as it is.
    pub fn set_sprite_palette(&mut self, num: usize, palette: u16)
        ensures
            final(self)@ == old(self)@,
    {
    }

    /// Shows or hides a sprite.
    pub fn set_sprite_enabled(&mut self, num: usize, enabled: bool)
        ensures
            final(self)@ == if num >= 128 {
                old(self)@
            } else {
                (PpuView {
                    sprites: old(self)@.sprites.update(
                        num as int,
                        Sprite { enabled: enabled, ..old(self)@.sprites[num as int] },
                    ),
                    ..old(self)@
                })
            },
    {
        if num < 128 {
            let current = self.sprites[num];
            self.sprites[num] = Sprite { enabled: enabled, ..current };
        }
    }

    /// Whether a sprite is shown.
    pub fn is_sprite_enabled(&self, num: usize) -> (r: bool)
        ensures
            r == if num >= 128 {
                false
            } else {
                self@.sprites[num as int].enabled
            },
    {
        if num >= 128 {
            return false;
        }
        self.sprites[num].enabled
    }

    /// Reads a half-word of video RAM.
    pub fn read_vram_half(&self, offset: usize) -> (r: u16)
        ensures
            r == self@.vram_half(offset as int),
    {
        if offset < VRAM_BYTES - 1 {
            make_half(self.vram[offset], self.vram[offset + 1])
        } else {
            0
        }
    }

    fn read_vram_byte(&self, offset: usize) -> (r: u8)
        ensures
            r == self@.vram_byte(offset as int),
    {
        if offset < VRAM_BYTES {
            self.vram[offset]
        } else {
            0
        }
    }

    /// The picture unit holds no palette: every colour reads as zero here.
    /// The bus holds the palette.
    pub fn get_palette_color(&self, pal_num: usize, index: u16) -> (r: u16)
        ensures
            r == 0,
    {
        0
    }

    fn flip(v: u8, flip: bool) -> (r: u8)
        ensures
            r == PpuView::flipped(v, flip),
    {
        if flip {
            7u8.wrapping_sub(v)
        } else {
            v
        }
    }

    /// The colour index of a pixel of a sixteen-colour tile.
    pub fn get_tile_pixel_4bpp(
        &self,
        tile_base: usize,
        tile_num: u16,
        x: u8,
        y: u8,
        palette_num: u16,
        flip_h: bool,
        flip_v: bool,
    ) -> (r: u8)
        ensures
            r == self@.tile_pixel_4bpp(tile_base, tile_num, x, y, flip_h, flip_v),
    {
        let px = Self::flip(x, flip_h);
        let py = Self::flip(y, flip_v);
        let byte = if tile_base < VRAM_BYTES {
            self.read_vram_byte(
                tile_base + tile_num as usize * 32 + py as usize * 4 + px as usize / 2,
            )
        } else {
            0
        };
        if px % 2 == 0 {
            byte % 16
        } else {
            byte / 16
        }
    }

    /// The colour index of a pixel of a 256-colour tile.
    pub fn get_tile_pixel_8bpp(
        &self,
        tile_base: usize,
        tile_num: u16,
        x: u8,
        y: u8,
        flip_h: bool,
        flip_v: bool,
    ) -> (r: u8)
        ensures
            r == self@.tile_pixel_8bpp(tile_base, tile_num, x, y, flip_h, flip_v),
    {
        let px = Self::flip(x, flip_h);
        let py = Self::flip(y, flip_v);
        if tile_base < VRAM_BYTES {
            self.read_vram_byte(tile_base + tile_num as usize * 64 + py as usize * 8 + px as usize)
        } else {
            0
        }
    }

    /// The entry of a tile map at a tile position.
    pub fn get_screen_entry(
        &self,
        screen_base: usize,
        x: u16,
        y: u16,
        bg_size: u16,
        width: u16,
        height: u16,
    ) -> (r: u16)
        ensures
            r == self@.screen_entry(screen_base, x, y, width, height),
    {
        if width == 0 || height == 0 {
            return 0;
        }
        let index: u16 = (y % height).wrapping_mul(width).wrapping_add(x % width);
        if screen_base < VRAM_BYTES {
            self.read_vram_half(screen_base + index as usize * 2)
        } else {
            0
        }
    }

    /// Splits a tile map entry into tile number, horizontal flip, vertical
    /// flip, palette number and priority.
    pub fn parse_screen_entry(entry: u16) -> (r: (u16, bool, bool, u16, u16))
        ensures
            r == screen_entry_parts(entry),
    {
        (
            entry % 0x400,
            entry / 0x400 % 2 == 1,
            entry / 0x800 % 2 == 1,
            entry / 0x1000,
            entry / 0x400 % 4,
        )
    }

    /// Steps the counters forward by the given number of cycles.
    pub fn step(&mut self, cycles: u32)
        ensures
            final(self)@ == old(self)@.stepped(cycles),
    {
        self.hcounter = self.hcounter.wrapping_add(cycles);
        if self.hcounter >= LINE_CYCLES {
            self.hcounter = self.hcounter - LINE_CYCLES;
            self.vcount = self.vcount.wrapping_add(1);
            if self.vcount >= FRAME_LINES {
                self.vcount = 0;
            }
        }
    }

    /// Steps the counters and tells whether the vertical blank just began:
    /// the scanline went from 159 to 160.
    pub fn step_vblank_check(&mut self, cycles: u32) -> (r: bool)
        ensures
            final(self)@ == old(self)@.stepped(cycles),
            r == (old(self)@.vcount == 159 && final(self)@.vcount == 160),
    {
        let old_vcount = self.vcount;
        self.step(cycles);
        old_vcount == 159 && self.vcount == 160
    }
}

impl Default for Ppu {
    fn default() -> (r: Self)
        ensures
            r@ == PpuView::initial(),
    {
        Ppu::new()
    }
}

} // verus!
