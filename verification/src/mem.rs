//! The memory bus: it owns every backing store, decodes addresses into a
//! region and an offset, and performs byte, half-word and word accesses with
//! the quirks of each region.

use vstd::prelude::*;
use crate::bits::{
    byte_of, get_byte, join_halves, le16, le32, make_half, make_word, rotate_half_bytes,
    rotate_word_bytes, rotr16_bytes, rotr32_bytes,
};
use crate::interrupt::{InterruptController, InterruptView};

verus! {

pub const BIOS_SIZE: usize = 0x4000;

pub const WRAM_SIZE: usize = 0x40000;

pub const IWRAM_SIZE: usize = 0x8000;

pub const IO_SIZE: usize = 0x400;

pub const PALETTE_SIZE: usize = 0x400;

pub const VRAM_SIZE: usize = 0x18000;

pub const OAM_SIZE: usize = 0x400;

/// The stores an address can resolve to.
#[derive(Debug, Clone, Copy, PartialEq, Eq, Structural)]
pub enum MemoryRegion {
    Bios,
    Wram,
    Iwram,
    Io,
    Palette,
    Vram,
    Oam,
    Rom,
    Unknown,
}

/// The region that an address belongs to. Work RAM, palette, video RAM and
/// object memory each answer over a 1 MiB window; the cartridge answers over
/// three windows of 32 MiB.
pub open spec fn region_of(addr: u32) -> MemoryRegion {
    if addr <= 0x0000_3FFF {
        MemoryRegion::Bios
    } else if 0x0200_0000 <= addr <= 0x020F_FFFF {
        MemoryRegion::Wram
    } else if 0x0300_0000 <= addr <= 0x030F_FFFF {
        MemoryRegion::Iwram
    } else if 0x0400_0000 <= addr <= 0x0400_03FF {
        MemoryRegion::Io
    } else if 0x0500_0000 <= addr <= 0x050F_FFFF {
        MemoryRegion::Palette
    } else if 0x0600_0000 <= addr <= 0x060F_FFFF {
        MemoryRegion::Vram
    } else if 0x0700_0000 <= addr <= 0x070F_FFFF {
        MemoryRegion::Oam
    } else if 0x0800_0000 <= addr <= 0x0DFF_FFFF {
        MemoryRegion::Rom
    } else {
        MemoryRegion::Unknown
    }
}

/// The place inside its region that an address resolves to: the distance
/// from the window's start, wrapped to the size of the store behind it.
pub open spec fn offset_of(addr: u32, rom_len: nat) -> int {
    match region_of(addr) {
        MemoryRegion::Bios => addr as int,
        MemoryRegion::Wram => (addr - 0x0200_0000) % 0x40000,
        MemoryRegion::Iwram => (addr - 0x0300_0000) % 0x8000,
        MemoryRegion::Io => addr - 0x0400_0000,
        MemoryRegion::Palette => (addr - 0x0500_0000) % 0x400,
        MemoryRegion::Vram => (addr - 0x0600_0000) % 0x18000,
        MemoryRegion::Oam => (addr - 0x0700_0000) % 0x400,
        MemoryRegion::Rom => if rom_len == 0 {
            0
        } else {
            ((addr - 0x0800_0000) % 0x0200_0000) % (rom_len as int)
        },
        MemoryRegion::Unknown => 0,
    }
}

/// Cycles for a cartridge access, from the two-bit wait-state setting.
pub open spec fn waitstate_cycles(ws: u16) -> u32 {
    if ws == 1 {
        2
    } else if ws == 2 {
        1
    } else {
        3
    }
}

/// The wait-state setting for a cartridge window, taken from the wait
/// control register.
pub open spec fn rom_waitstate(waitcnt: u16, window: usize, sequential: bool) -> u16 {
    if sequential {
        if window == 0 {
            (waitcnt / 4 % 4) as u16
        } else if window == 1 {
            (waitcnt / 64 % 4) as u16
        } else if window == 2 {
            (waitcnt / 1024 % 4) as u16
        } else {
            3
        }
    } else {
        if window == 0 {
            (waitcnt % 4) as u16
        } else if window == 1 {
            (waitcnt / 16 % 4) as u16
        } else if window == 2 {
            (waitcnt / 256 % 4) as u16
        } else {
            3
        }
    }
}

/// A half-word with one of its bytes replaced.
pub open spec fn replace_byte(current: u16, index: int, val: u8) -> u16 {
    if index == 0 {
        ((current / 0x100) * 0x100 + val) as u16
    } else {
        (current % 0x100 + val * 0x100) as u16
    }
}

/// A byte placed in one half of an otherwise empty half-word.
pub open spec fn place_byte(index: int, val: u8) -> u16 {
    if index == 0 {
        val as u16
    } else {
        (val * 0x100) as u16
    }
}

/// Everything the bus holds, as plain values.
pub struct MemoryView {
    pub bios: Seq<u8>,
    pub wram: Seq<u8>,
    pub iwram: Seq<u8>,
    pub io: Seq<u8>,
    pub palette: Seq<u8>,
    pub vram: Seq<u8>,
    pub oam: Seq<u8>,
    pub rom: Seq<u8>,
    pub waitcnt: u16,
    pub interrupt: InterruptView,
}

impl MemoryView {
    /// Every store has its fixed size; the cartridge image may have any.
    pub open spec fn wf(self) -> bool {
        &&& self.bios.len() == BIOS_SIZE
        &&& self.wram.len() == WRAM_SIZE
        &&& self.iwram.len() == IWRAM_SIZE
        &&& self.io.len() == IO_SIZE
        &&& self.palette.len() == PALETTE_SIZE
        &&& self.vram.len() == VRAM_SIZE
        &&& self.oam.len() == OAM_SIZE
    }

    pub open spec fn offset(self, addr: u32) -> int {
        offset_of(addr, self.rom.len())
    }

    /// Whether a boot image is present: any byte of it is set.
    pub open spec fn has_bios(self) -> bool {
        exists|i: int| 0 <= i < self.bios.len() && self.bios[i] != 0
    }

    /// A byte read from the register block. The interrupt registers answer
    /// from the controller; the display control register always shows bit 7;
    /// the key register shows every key released.
    pub open spec fn read_io(self, addr: u32) -> u8 {
        let offset = addr - 0x0400_0000;
        if addr == 0x0400_0200 {
            (self.interrupt.ie % 0x100) as u8
        } else if addr == 0x0400_0201 {
            (self.interrupt.ie / 0x100) as u8
        } else if addr == 0x0400_0202 {
            (self.interrupt.if_raw % 0x100) as u8
        } else if addr == 0x0400_0203 {
            (self.interrupt.if_raw / 0x100) as u8
        } else if addr == 0x0400_0208 {
            if self.interrupt.ime {
                1
            } else {
                0
            }
        } else if offset == 0x000 {
            self.io[0] | 0x80
        } else if offset == 0x130 || offset == 0x131 {
            0xFF
        } else {
            self.io[offset]
        }
    }

    /// A byte written to the register block. A write into the enable
    /// register replaces that byte of it; a write into the request register
    /// clears the requests whose bit is set in the byte; the wait control
    /// register takes the byte as its low half.
    pub open spec fn write_io(self, addr: u32, val: u8) -> MemoryView {
        let offset = addr - 0x0400_0000;
        if addr == 0x0400_0200 || addr == 0x0400_0201 {
            MemoryView {
                interrupt: self.interrupt.write_register(
                    0x000,
                    replace_byte(self.interrupt.ie, addr - 0x0400_0200, val),
                ),
                ..self
            }
        } else if addr == 0x0400_0202 || addr == 0x0400_0203 {
            MemoryView {
                interrupt: self.interrupt.write_register(
                    0x002,
                    place_byte(addr - 0x0400_0202, val),
                ),
                ..self
            }
        } else if addr == 0x0400_0208 {
            MemoryView { interrupt: self.interrupt.write_register(0x208, val as u16), ..self }
        } else if offset == 0x204 {
            MemoryView { waitcnt: le16(val, self.io[0x205]), ..self }
        } else {
            MemoryView { io: self.io.update(offset, val), ..self }
        }
    }

    /// The byte at an address; nothing mapped reads as zero.
    pub open spec fn read_byte(self, addr: u32) -> u8 {
        let offset = self.offset(addr);
        match region_of(addr) {
            MemoryRegion::Bios => self.bios[offset],
            MemoryRegion::Wram => self.wram[offset],
            MemoryRegion::Iwram => self.iwram[offset],
            MemoryRegion::Io => self.read_io(addr),
            MemoryRegion::Palette => self.palette[offset],
            MemoryRegion::Vram => self.vram[offset],
            MemoryRegion::Oam => self.oam[offset],
            MemoryRegion::Rom => if self.rom.len() == 0 {
                0
            } else {
                self.rom[offset]
            },
            MemoryRegion::Unknown => 0,
        }
    }

    /// One byte stored as part of a wider write: it lands at its own
    /// address. Boot ROM, cartridge and unmapped addresses discard it.
    pub open spec fn store_byte(self, addr: u32, val: u8) -> MemoryView {
        let offset = self.offset(addr);
        match region_of(addr) {
            MemoryRegion::Bios => self,
            MemoryRegion::Wram => MemoryView { wram: self.wram.update(offset, val), ..self },
            MemoryRegion::Iwram => MemoryView { iwram: self.iwram.update(offset, val), ..self },
            MemoryRegion::Io => self.write_io(addr, val),
            MemoryRegion::Palette => MemoryView {
                palette: self.palette.update(offset, val),
                ..self
            },
            MemoryRegion::Vram => MemoryView { vram: self.vram.update(offset, val), ..self },
            MemoryRegion::Oam => MemoryView { oam: self.oam.update(offset, val), ..self },
            MemoryRegion::Rom => self,
            MemoryRegion::Unknown => self,
        }
    }

    /// A write of byte width. Palette and video RAM store the byte in both
    /// halves of the half-word that holds the address; object memory
    /// ignores the write.
    pub open spec fn write_byte(self, addr: u32, val: u8) -> MemoryView {
        let offset = self.offset(addr);
        let even = offset - offset % 2;
        match region_of(addr) {
            MemoryRegion::Oam => self,
            MemoryRegion::Vram => MemoryView {
                vram: self.vram.update(even, val).update(even + 1, val),
                ..self
            },
            MemoryRegion::Palette => MemoryView {
                palette: self.palette.update(even, val).update(even + 1, val),
                ..self
            },
            _ => self.store_byte(addr, val),
        }
    }

    /// The half-word at the even address at or below `addr`.
    pub open spec fn aligned_half(self, addr: u32) -> u16 {
        let base = (addr - addr % 2) as u32;
        le16(self.read_byte(base), self.read_byte((base + 1) as u32))
    }

    /// A half-word read: the aligned half-word, rotated right by one byte
    /// when the address is odd.
    pub open spec fn read_half(self, addr: u32) -> u16 {
        rotr16_bytes(self.aligned_half(addr), (addr % 2) as int)
    }

    /// The word at the multiple of four at or below `addr`.
    pub open spec fn aligned_word(self, addr: u32) -> u32 {
        let base = (addr - addr % 4) as u32;
        le32(
            self.read_byte(base),
            self.read_byte((base + 1) as u32),
            self.read_byte((base + 2) as u32),
            self.read_byte((base + 3) as u32),
        )
    }

    /// A word read: the aligned word, rotated right by one byte for each
    /// byte of misalignment.
    pub open spec fn read_word(self, addr: u32) -> u32 {
        rotr32_bytes(self.aligned_word(addr), (addr % 4) as int)
    }

    /// A half-word write: two bytes, at the address as given and the next.
    pub open spec fn write_half(self, addr: u32, val: u16) -> MemoryView {
        self.store_byte(addr, (val % 0x100) as u8).store_byte(
            addr.wrapping_add(1),
            (val / 0x100) as u8,
        )
    }

    /// A word write: four bytes, from the address as given upwards.
    pub open spec fn write_word(self, addr: u32, val: u32) -> MemoryView {
        self.store_byte(addr, byte_of(val, 0)).store_byte(
            addr.wrapping_add(1),
            byte_of(val, 1),
        ).store_byte(addr.wrapping_add(2), byte_of(val, 2)).store_byte(
            addr.wrapping_add(3),
            byte_of(val, 3),
        )
    }

    /// Cycles that an access to `addr` takes.
    pub open spec fn access_cycles(self, addr: u32, sequential: bool) -> u32 {
        if addr <= 0x0000_3FFF {
            2
        } else if 0x0200_0000 <= addr <= 0x0203_FFFF {
            3
        } else if 0x0800_0000 <= addr <= 0x09FF_FFFF {
            waitstate_cycles(rom_waitstate(self.waitcnt, 0, sequential))
        } else if 0x0A00_0000 <= addr <= 0x0BFF_FFFF {
            waitstate_cycles(rom_waitstate(self.waitcnt, 1, sequential))
        } else if 0x0C00_0000 <= addr <= 0x0DFF_FFFF {
            waitstate_cycles(rom_waitstate(self.waitcnt, 2, sequential))
        } else {
            1
        }
    }

    /// Where a colour entry lies in palette memory: the first table for
    /// backgrounds, the second for objects.
    pub open spec fn palette_offset(pal_num: usize, index: u16) -> int {
        if pal_num == 0 {
            (index * 2) % 0x400
        } else {
            0x200 + (index * 2) % 0x200
        }
    }

    pub open spec fn palette_color(self, pal_num: usize, index: u16) -> u16 {
        let offset = Self::palette_offset(pal_num, index);
        le16(self.palette[offset], self.palette[offset + 1])
    }

    /// The state after a reset: the RAMs and registers cleared, the boot
    /// image and the cartridge kept.
    pub open spec fn reset(self) -> MemoryView {
        MemoryView {
            bios: self.bios,
            wram: Seq::new(WRAM_SIZE as nat, |i: int| 0u8),
            iwram: Seq::new(IWRAM_SIZE as nat, |i: int| 0u8),
            io: Seq::new(IO_SIZE as nat, |i: int| 0u8),
            palette: Seq::new(PALETTE_SIZE as nat, |i: int| 0u8),
            vram: Seq::new(VRAM_SIZE as nat, |i: int| 0u8),
            oam: Seq::new(OAM_SIZE as nat, |i: int| 0u8),
            rom: self.rom,
            waitcnt: 0,
            interrupt: InterruptView::reset(),
        }
    }

    /// A fresh bus: everything cleared, no boot image, no cartridge.
    pub open spec fn fresh() -> MemoryView {
        MemoryView {
            bios: Seq::new(BIOS_SIZE as nat, |i: int| 0u8),
            wram: Seq::new(WRAM_SIZE as nat, |i: int| 0u8),
            iwram: Seq::new(IWRAM_SIZE as nat, |i: int| 0u8),
            io: Seq::new(IO_SIZE as nat, |i: int| 0u8),
            palette: Seq::new(PALETTE_SIZE as nat, |i: int| 0u8),
            vram: Seq::new(VRAM_SIZE as nat, |i: int| 0u8),
            oam: Seq::new(OAM_SIZE as nat, |i: int| 0u8),
            rom: Seq::empty(),
            waitcnt: 0,
            interrupt: InterruptView::reset(),
        }
    }

    /// A boot image of the fixed size made from `data`: cut where it is
    /// longer, filled with zeros where it is shorter.
    pub open spec fn bios_image(data: Seq<u8>) -> Seq<u8> {
        Seq::new(
            BIOS_SIZE as nat,
            |i: int|
                if i < data.len() {
                    data[i]
                } else {
                    0u8
                },
        )
    }
}

/// The console's memory system.
pub struct Memory {
    pub(crate) bios: Box<[u8; 0x4000]>,
    pub(crate) wram: Box<[u8; 0x40000]>,
    pub(crate) iwram: Box<[u8; 0x8000]>,
    pub(crate) io: Box<[u8; 0x400]>,
    pub(crate) palette: Box<[u8; 0x400]>,
    pub(crate) vram: Box<[u8; 0x18000]>,
    pub(crate) oam: Box<[u8; 0x400]>,
    pub(crate) rom: Vec<u8>,
    pub(crate) waitcnt: u16,
    /// The interrupt controller, reached through the register block.
    pub interrupt: InterruptController,
}

impl View for Memory {
    type V = MemoryView;

    open(crate) spec fn view(&self) -> MemoryView {
        MemoryView {
            bios: self.bios@,
            wram: self.wram@,
            iwram: self.iwram@,
            io: self.io@,
            palette: self.palette@,
            vram: self.vram@,
            oam: self.oam@,
            rom: self.rom@,
            waitcnt: self.waitcnt,
            interrupt: self.interrupt@,
        }
    }
}

impl Memory {
    /// The view of any bus is well formed.
    pub proof fn lemma_view_wf(&self)
        ensures
            self@.wf(),
    {
    }

    pub fn new() -> (r: Self)
        ensures
            r@ == MemoryView::fresh(),
    {
        let r = Memory {
            bios: Box::new([0u8; 0x4000]),
            wram: Box::new([0u8; 0x40000]),
            iwram: Box::new([0u8; 0x8000]),
            io: Box::new([0u8; 0x400]),
            palette: Box::new([0u8; 0x400]),
            vram: Box::new([0u8; 0x18000]),
            oam: Box::new([0u8; 0x400]),
            rom: Vec::new(),
            waitcnt: 0,
            interrupt: InterruptController::new(),
        };
        proof {
            let f = MemoryView::fresh();
            assert(r@.bios =~= f.bios);
            assert(r@.wram =~= f.wram);
            assert(r@.iwram =~= f.iwram);
            assert(r@.io =~= f.io);
            assert(r@.palette =~= f.palette);
            assert(r@.vram =~= f.vram);
            assert(r@.oam =~= f.oam);
            assert(r@.rom =~= f.rom);
        }
        r
    }

    pub fn reset(&mut self)
        ensures
            final(self)@ == old(self)@.reset(),
    {
        self.wram = Box::new([0u8; 0x40000]);
        self.iwram = Box::new([0u8; 0x8000]);
        self.io = Box::new([0u8; 0x400]);
        self.palette = Box::new([0u8; 0x400]);
        self.vram = Box::new([0u8; 0x18000]);
        self.oam = Box::new([0u8; 0x400]);
        self.waitcnt = 0;
        self.interrupt.reset();
        proof {
            let f = old(self)@.reset();
            assert(self@.wram =~= f.wram);
            assert(self@.iwram =~= f.iwram);
            assert(self@.io =~= f.io);
            assert(self@.palette =~= f.palette);
            assert(self@.vram =~= f.vram);
            assert(self@.oam =~= f.oam);
        }
    }

    /// Installs a cartridge image.
    pub fn load_rom(&mut self, data: Vec<u8>)
        ensures
            final(self)@ == (MemoryView { rom: data@, ..old(self)@ }),
    {
        self.rom = data;
    }

    /// Installs a boot image, cut or zero-filled to the fixed size.
    pub fn load_bios(&mut self, data: Vec<u8>)
        ensures
            final(self)@ == (MemoryView { bios: MemoryView::bios_image(data@), ..old(self)@ }),
    {
        let mut image: Box<[u8; 0x4000]> = Box::new([0u8; 0x4000]);
        let len: usize = if data.len() < BIOS_SIZE {
            data.len()
        } else {
            BIOS_SIZE
        };
        let mut i: usize = 0;
        while i < len
            invariant
                i <= len <= BIOS_SIZE,
                len <= data.len(),
                forall|j: int| 0 <= j < i ==> image@[j] == data@[j],
                forall|j: int| i <= j < BIOS_SIZE ==> image@[j] == 0,
            decreases len - i,
        {
            image[i] = data[i];
            i = i + 1;
        }
        self.bios = image;
        proof {
            assert(self@.bios =~= MemoryView::bios_image(data@));
        }
    }

    /// Whether a boot image is present.
    pub fn has_bios(&self) -> (r: bool)
        ensures
            r == self@.has_bios(),
    {
        let mut i: usize = 0;
        while i < BIOS_SIZE
            invariant
                i <= BIOS_SIZE,
                forall|j: int| 0 <= j < i ==> self.bios@[j] == 0,
            decreases BIOS_SIZE - i,
        {
            if self.bios[i] != 0 {
                assert(self@.bios[i as int] != 0);
                return true;
            }
            i = i + 1;
        }
        false
    }

    /// Cycles that an access to `addr` takes.
    pub fn get_access_cycles(&self, addr: u32, sequential: bool) -> (r: u32)
        ensures
            r == self@.access_cycles(addr, sequential),
    {
        if addr <= 0x0000_3FFF {
            2
        } else if 0x0200_0000 <= addr && addr <= 0x0203_FFFF {
            3
        } else if 0x0800_0000 <= addr && addr <= 0x09FF_FFFF {
            self.get_rom_waitstates(0, sequential)
        } else if 0x0A00_0000 <= addr && addr <= 0x0BFF_FFFF {
            self.get_rom_waitstates(1, sequential)
        } else if 0x0C00_0000 <= addr && addr <= 0x0DFF_FFFF {
            self.get_rom_waitstates(2, sequential)
        } else {
            1
        }
    }

    pub fn get_rom_waitstates(&self, window: usize, sequential: bool) -> (r: u32)
        ensures
            r == waitstate_cycles(rom_waitstate(self@.waitcnt, window, sequential)),
    {
        let w = self.waitcnt;
        let ws: u16 = if sequential {
            if window == 0 {
                w / 4 % 4
            } else if window == 1 {
                w / 64 % 4
            } else if window == 2 {
                w / 1024 % 4
            } else {
                3
            }
        } else {
            if window == 0 {
                w % 4
            } else if window == 1 {
                w / 16 % 4
            } else if window == 2 {
                w / 256 % 4
            } else {
                3
            }
        };
        if ws == 1 {
            2
        } else if ws == 2 {
            1
        } else {
            3
        }
    }

    /// Decodes an address into its region and the offset inside it.
    pub fn map_address(&self, addr: u32) -> (r: (MemoryRegion, usize))
        ensures
            r.0 == region_of(addr),
            r.1 == self@.offset(addr),
            r.0 == MemoryRegion::Bios ==> r.1 < BIOS_SIZE,
            r.0 == MemoryRegion::Wram ==> r.1 < WRAM_SIZE,
            r.0 == MemoryRegion::Iwram ==> r.1 < IWRAM_SIZE,
            r.0 == MemoryRegion::Io ==> r.1 < IO_SIZE,
            r.0 == MemoryRegion::Palette ==> r.1 < PALETTE_SIZE,
            r.0 == MemoryRegion::Vram ==> r.1 < VRAM_SIZE,
            r.0 == MemoryRegion::Oam ==> r.1 < OAM_SIZE,
            r.0 == MemoryRegion::Rom && self@.rom.len() > 0 ==> r.1 < self@.rom.len(),
    {
        if addr <= 0x0000_3FFF {
            (MemoryRegion::Bios, addr as usize)
        } else if 0x0200_0000 <= addr && addr <= 0x020F_FFFF {
            (MemoryRegion::Wram, ((addr - 0x0200_0000) % 0x40000) as usize)
        } else if 0x0300_0000 <= addr && addr <= 0x030F_FFFF {
            (MemoryRegion::Iwram, ((addr - 0x0300_0000) % 0x8000) as usize)
        } else if 0x0400_0000 <= addr && addr <= 0x0400_03FF {
            (MemoryRegion::Io, (addr - 0x0400_0000) as usize)
        } else if 0x0500_0000 <= addr && addr <= 0x050F_FFFF {
            (MemoryRegion::Palette, ((addr - 0x0500_0000) % 0x400) as usize)
        } else if 0x0600_0000 <= addr && addr <= 0x060F_FFFF {
            (MemoryRegion::Vram, ((addr - 0x0600_0000) % 0x18000) as usize)
        } else if 0x0700_0000 <= addr && addr <= 0x070F_FFFF {
            (MemoryRegion::Oam, ((addr - 0x0700_0000) % 0x400) as usize)
        } else if 0x0800_0000 <= addr && addr <= 0x0DFF_FFFF {
            let len = self.rom.len();
            if len == 0 {
                (MemoryRegion::Rom, 0)
            } else {
                let window: usize = ((addr - 0x0800_0000) % 0x0200_0000) as usize;
                (MemoryRegion::Rom, window % len)
            }
        } else {
            (MemoryRegion::Unknown, 0)
        }
    }

    /// Reads a byte.
    pub fn read_byte(&self, addr: u32) -> (r: u8)
        ensures
            r == self@.read_byte(addr),
    {
        let (region, offset) = self.map_address(addr);
        match region {
            MemoryRegion::Bios => self.bios[offset],
            MemoryRegion::Wram => self.wram[offset],
            MemoryRegion::Iwram => self.iwram[offset],
            MemoryRegion::Io => self.read_io(addr),
            MemoryRegion::Palette => self.palette[offset],
            MemoryRegion::Vram => self.vram[offset],
            MemoryRegion::Oam => self.oam[offset],
            MemoryRegion::Rom => {
                if self.rom.len() == 0 {
                    0
                } else {
                    self.rom[offset]
                }
            },
            MemoryRegion::Unknown => 0,
        }
    }

    /// Stores one byte of a wider write at its own address.
    pub fn write_byte_internal(&mut self, addr: u32, val: u8)
        ensures
            final(self)@ == old(self)@.store_byte(addr, val),
    {
        let (region, offset) = self.map_address(addr);
        match region {
            MemoryRegion::Bios => {},
            MemoryRegion::Wram => {
                self.wram[offset] = val;
            },
            MemoryRegion::Iwram => {
                self.iwram[offset] = val;
            },
            MemoryRegion::Io => {
                self.write_io(addr, val);
            },
            MemoryRegion::Palette => {
                self.palette[offset] = val;
            },
            MemoryRegion::Vram => {
                self.vram[offset] = val;
            },
            MemoryRegion::Oam => {
                self.oam[offset] = val;
            },
            MemoryRegion::Rom => {},
            MemoryRegion::Unknown => {},
        }
    }

    /// Writes a byte.
    pub fn write_byte(&mut self, addr: u32, val: u8)
        ensures
            final(self)@ == old(self)@.write_byte(addr, val),
    {
        let (region, offset) = self.map_address(addr);
        match region {
            MemoryRegion::Oam => {},
            MemoryRegion::Vram => {
                let even: usize = offset - offset % 2;
                self.vram[even] = val;
                self.vram[even + 1] = val;
            },
            MemoryRegion::Palette => {
                let even: usize = offset - offset % 2;
                self.palette[even] = val;
                self.palette[even + 1] = val;
            },
            _ => {
                self.write_byte_internal(addr, val);
            },
        }
    }

    /// Reads a half-word.
    pub fn read_half(&self, addr: u32) -> (r: u16)
        ensures
            r == self@.read_half(addr),
    {
        let base: u32 = addr - addr % 2;
        let low = self.read_byte(base);
        let high = self.read_byte(base + 1);
        rotate_half_bytes(make_half(low, high), addr % 2)
    }

    /// Writes a half-word.
    pub fn write_half(&mut self, addr: u32, val: u16)
        ensures
            final(self)@ == old(self)@.write_half(addr, val),
    {
        self.write_byte_internal(addr, (val % 0x100) as u8);
        self.write_byte_internal(addr.wrapping_add(1), (val / 0x100) as u8);
    }

    /// Reads a word.
    pub fn read_word(&self, addr: u32) -> (r: u32)
        ensures
            r == self@.read_word(addr),
    {
        let base: u32 = addr - addr % 4;
        let b0 = self.read_byte(base);
        let b1 = self.read_byte(base + 1);
        let b2 = self.read_byte(base + 2);
        let b3 = self.read_byte(base + 3);
        rotate_word_bytes(make_word(b0, b1, b2, b3), addr % 4)
    }

    /// Writes a word.
    pub fn write_word(&mut self, addr: u32, val: u32)
        ensures
            final(self)@ == old(self)@.write_word(addr, val),
    {
        self.write_byte_internal(addr, get_byte(val, 0));
        self.write_byte_internal(addr.wrapping_add(1), get_byte(val, 1));
        self.write_byte_internal(addr.wrapping_add(2), get_byte(val, 2));
        self.write_byte_internal(addr.wrapping_add(3), get_byte(val, 3));
    }

    /// Reads a byte of the register block.
    pub fn read_io(&self, addr: u32) -> (r: u8)
        requires
            0x0400_0000 <= addr <= 0x0400_03FF,
        ensures
            r == self@.read_io(addr),
    {
        let offset: usize = (addr - 0x0400_0000) as usize;
        if addr == 0x0400_0200 {
            (self.interrupt.read_register(0x000) % 0x100) as u8
        } else if addr == 0x0400_0201 {
            (self.interrupt.read_register(0x000) / 0x100) as u8
        } else if addr == 0x0400_0202 {
            (self.interrupt.read_register(0x002) % 0x100) as u8
        } else if addr == 0x0400_0203 {
            (self.interrupt.read_register(0x002) / 0x100) as u8
        } else if addr == 0x0400_0208 {
            self.interrupt.read_register(0x208) as u8
        } else if offset == 0x000 {
            self.io[0] | 0x80
        } else if offset == 0x130 || offset == 0x131 {
            0xFF
        } else {
            self.io[offset]
        }
    }

    /// Writes a byte of the register block.
    pub fn write_io(&mut self, addr: u32, val: u8)
        requires
            0x0400_0000 <= addr <= 0x0400_03FF,
        ensures
            final(self)@ == old(self)@.write_io(addr, val),
    {
        let offset: usize = (addr - 0x0400_0000) as usize;
        if addr == 0x0400_0200 {
            let current = self.interrupt.read_register(0x000);
            self.interrupt.write_register(0x000, (current / 0x100) * 0x100 + val as u16);
        } else if addr == 0x0400_0201 {
            let current = self.interrupt.read_register(0x000);
            self.interrupt.write_register(0x000, current % 0x100 + val as u16 * 0x100);
        } else if addr == 0x0400_0202 {
            self.interrupt.write_register(0x002, val as u16);
        } else if addr == 0x0400_0203 {
            self.interrupt.write_register(0x002, val as u16 * 0x100);
        } else if addr == 0x0400_0208 {
            self.interrupt.write_register(0x208, val as u16);
        } else if offset == 0x204 {
            self.waitcnt = make_half(val, self.io[0x205]);
        } else {
            self.io[offset] = val;
        }
    }

    /// Reads a colour entry of a palette: table 0 for backgrounds, any
    /// other number for objects.
    pub fn read_palette_color(&self, pal_num: usize, index: u16) -> (r: u16)
        ensures
            r == self@.palette_color(pal_num, index),
    {
        let doubled: usize = index as usize * 2;
        let offset: usize = if pal_num == 0 {
            doubled % 0x400
        } else {
            0x200 + doubled % 0x200
        };
        make_half(self.palette[offset], self.palette[offset + 1])
    }

    /// Video RAM as it stands.
    pub fn vram(&self) -> (r: &[u8])
        ensures
            r@ == self@.vram,
    {
        self.vram.as_slice()
    }

    /// The register block as it stands.
    pub fn io(&self) -> (r: &[u8])
        ensures
            r@ == self@.io,
    {
        self.io.as_slice()
    }

    /// The register block, to be written in place.
    pub fn io_mut(&mut self) -> (r: &mut [u8])
        ensures
            r@ == old(self)@.io,
            final(self)@ == (MemoryView { io: final(r)@, ..old(self)@ }),
    {
        let block: &mut [u8; 0x400] = &mut self.io;
        block
    }

    /// Whether an address lies in the range of the interrupt registers.
    pub fn is_interrupt_register(addr: u32) -> (r: bool)
        ensures
            r == (0x0400_0000 <= addr <= 0x0400_0208),
    {
        0x0400_0000 <= addr && addr <= 0x0400_0208
    }

    /// The controller register behind an address at the start of the
    /// register block, if there is one.
    pub fn get_interrupt_register_offset(addr: u32) -> (r: Option<usize>)
        ensures
            r == if addr == 0x0400_0000 || addr == 0x0400_0001 {
                Some(0x000usize)
            } else if addr == 0x0400_0002 || addr == 0x0400_0003 {
                Some(0x002usize)
            } else if addr == 0x0400_0208 {
                Some(0x208usize)
            } else {
                None
            },
    {
        if addr == 0x0400_0000 || addr == 0x0400_0001 {
            Some(0x000)
        } else if addr == 0x0400_0002 || addr == 0x0400_0003 {
            Some(0x002)
        } else if addr == 0x0400_0208 {
            Some(0x208)
        } else {
            None
        }
    }
}

impl Default for Memory {
    fn default() -> (r: Self)
        ensures
            r@ == MemoryView::fresh(),
    {
        Memory::new()
    }
}

} // verus!
