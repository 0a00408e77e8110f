//! The console: the processor, the bus and the peripherals, stepped
//! together in a fixed order.

use vstd::prelude::*;
use crate::apu::Apu;
use crate::bits::{le16, make_half};
use crate::cpu::{Cpu, CpuView};
use crate::dma::Dma;
use crate::input::{Input, KeyState};
use crate::interrupt::{Interrupt, InterruptView};
use crate::mem::{Memory, MemoryView};
use crate::ppu::{DisplayControl, Ppu, PpuView};
use crate::step::cpu_step;
use crate::timer::Timer;

verus! {

/// Steps in one frame.
pub const FRAME_STEPS: u32 = 280896;

/// The console.
pub struct Gba {
    pub cpu: Cpu,
    pub mem: Memory,
    pub ppu: Ppu,
    pub apu: Apu,
    pub timers: [Timer; 4],
    pub dma: [Dma; 4],
    pub input: Input,
}

/// The console's state as plain values.
pub struct GbaView {
    pub cpu: CpuView,
    pub mem: MemoryView,
    pub ppu: PpuView,
    pub apu: Apu,
    pub timers: Seq<Timer>,
    pub dma: Seq<Dma>,
    pub input: Input,
}

impl View for Gba {
    type V = GbaView;

    open spec fn view(&self) -> GbaView {
        GbaView {
            cpu: self.cpu@,
            mem: self.mem@,
            ppu: self.ppu@,
            apu: self.apu,
            timers: self.timers@,
            dma: self.dma@,
            input: self.input,
        }
    }
}

/// The bus after the picture unit's status and scanline were copied into
/// the register block, at offsets 4 to 7.
pub open spec fn status_to_mem(m: MemoryView, p: PpuView) -> MemoryView {
    MemoryView {
        io: m.io.update(4, (p.dispstat_value() % 0x100) as u8).update(
            5,
            (p.dispstat_value() / 0x100) as u8,
        ).update(6, (p.vcount % 0x100) as u8).update(7, (p.vcount / 0x100) as u8),
        ..m
    }
}

/// Whether the processor enters the interrupt handler before its next
/// instruction: the controller reports an interrupt to take and the
/// processor has interrupts enabled.
pub open spec fn interrupt_due(c: CpuView, m: MemoryView) -> bool {
    m.interrupt.should_take() && c.interrupts_enabled()
}

/// The controller after the processor entered the handler for the pending
/// interrupt: latched, master switch off, the request cleared.
pub open spec fn interrupt_entered(v: InterruptView) -> InterruptView {
    let served = v.pending().unwrap();
    InterruptView {
        in_interrupt: true,
        ime: false,
        if_raw: v.if_raw & !served,
        if_processed: v.if_processed & !served,
        ..v
    }
}

/// The processor and the bus after the check for interrupts that precedes
/// each instruction.
pub open spec fn interrupt_check(c: CpuView, m: MemoryView) -> (CpuView, MemoryView) {
    if interrupt_due(c, m) {
        (c.take_interrupt(), MemoryView { interrupt: interrupt_entered(m.interrupt), ..m })
    } else {
        (c, m)
    }
}

/// The bus after the picture unit's scanline moved from `before` to
/// `after`: the start of the vertical blank raises its interrupt.
pub open spec fn vblank_raised(m: MemoryView, before: u16, after: u16) -> MemoryView {
    if before == 159 && after == 160 {
        MemoryView {
            interrupt: InterruptView {
                if_raw: m.interrupt.if_raw | (Interrupt::VBLANK & Interrupt::ALL),
                ..m.interrupt
            },
            ..m
        }
    } else {
        m
    }
}

/// The interrupt source of a DMA channel.
pub open spec fn dma_source(channel: int) -> u16 {
    if channel == 0 {
        Interrupt::DMA0
    } else if channel == 1 {
        Interrupt::DMA1
    } else if channel == 2 {
        Interrupt::DMA2
    } else {
        Interrupt::DMA3
    }
}

/// The bus after a source was requested where `due` holds.
pub open spec fn raised(m: MemoryView, due: bool, source: u16) -> MemoryView {
    if due {
        MemoryView {
            interrupt: InterruptView {
                if_raw: m.interrupt.if_raw | (source & Interrupt::ALL),
                ..m.interrupt
            },
            ..m
        }
    } else {
        m
    }
}

/// The DMA channels and the bus after the channels from `from` on were
/// stepped in turn, each raising its interrupt where one is due.
pub open spec fn dma_stepped(dma: Seq<Dma>, m: MemoryView, from: int) -> (Seq<Dma>, MemoryView)
    decreases 4 - from,
{
    if from < 0 || from >= 4 {
        (dma, m)
    } else {
        let one = dma[from].stepped(m);
        dma_stepped(dma.update(from, one.0), raised(one.1, one.2, dma_source(from)), from + 1)
    }
}

/// The size in pixels of a background's map, from the two size bits of its
/// control register. The matrix backgrounds of mode 2 are square.
pub open spec fn map_size(mode: u8, bg: usize, size: u16) -> (u16, u16) {
    if mode == 2 && (bg == 2 || bg == 3) {
        if size == 0 {
            (128, 128)
        } else if size == 1 {
            (256, 256)
        } else if size == 2 {
            (512, 512)
        } else {
            (1024, 1024)
        }
    } else {
        if size == 0 {
            (256, 256)
        } else if size == 1 {
            (512, 256)
        } else if size == 2 {
            (256, 512)
        } else {
            (512, 512)
        }
    }
}

impl GbaView {
    /// The colour index that a background shows at a screen position, and
    /// the palette entry that the index stands for.
    pub open spec fn background_pixel(self, bg: usize, x: u16, y: u16) -> (u8, u16) {
        let p = self.ppu;
        let bgcnt = p.bgcnt[bg as int];
        let size = (bgcnt / 0x4000) as u16;
        let (width, height) = map_size(p.display_mode(), bg, size);
        let bg_x = ((x + p.bg_hofs[bg as int]) % (width as int)) as u16;
        let bg_y = ((y + p.bg_vofs[bg as int]) % (height as int)) as u16;
        let entry = p.screen_entry(
            ((bgcnt / 256 % 32) * 2) as usize,
            (bg_x / 8) as u16,
            (bg_y / 8) as u16,
            (width / 8) as u16,
            (height / 8) as u16,
        );
        let tile_num = (entry % 0x400) as u16;
        let flip_h = entry / 0x400 % 2 == 1;
        let flip_v = entry / 0x800 % 2 == 1;
        let palette_num = (entry / 0x1000) as u16;
        let tile_base = ((bgcnt / 4 % 4) * 16) as usize;
        if bgcnt / 0x80 % 2 == 1 {
            let index = p.tile_pixel_8bpp(
                tile_base,
                tile_num,
                (bg_x % 8) as u8,
                (bg_y % 8) as u8,
                flip_h,
                flip_v,
            );
            (index, index as u16)
        } else {
            let index = p.tile_pixel_4bpp(
                tile_base,
                tile_num,
                (bg_x % 8) as u8,
                (bg_y % 8) as u8,
                flip_h,
                flip_v,
            );
            (index, (palette_num * 16 + index) as u16)
        }
    }

    /// Whether a background is switched on.
    pub open spec fn bg_enabled(self, bg: usize) -> bool {
        self.ppu.dispcnt & crate::ppu::bit_mask((8 + bg) as usize) == crate::ppu::bit_mask(
            (8 + bg) as usize,
        )
    }

    /// The colour at a screen position in the tile modes: that of the
    /// first background from `bg` on that is switched on and not
    /// transparent there; black where there is none.
    pub open spec fn tile_color(self, x: u16, y: u16, bg: usize) -> u16
        decreases 4 - bg,
    {
        if bg >= 4 {
            0
        } else if self.bg_enabled(bg) && self.background_pixel(bg, x, y).0 != 0 {
            self.mem.palette_color(0, self.background_pixel(bg, x, y).1)
        } else {
            self.tile_color(x, y, (bg + 1) as usize)
        }
    }

    /// Where the shown page of a paged bitmap starts in video RAM.
    pub open spec fn page_base(self) -> int {
        if self.ppu.dispcnt & DisplayControl::FRAME_1 != 0 {
            0xA000
        } else {
            0
        }
    }

    /// The half-word of the bus's video RAM at an offset; nothing past the
    /// end.
    pub open spec fn bus_vram_half(self, offset: int) -> u16 {
        if offset + 1 < self.mem.vram.len() {
            le16(self.mem.vram[offset], self.mem.vram[offset + 1])
        } else {
            0
        }
    }

    /// The colour at a screen position. Modes 0 to 2 show tiles; mode 3 a
    /// sixteen-bit bitmap of 240 columns; mode 4 a paged eight-bit bitmap
    /// that indexes the background palette; mode 5 a paged sixteen-bit
    /// bitmap of 160 columns. Other modes show nothing.
    pub open spec fn pixel(self, x: u16, y: u16) -> u16 {
        let mode = self.ppu.display_mode();
        if mode <= 2 {
            self.tile_color(x, y, 0)
        } else if mode == 3 {
            self.bus_vram_half((y * 240 + x) * 2)
        } else if mode == 4 {
            let offset = self.page_base() + y * 240 + x;
            if offset < self.mem.vram.len() {
                self.mem.palette_color(0, self.mem.vram[offset] as u16)
            } else {
                0
            }
        } else if mode == 5 {
            self.bus_vram_half(self.page_base() + (y * 160 + x) * 2)
        } else {
            0
        }
    }

    /// The console after one step: the picture unit's status is copied to
    /// the bus, a due interrupt is entered, the processor executes one
    /// instruction, and the picture unit, the sound unit, the timers and
    /// the DMA channels are stepped with the cycles that it took. The start
    /// of the vertical blank raises its interrupt.
    pub open spec fn stepped(self) -> GbaView {
        let synced = status_to_mem(self.mem, self.ppu);
        let checked = interrupt_check(self.cpu, synced);
        let executed = cpu_step(checked.0, checked.1);
        let cycles = executed.2;
        let ppu = self.ppu.stepped(cycles);
        let moved = dma_stepped(
            self.dma,
            vblank_raised(executed.1, self.ppu.vcount, ppu.vcount),
            0,
        );
        GbaView {
            cpu: executed.0,
            mem: moved.1,
            ppu,
            apu: self.apu.stepped(cycles),
            timers: Seq::new(4, |i: int| self.timers[i].stepped(cycles)),
            dma: moved.0,
            ..self
        }
    }

    /// The console after `n` steps.
    pub open spec fn run(self, n: nat) -> GbaView
        decreases n,
    {
        if n == 0 {
            self
        } else {
            self.stepped().run((n - 1) as nat)
        }
    }

    /// The picture unit after it took display control and video RAM from
    /// the bus.
    pub open spec fn ppu_synced(self) -> PpuView {
        PpuView {
            vram: self.ppu.synced(self.mem.vram),
            dispcnt: le16(self.mem.io[0], self.mem.io[1]) & DisplayControl::ALL,
            ..self.ppu
        }
    }

    /// The picture unit after it took all its registers and video RAM from
    /// the bus: display control, the four background control registers
    /// from offset 8, the scroll offsets from offset 16, and the two
    /// blending registers from offset 0x50.
    pub open spec fn ppu_synced_full(self) -> PpuView {
        let io = self.mem.io;
        PpuView {
            bgcnt: Seq::new(4, |bg: int| le16(io[8 + bg * 2], io[9 + bg * 2])),
            bg_hofs: Seq::new(
                4,
                |bg: int| (le16(io[16 + bg * 4], io[17 + bg * 4]) & 0x1FF) & 0x1FF,
            ),
            bg_vofs: Seq::new(
                4,
                |bg: int| (le16(io[18 + bg * 4], io[19 + bg * 4]) & 0x1FF) & 0x1FF,
            ),
            bldcnt: le16(io[0x50], io[0x51]),
            bldalpha: le16(io[0x52], io[0x53]),
            ..self.ppu_synced()
        }
    }
}

/// A run is the run of its first steps, continued.
pub proof fn lemma_run_split(v: GbaView, a: nat, b: nat)
    ensures
        v.run(a + b) == v.run(a).run(b),
    decreases a,
{
    if a > 0 {
        lemma_run_split(v.stepped(), (a - 1) as nat, b);
    }
}

impl Gba {
    /// A console with the processor reset and everything else cleared.
    pub fn new() -> (r: Self)
        ensures
            r@.cpu == CpuView::booted(),
            r@.mem == MemoryView::fresh(),
            r@.ppu == PpuView::initial(),
            r@.apu.is_initial(),
            forall|i: int| 0 <= i < 4 ==> r@.timers[i] == Timer::initial(i as u8),
            forall|i: int| 0 <= i < 4 ==> r@.dma[i] == Dma::initial(i as u8),
            r@.input.keys@ == KeyState::ALL,
            r@.input.keys_changed@ == 0,
    {
        let mut gba = Gba {
            cpu: Cpu::new(),
            mem: Memory::new(),
            ppu: Ppu::new(),
            apu: Apu::new(),
            timers: [Timer::new(0), Timer::new(1), Timer::new(2), Timer::new(3)],
            dma: [Dma::new(0), Dma::new(1), Dma::new(2), Dma::new(3)],
            input: Input::new(),
        };
        gba.cpu.reset();
        gba
    }

    /// Resets every part. The cartridge and the boot image stay.
    pub fn reset(&mut self)
        ensures
            final(self)@.cpu == CpuView::booted(),
            final(self)@.mem == old(self)@.mem.reset(),
            final(self)@.ppu == PpuView::initial(),
            final(self)@.apu.is_initial(),
            forall|i: int|
                0 <= i < 4 ==> final(self)@.timers[i] == Timer::initial(old(self)@.timers[i].num),
            forall|i: int| 0 <= i < 4 ==> final(self)@.dma[i] == old(self)@.dma[i].after_reset(),
            final(self)@.input.keys@ == KeyState::ALL,
            final(self)@.input.keys_changed@ == 0,
    {
        self.cpu.reset();
        self.mem.reset();
        self.ppu.reset();
        self.apu.reset();
        self.timers[0].reset();
        self.timers[1].reset();
        self.timers[2].reset();
        self.timers[3].reset();
        self.dma[0].reset();
        self.dma[1].reset();
        self.dma[2].reset();
        self.dma[3].reset();
        self.input.reset();
    }

    /// Runs the console for one frame.
    pub fn run_frame(&mut self)
        ensures
            final(self)@ == old(self)@.run(FRAME_STEPS as nat),
    {
        let mut done: u32 = 0;
        while done < FRAME_STEPS
            invariant
                done <= FRAME_STEPS,
                self@ == old(self)@.run(done as nat),
            decreases FRAME_STEPS - done,
        {
            proof {
                lemma_run_split(old(self)@, done as nat, 1);
                assert(self@.stepped().run(0) == self@.stepped());
            }
            self.step();
            done = done + 1;
        }
    }

    /// Executes a single step.
    pub fn step(&mut self)
        ensures
            final(self)@ == old(self)@.stepped(),
    {
        self.sync_ppu_to_mem();
        if self.mem.interrupt.should_take_interrupt() && self.cpu.are_interrupts_enabled() {
            match self.mem.interrupt.get_pending() {
                Some(interrupt) => {
                    self.cpu.take_interrupt(&mut self.mem);
                    self.mem.interrupt.enter_interrupt();
                    self.mem.interrupt.acknowledge(interrupt);
                },
                None => {},
            }
        }
        let cycles = self.cpu.step(&mut self.mem);
        let vblank_start = self.ppu.step_vblank_check(cycles);
        if vblank_start {
            self.mem.interrupt.request(Interrupt::from_bits_truncate(Interrupt::VBLANK));
        }
        self.apu.step(cycles);
        self.timers[0].step(cycles);
        self.timers[1].step(cycles);
        self.timers[2].step(cycles);
        self.timers[3].step(cycles);
        proof {
            assert(self@.timers =~= old(self)@.stepped().timers);
        }
        let ghost before = self@;
        let mut channel: usize = 0;
        while channel < 4
            invariant
                channel <= 4,
                self@ == (GbaView { dma: self@.dma, mem: self@.mem, ..before }),
                self@.dma.len() == 4,
                dma_stepped(before.dma, before.mem, 0) == dma_stepped(
                    self@.dma,
                    self@.mem,
                    channel as int,
                ),
            decreases 4 - channel,
        {
            let due = self.dma[channel].step(cycles, &mut self.mem);
            if due {
                let source: u16 = if channel == 0 {
                    Interrupt::DMA0
                } else if channel == 1 {
                    Interrupt::DMA1
                } else if channel == 2 {
                    Interrupt::DMA2
                } else {
                    Interrupt::DMA3
                };
                self.mem.interrupt.request(Interrupt::from_bits_truncate(source));
            }
            channel = channel + 1;
        }
    }

    /// Installs a cartridge image.
    pub fn load_rom(&mut self, data: Vec<u8>)
        ensures
            final(self)@ == (GbaView {
                mem: MemoryView { rom: data@, ..old(self)@.mem },
                ..old(self)@
            }),
    {
        self.mem.load_rom(data);
    }

    pub fn ppu(&self) -> (r: &Ppu)
        ensures
            *r == self.ppu,
    {
        &self.ppu
    }

    pub fn ppu_mut(&mut self) -> (r: &mut Ppu)
        ensures
            *r == old(self).ppu,
            *final(self) == (Gba { ppu: *final(r), ..*old(self) }),
    {
        &mut self.ppu
    }

    /// Copies display control and video RAM from the bus to the picture
    /// unit.
    pub fn sync_ppu(&mut self)
        ensures
            final(self)@ == (GbaView { ppu: old(self)@.ppu_synced(), ..old(self)@ }),
    {
        self.ppu.sync_vram(self.mem.vram());
        let dispcnt = make_half(self.mem.io[0], self.mem.io[1]);
        self.ppu.set_dispcnt(dispcnt);
    }

    /// Copies the picture unit's status and scanline into the register
    /// block of the bus.
    pub fn sync_ppu_to_mem(&mut self)
        ensures
            final(self)@ == (GbaView {
                mem: status_to_mem(old(self)@.mem, old(self)@.ppu),
                ..old(self)@
            }),
    {
        let dispstat = self.ppu.get_dispstat();
        let vcount = self.ppu.get_vcount();
        let io = self.mem.io_mut();
        io[0x04] = (dispstat % 0x100) as u8;
        io[0x05] = (dispstat / 0x100) as u8;
        io[0x06] = (vcount % 0x100) as u8;
        io[0x07] = (vcount / 0x100) as u8;
    }

    fn io_half(&self, offset: usize) -> (r: u16)
        requires
            offset + 1 < 0x400,
        ensures
            r == le16(self@.mem.io[offset as int], self@.mem.io[offset + 1]),
    {
        make_half(self.mem.io[offset], self.mem.io[offset + 1])
    }

    /// Copies every register of the picture unit, and video RAM, from the
    /// bus.
    pub fn sync_ppu_full(&mut self)
        ensures
            final(self)@ == (GbaView { ppu: old(self)@.ppu_synced_full(), ..old(self)@ }),
    {
        self.sync_ppu();
        proof {
            self.ppu.lemma_view_wf();
            old(self).ppu.lemma_view_wf();
        }
        let mut bg: usize = 0;
        while bg < 4
            invariant
                bg <= 4,
                self@ == (GbaView { ppu: self@.ppu, ..old(self)@ }),
                self@.ppu == (PpuView {
                    bgcnt: self@.ppu.bgcnt,
                    bg_hofs: self@.ppu.bg_hofs,
                    bg_vofs: self@.ppu.bg_vofs,
                    ..old(self)@.ppu_synced()
                }),
                self@.ppu.bgcnt.len() == 4,
                self@.ppu.bg_hofs.len() == 4,
                self@.ppu.bg_vofs.len() == 4,
                forall|i: int|
                    0 <= i < bg ==> self@.ppu.bgcnt[i] == old(self)@.ppu_synced_full().bgcnt[i]
                        && self@.ppu.bg_hofs[i] == old(self)@.ppu_synced_full().bg_hofs[i]
                        && self@.ppu.bg_vofs[i] == old(self)@.ppu_synced_full().bg_vofs[i],
                forall|i: int|
                    bg <= i < 4 ==> self@.ppu.bgcnt[i] == old(self)@.ppu.bgcnt[i]
                        && self@.ppu.bg_hofs[i] == old(self)@.ppu.bg_hofs[i]
                        && self@.ppu.bg_vofs[i] == old(self)@.ppu.bg_vofs[i],
            decreases 4 - bg,
        {
            let bgcnt = self.io_half(8 + bg * 2);
            let hofs = self.io_half(16 + bg * 4) & 0x1FF;
            let vofs = self.io_half(18 + bg * 4) & 0x1FF;
            self.ppu.set_bgcnt(bg, bgcnt);
            self.ppu.set_bg_hofs(bg, hofs);
            self.ppu.set_bg_vofs(bg, vofs);
            proof {
                self.ppu.lemma_view_wf();
            }
            bg = bg + 1;
        }
        let bldcnt = self.io_half(0x50);
        let bldalpha = self.io_half(0x52);
        self.ppu.set_blend_control(bldcnt);
        self.ppu.set_blend_alpha(bldalpha);
        proof {
            let want = old(self)@.ppu_synced_full();
            assert(self@.ppu.bgcnt =~= want.bgcnt);
            assert(self@.ppu.bg_hofs =~= want.bg_hofs);
            assert(self@.ppu.bg_vofs =~= want.bg_vofs);
        }
    }

    pub fn input_mut(&mut self) -> (r: &mut Input)
        ensures
            *r == old(self).input,
            *final(self) == (Gba { input: *final(r), ..*old(self) }),
    {
        &mut self.input
    }

    pub fn cpu(&self) -> (r: &Cpu)
        ensures
            *r == self.cpu,
    {
        &self.cpu
    }

    pub fn cpu_mut(&mut self) -> (r: &mut Cpu)
        ensures
            *r == old(self).cpu,
            *final(self) == (Gba { cpu: *final(r), ..*old(self) }),
    {
        &mut self.cpu
    }

    pub fn cpu_pc(&self) -> (r: u32)
        ensures
            r == self@.cpu.pc(),
    {
        self.cpu.get_pc()
    }

    pub fn cpu_reg(&self, n: usize) -> (r: u32)
        requires
            n < 16,
        ensures
            r == self@.cpu.regs[n as int],
    {
        self.cpu.get_reg(n)
    }

    pub fn cpu_get_cpsr(&self) -> (r: u32)
        ensures
            r == self@.cpu.cpsr,
    {
        self.cpu.get_cpsr()
    }

    pub fn mem(&self) -> (r: &Memory)
        ensures
            *r == self.mem,
    {
        &self.mem
    }

    pub fn mem_read_word(&mut self, addr: u32) -> (r: u32)
        ensures
            r == old(self)@.mem.read_word(addr),
            *final(self) == *old(self),
    {
        self.mem.read_word(addr)
    }

    pub fn mem_mut(&mut self) -> (r: &mut Memory)
        ensures
            *r == old(self).mem,
            *final(self) == (Gba { mem: *final(r), ..*old(self) }),
    {
        &mut self.mem
    }

    pub fn write_byte(&mut self, addr: u32, val: u8)
        ensures
            final(self)@ == (GbaView { mem: old(self)@.mem.write_byte(addr, val), ..old(self)@ }),
    {
        self.mem.write_byte(addr, val);
    }

    pub fn write_half(&mut self, addr: u32, val: u16)
        ensures
            final(self)@ == (GbaView { mem: old(self)@.mem.write_half(addr, val), ..old(self)@ }),
    {
        self.mem.write_half(addr, val);
    }

    pub fn write_word(&mut self, addr: u32, val: u32)
        ensures
            final(self)@ == (GbaView { mem: old(self)@.mem.write_word(addr, val), ..old(self)@ }),
    {
        self.mem.write_word(addr, val);
    }

    pub fn read_byte(&mut self, addr: u32) -> (r: u8)
        ensures
            r == old(self)@.mem.read_byte(addr),
            *final(self) == *old(self),
    {
        self.mem.read_byte(addr)
    }

    /// Reads a colour entry of a palette from the bus.
    pub fn get_palette_color(&self, pal_num: usize, index: u16) -> (r: u16)
        ensures
            r == self@.mem.palette_color(pal_num, index),
    {
        self.mem.read_palette_color(pal_num, index)
    }

    fn map_size(mode: u8, bg: usize, size: u16) -> (r: (u16, u16))
        ensures
            r == map_size(mode, bg, size),
    {
        if mode == 2 && (bg == 2 || bg == 3) {
            if size == 0 {
                (128, 128)
            } else if size == 1 {
                (256, 256)
            } else if size == 2 {
                (512, 512)
            } else {
                (1024, 1024)
            }
        } else {
            if size == 0 {
                (256, 256)
            } else if size == 1 {
                (512, 256)
            } else if size == 2 {
                (256, 512)
            } else {
                (512, 512)
            }
        }
    }

    /// What a background shows at a screen position: the colour index and
    /// the palette entry it stands for.
    pub fn background_pixel(&self, bg: usize, x: u16, y: u16) -> (r: (u8, u16))
        requires
            bg < 4,
        ensures
            r == self@.background_pixel(bg, x, y),
    {
        proof {
            self.ppu.lemma_view_wf();
        }
        let mode = self.ppu.get_display_mode();
        let bgcnt = self.ppu.get_bgcnt(bg);
        let size: u16 = bgcnt / 0x4000;
        let (width, height) = Self::map_size(mode, bg, size);
        let hofs = self.ppu.get_bg_hofs(bg);
        let vofs = self.ppu.get_bg_vofs(bg);
        let bg_x: u16 = ((x as u32 + hofs as u32) % width as u32) as u16;
        let bg_y: u16 = ((y as u32 + vofs as u32) % height as u32) as u16;
        let screen_base = self.ppu.get_bg_map_base(bg) as usize;
        let entry = self.ppu.get_screen_entry(
            screen_base,
            bg_x / 8,
            bg_y / 8,
            size,
            width / 8,
            height / 8,
        );
        let (tile_num, flip_h, flip_v, palette_num, _priority) = Ppu::parse_screen_entry(entry);
        let tile_base = self.ppu.get_bg_tile_base(bg) as usize;
        if bgcnt / 0x80 % 2 == 1 {
            let index = self.ppu.get_tile_pixel_8bpp(
                tile_base,
                tile_num,
                (bg_x % 8) as u8,
                (bg_y % 8) as u8,
                flip_h,
                flip_v,
            );
            (index, index as u16)
        } else {
            let index = self.ppu.get_tile_pixel_4bpp(
                tile_base,
                tile_num,
                (bg_x % 8) as u8,
                (bg_y % 8) as u8,
                palette_num,
                flip_h,
                flip_v,
            );
            (index, palette_num * 16 + index as u16)
        }
    }

    fn bus_vram_half(&self, offset: usize) -> (r: u16)
        requires
            offset < 0x1000_0000,
        ensures
            r == self@.bus_vram_half(offset as int),
    {
        let vram = self.mem.vram();
        if offset + 1 < vram.len() {
            make_half(vram[offset], vram[offset + 1])
        } else {
            0
        }
    }

    /// The colour at a screen position.
    pub fn get_pixel_tile_mode(&self, x: u16, y: u16) -> (r: u16)
        ensures
            r == self@.pixel(x, y),
    {
        let mode = self.ppu.get_display_mode();
        if mode <= 2 {
            let mut bg: usize = 0;
            while bg < 4
                invariant
                    bg <= 4,
                    mode == self@.ppu.display_mode(),
                    mode <= 2,
                    self@.tile_color(x, y, 0) == self@.tile_color(x, y, bg),
                decreases 4 - bg,
            {
                if self.ppu.is_bg_enabled(bg) {
                    let (index, entry) = self.background_pixel(bg, x, y);
                    if index != 0 {
                        return self.get_palette_color(0, entry);
                    }
                }
                bg = bg + 1;
            }
            0
        } else if mode == 3 {
            self.bus_vram_half((y as usize * 240 + x as usize) * 2)
        } else if mode == 4 {
            let page: usize = if self.ppu.get_dispcnt() & DisplayControl::FRAME_1 != 0 {
                0xA000
            } else {
                0
            };
            let vram = self.mem.vram();
            let offset: usize = page + y as usize * 240 + x as usize;
            if offset < vram.len() {
                self.get_palette_color(0, vram[offset] as u16)
            } else {
                0
            }
        } else if mode == 5 {
            let page: usize = if self.ppu.get_dispcnt() & DisplayControl::FRAME_1 != 0 {
                0xA000
            } else {
                0
            };
            self.bus_vram_half(page + (y as usize * 160 + x as usize) * 2)
        } else {
            0
        }
    }
}

impl Default for Gba {
    fn default() -> (r: Self)
        ensures
            r@.cpu == CpuView::booted(),
            r@.mem == MemoryView::fresh(),
            r@.ppu == PpuView::initial(),
            r@.apu.is_initial(),
            forall|i: int| 0 <= i < 4 ==> r@.timers[i] == Timer::initial(i as u8),
            forall|i: int| 0 <= i < 4 ==> r@.dma[i] == Dma::initial(i as u8),
            r@.input.keys@ == KeyState::ALL,
            r@.input.keys_changed@ == 0,
    {
        Gba::new()
    }
}

} // verus!
