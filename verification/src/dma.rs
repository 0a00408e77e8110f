//! The DMA channels: each copies a run of half-words or words from one
//! address to another when it is triggered.

use vstd::prelude::*;
use crate::mem::{Memory, MemoryView};

verus! {

/// What starts a transfer.
#[derive(Debug, Clone, Copy, PartialEq, Eq, Structural)]
pub enum DmaTransferMode {
    Immediate,
    VBlank,
    HBlank,
    Special,
}

/// The unit of a transfer.
#[derive(Debug, Clone, Copy, PartialEq, Eq, Structural)]
pub enum DmaTransferType {
    HalfWord,
    Word,
}

/// One DMA channel.
pub struct Dma {
    pub num: u8,
    pub src_addr: u32,
    pub dst_addr: u32,
    pub count: u16,
    pub control: u16,
    pub enabled: bool,
    pub transfer_type: DmaTransferType,
    pub repeat: bool,
    /// Direction of the source address: 1 up, -1 down, 0 fixed.
    pub src_increment: i8,
    /// Direction of the destination address: 1 up, -1 down, 0 fixed.
    pub dst_increment: i8,
    pub trigger: DmaTransferMode,
    pub irq: bool,
    pub active: bool,
    pub current_src: u32,
    pub current_dst: u32,
    pub current_count: u32,
}

/// The direction that a two-bit address control selects for the source.
pub open spec fn direction_of(code: u16) -> i8 {
    if code == 1 {
        -1i8
    } else if code == 2 {
        0i8
    } else {
        1i8
    }
}

pub open spec fn trigger_of(code: u16) -> DmaTransferMode {
    if code == 0 {
        DmaTransferMode::Immediate
    } else if code == 1 {
        DmaTransferMode::VBlank
    } else if code == 2 {
        DmaTransferMode::HBlank
    } else {
        DmaTransferMode::Special
    }
}

/// An address moved by one unit in a direction.
pub open spec fn moved(addr: u32, direction: i8, size: u32) -> u32 {
    if direction > 0 {
        addr.wrapping_add(size)
    } else if direction < 0 {
        addr.wrapping_sub(size)
    } else {
        addr
    }
}

impl Dma {
    pub open spec fn initial(num: u8) -> Dma {
        Dma {
            num,
            src_addr: 0,
            dst_addr: 0,
            count: 0,
            control: 0,
            enabled: false,
            transfer_type: DmaTransferType::HalfWord,
            repeat: false,
            src_increment: 0,
            dst_increment: 0,
            trigger: DmaTransferMode::Immediate,
            irq: false,
            active: false,
            current_src: 0,
            current_dst: 0,
            current_count: 0,
        }
    }

    /// The channel after a reset: as new, but for the working addresses
    /// and the working count, which stay.
    pub open spec fn after_reset(self) -> Dma {
        Dma {
            current_src: self.current_src,
            current_dst: self.current_dst,
            current_count: self.current_count,
            ..Dma::initial(self.num)
        }
    }

    /// The number of units to move: the count register, where zero stands
    /// for the most a channel can move.
    pub open spec fn units(self) -> u32 {
        if self.count == 0 {
            if self.num == 3 {
                0x1_0000
            } else {
                0x4000
            }
        } else {
            self.count as u32
        }
    }

    pub open spec fn unit_size(self) -> u32 {
        match self.transfer_type {
            DmaTransferType::HalfWord => 2,
            DmaTransferType::Word => 4,
        }
    }

    /// The channel armed for a transfer: working addresses and count
    /// loaded from the registers.
    pub open spec fn started(self) -> Dma {
        Dma {
            current_src: self.src_addr,
            current_dst: self.dst_addr,
            current_count: self.units(),
            active: true,
            ..self
        }
    }

    /// The channel with its control register decoded: destination control
    /// in bits 5 and 6, source control in bits 7 and 8, repeat in bit 9,
    /// unit in bit 10, trigger in bits 12 and 13, interrupt in bit 14,
    /// enable in bit 15.
    pub open spec fn decoded(self, value: u16) -> Dma {
        Dma {
            control: value,
            transfer_type: if value / 0x400 % 2 == 1 {
                DmaTransferType::Word
            } else {
                DmaTransferType::HalfWord
            },
            src_increment: direction_of((value / 0x80 % 4) as u16),
            dst_increment: direction_of((value / 0x20 % 4) as u16),
            repeat: value / 0x200 % 2 == 1,
            trigger: trigger_of((value / 0x1000 % 4) as u16),
            irq: value / 0x4000 % 2 == 1,
            enabled: value / 0x8000 % 2 == 1,
            ..self
        }
    }

    /// The channel after a write to its control register; a channel that
    /// becomes enabled is armed.
    pub open spec fn with_control(self, value: u16) -> Dma {
        if self.decoded(value).enabled && !self.enabled {
            self.decoded(value).started()
        } else {
            self.decoded(value)
        }
    }

    /// The bus after `count` units were copied from `src` to `dst`.
    pub open spec fn copied(self, m: MemoryView, src: u32, dst: u32, count: nat) -> MemoryView
        decreases count,
    {
        if count == 0 {
            m
        } else {
            let next = match self.transfer_type {
                DmaTransferType::HalfWord => m.write_half(dst, m.read_half(src)),
                DmaTransferType::Word => m.write_word(dst, m.read_word(src)),
            };
            self.copied(
                next,
                moved(src, self.src_increment, self.unit_size()),
                moved(dst, self.dst_increment, self.unit_size()),
                (count - 1) as nat,
            )
        }
    }

    /// An address after `count` units.
    pub open spec fn travelled(addr: u32, direction: i8, size: u32, count: nat) -> u32
        decreases count,
    {
        if count == 0 {
            addr
        } else {
            Self::travelled(moved(addr, direction, size), direction, size, (count - 1) as nat)
        }
    }

    /// Whether the channel runs again at its next trigger.
    pub open spec fn repeats(self) -> bool {
        self.repeat && self.trigger != DmaTransferMode::Immediate
    }

    /// The channel after a transfer. A repeating channel is armed again;
    /// any other is switched off, with the enable bit of its control
    /// register cleared.
    pub open spec fn finished(self) -> Dma {
        if self.repeats() {
            Dma {
                current_src: self.src_addr,
                current_dst: self.dst_addr,
                current_count: self.units(),
                ..self
            }
        } else {
            Dma {
                current_src: Self::travelled(
                    self.current_src,
                    self.src_increment,
                    self.unit_size(),
                    self.current_count as nat,
                ),
                current_dst: Self::travelled(
                    self.current_dst,
                    self.dst_increment,
                    self.unit_size(),
                    self.current_count as nat,
                ),
                current_count: 0,
                active: false,
                enabled: false,
                control: (self.control % 0x8000) as u16,
                ..self
            }
        }
    }

    /// Whether a step of the console runs the channel: it is armed,
    /// enabled, and set to start at once.
    pub open spec fn runs_at_once(self) -> bool {
        self.active && self.enabled && self.trigger == DmaTransferMode::Immediate
    }

    /// The channel, the bus and whether an interrupt is due after a step of
    /// the console.
    pub open spec fn stepped(self, m: MemoryView) -> (Dma, MemoryView, bool) {
        if self.runs_at_once() {
            (
                self.finished(),
                self.copied(m, self.current_src, self.current_dst, self.current_count as nat),
                self.irq,
            )
        } else {
            (self, m, false)
        }
    }

    pub fn new(num: u8) -> (r: Self)
        ensures
            r == Dma::initial(num),
    {
        Dma {
            num,
            src_addr: 0,
            dst_addr: 0,
            count: 0,
            control: 0,
            enabled: false,
            transfer_type: DmaTransferType::HalfWord,
            repeat: false,
            src_increment: 0,
            dst_increment: 0,
            trigger: DmaTransferMode::Immediate,
            irq: false,
            active: false,
            current_src: 0,
            current_dst: 0,
            current_count: 0,
        }
    }

    pub fn reset(&mut self)
        ensures
            *final(self) == old(self).after_reset(),
    {
        self.src_addr = 0;
        self.dst_addr = 0;
        self.count = 0;
        self.control = 0;
        self.enabled = false;
        self.active = false;
        self.transfer_type = DmaTransferType::HalfWord;
        self.repeat = false;
        self.src_increment = 0;
        self.dst_increment = 0;
        self.trigger = DmaTransferMode::Immediate;
        self.irq = false;
    }

    pub fn get_control(&self) -> (r: u16)
        ensures
            r == self.control,
    {
        self.control
    }

    fn decode_direction(code: u16) -> (r: i8)
        ensures
            r == direction_of(code),
    {
        if code == 1 {
            -1
        } else if code == 2 {
            0
        } else {
            1
        }
    }

    /// Writes the control register.
    pub fn set_control(&mut self, value: u16)
        ensures
            *final(self) == old(self).with_control(value),
    {
        let was_enabled = self.enabled;
        self.control = value;
        self.transfer_type = if value / 0x400 % 2 == 1 {
            DmaTransferType::Word
        } else {
            DmaTransferType::HalfWord
        };
        self.src_increment = Self::decode_direction(value / 0x80 % 4);
        self.dst_increment = Self::decode_direction(value / 0x20 % 4);
        self.repeat = value / 0x200 % 2 == 1;
        let code: u16 = value / 0x1000 % 4;
        self.trigger = if code == 0 {
            DmaTransferMode::Immediate
        } else if code == 1 {
            DmaTransferMode::VBlank
        } else if code == 2 {
            DmaTransferMode::HBlank
        } else {
            DmaTransferMode::Special
        };
        self.irq = value / 0x4000 % 2 == 1;
        self.enabled = value / 0x8000 % 2 == 1;
        if self.enabled && !was_enabled {
            self.start_transfer();
        }
    }

    fn unit_count(&self) -> (r: u32)
        ensures
            r == self.units(),
    {
        if self.count == 0 {
            if self.num == 3 {
                0x1_0000
            } else {
                0x4000
            }
        } else {
            self.count as u32
        }
    }

    /// Arms the channel.
    pub fn start_transfer(&mut self)
        ensures
            *final(self) == old(self).started(),
    {
        self.current_src = self.src_addr;
        self.current_dst = self.dst_addr;
        self.current_count = self.unit_count();
        self.active = true;
    }

    pub fn is_enabled(&self) -> (r: bool)
        ensures
            r == self.enabled,
    {
        self.enabled
    }

    pub fn is_active(&self) -> (r: bool)
        ensures
            r == self.active,
    {
        self.active
    }

    pub fn get_trigger(&self) -> (r: DmaTransferMode)
        ensures
            r == self.trigger,
    {
        self.trigger
    }

    pub fn get_src_addr(&self) -> (r: u32)
        ensures
            r == self.src_addr,
    {
        self.src_addr
    }

    pub fn set_src_addr(&mut self, addr: u32)
        ensures
            *final(self) == (Dma { src_addr: addr, ..*old(self) }),
    {
        self.src_addr = addr;
    }

    pub fn get_dst_addr(&self) -> (r: u32)
        ensures
            r == self.dst_addr,
    {
        self.dst_addr
    }

    pub fn set_dst_addr(&mut self, addr: u32)
        ensures
            *final(self) == (Dma { dst_addr: addr, ..*old(self) }),
    {
        self.dst_addr = addr;
    }

    pub fn get_count(&self) -> (r: u16)
        ensures
            r == self.count,
    {
        self.count
    }

    pub fn set_count(&mut self, count: u16)
        ensures
            *final(self) == (Dma { count, ..*old(self) }),
    {
        self.count = count;
    }

    fn move_address(addr: u32, direction: i8, size: u32) -> (r: u32)
        ensures
            r == moved(addr, direction, size),
    {
        if direction > 0 {
            addr.wrapping_add(size)
        } else if direction < 0 {
            addr.wrapping_sub(size)
        } else {
            addr
        }
    }

    /// Runs the transfer that the channel is armed for. A channel that is
    /// not armed or not enabled does nothing. The result tells whether an
    /// interrupt is due: the transfer is over for good and the channel asks
    /// for one.
    pub fn execute(&mut self, mem: &mut Memory) -> (r: bool)
        ensures
            !(old(self).active && old(self).enabled) ==> {
                &&& !r
                &&& *final(self) == *old(self)
                &&& final(mem)@ == old(mem)@
            },
            old(self).active && old(self).enabled ==> {
                &&& final(mem)@ == old(self).copied(
                    old(mem)@,
                    old(self).current_src,
                    old(self).current_dst,
                    old(self).current_count as nat,
                )
                &&& *final(self) == old(self).finished()
                &&& r == (!old(self).repeats() && old(self).irq)
            },
    {
        if !self.active || !self.enabled {
            return false;
        }
        let size: u32 = match self.transfer_type {
            DmaTransferType::HalfWord => 2,
            DmaTransferType::Word => 4,
        };
        while self.current_count > 0
            invariant
                size == old(self).unit_size(),
                *self == (Dma {
                    current_src: self.current_src,
                    current_dst: self.current_dst,
                    current_count: self.current_count,
                    ..*old(self)
                }),
                old(self).copied(
                    old(mem)@,
                    old(self).current_src,
                    old(self).current_dst,
                    old(self).current_count as nat,
                ) == old(self).copied(
                    mem@,
                    self.current_src,
                    self.current_dst,
                    self.current_count as nat,
                ),
                Self::travelled(
                    old(self).current_src,
                    old(self).src_increment,
                    size,
                    old(self).current_count as nat,
                ) == Self::travelled(
                    self.current_src,
                    old(self).src_increment,
                    size,
                    self.current_count as nat,
                ),
                Self::travelled(
                    old(self).current_dst,
                    old(self).dst_increment,
                    size,
                    old(self).current_count as nat,
                ) == Self::travelled(
                    self.current_dst,
                    old(self).dst_increment,
                    size,
                    self.current_count as nat,
                ),
            decreases self.current_count,
        {
            match self.transfer_type {
                DmaTransferType::HalfWord => {
                    let value = mem.read_half(self.current_src);
                    mem.write_half(self.current_dst, value);
                },
                DmaTransferType::Word => {
                    let value = mem.read_word(self.current_src);
                    mem.write_word(self.current_dst, value);
                },
            }
            self.current_src = Self::move_address(self.current_src, self.src_increment, size);
            self.current_dst = Self::move_address(self.current_dst, self.dst_increment, size);
            self.current_count = self.current_count - 1;
        }
        let repeats = self.repeat && match self.trigger {
            DmaTransferMode::Immediate => false,
            _ => true,
        };
        if repeats {
            self.current_src = self.src_addr;
            self.current_dst = self.dst_addr;
            self.current_count = self.unit_count();
            false
        } else {
            self.active = false;
            self.enabled = false;
            self.control = self.control % 0x8000;
            self.irq
        }
    }
}

impl Dma {
    /// Steps the channel with the console: a transfer that is armed to
    /// start at once is carried out. Transfers that wait for a blank are
    /// left to whoever signals the blank. The result tells whether an
    /// interrupt is due.
    pub fn step(&mut self, cycles: u32, mem: &mut Memory) -> (r: bool)
        ensures
            (*final(self), final(mem)@, r) == old(self).stepped(old(mem)@),
    {
        let at_once = match self.trigger {
            DmaTransferMode::Immediate => true,
            _ => false,
        };
        if self.active && self.enabled && at_once {
            self.execute(mem)
        } else {
            false
        }
    }
}

impl Default for Dma {
    fn default() -> (r: Self)
        ensures
            r == Dma::initial(0),
    {
        Dma::new(0)
    }
}

} // verus!
