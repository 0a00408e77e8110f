//! The interrupt controller: an enable mask, a request mask and a master
//! switch. Peripherals raise requests; the processor asks before each
//! instruction whether one is pending.

use vstd::prelude::*;

verus! {

/// A set of interrupt sources, one bit each.
#[derive(Debug, Clone, Copy, PartialEq, Eq, Structural)]
pub struct Interrupt {
    bits: u16,
}

impl View for Interrupt {
    type V = u16;

    closed spec fn view(&self) -> u16 {
        self.bits
    }
}

impl Interrupt {
    pub const VBLANK: u16 = 0x0001;

    pub const HBLANK: u16 = 0x0002;

    pub const VCOUNT: u16 = 0x0004;

    pub const TIMER0: u16 = 0x0008;

    pub const TIMER1: u16 = 0x0010;

    pub const TIMER2: u16 = 0x0020;

    pub const TIMER3: u16 = 0x0040;

    pub const SERIAL: u16 = 0x0080;

    pub const DMA0: u16 = 0x0100;

    pub const DMA1: u16 = 0x0200;

    pub const DMA2: u16 = 0x0400;

    pub const DMA3: u16 = 0x0800;

    pub const KEYPAD: u16 = 0x1000;

    pub const GAMEPAK: u16 = 0x2000;

    /// Every source there is.
    pub const ALL: u16 = 0x3FFF;

    pub fn empty() -> (r: Self)
        ensures
            r@ == 0,
    {
        Interrupt { bits: 0 }
    }

    pub fn all() -> (r: Self)
        ensures
            r@ == Self::ALL,
    {
        Interrupt { bits: Self::ALL }
    }

    /// The set with the given bits; bits that name no source are dropped.
    pub fn from_bits_truncate(bits: u16) -> (r: Self)
        ensures
            r@ == bits & Self::ALL,
    {
        Interrupt { bits: bits & Self::ALL }
    }

    pub fn bits(&self) -> (r: u16)
        ensures
            r == self@,
    {
        self.bits
    }

    pub fn is_empty(&self) -> (r: bool)
        ensures
            r == (self@ == 0),
    {
        self.bits == 0
    }

    pub fn contains(&self, other: Interrupt) -> (r: bool)
        ensures
            r == (self@ & other@ == other@),
    {
        self.bits & other.bits == other.bits
    }

    pub fn union(&self, other: Interrupt) -> (r: Self)
        ensures
            r@ == self@ | other@,
    {
        Interrupt { bits: self.bits | other.bits }
    }

    pub fn intersection(&self, other: Interrupt) -> (r: Self)
        ensures
            r@ == self@ & other@,
    {
        Interrupt { bits: self.bits & other.bits }
    }

    /// The sources of `self` that are not in `other`.
    pub fn difference(&self, other: Interrupt) -> (r: Self)
        ensures
            r@ == self@ & !other@,
    {
        Interrupt { bits: self.bits & !other.bits }
    }
}

/// The lowest bit of `x` at or above place `from`, as a one-bit mask;
/// nothing where there is none.
pub open spec fn lowest_set(x: u16, from: nat) -> u16
    decreases 16 - from,
{
    if from >= 16 {
        0
    } else if x & (1u16 << from) != 0 {
        1u16 << from
    } else {
        lowest_set(x, from + 1)
    }
}

/// What the lowest set bit of `x` is like: it is a bit of `x`, it is one bit
/// only, and `x` has no bit below it. Where `x` names sources only, so does
/// its lowest bit.
pub proof fn law_lowest_set(x: u16)
    ensures
        x == 0 ==> lowest_set(x, 0) == 0,
        x != 0 ==> lowest_set(x, 0) != 0,
        x & lowest_set(x, 0) == lowest_set(x, 0),
        x != 0 ==> lowest_set(x, 0) & ((lowest_set(x, 0) - 1) as u16) == 0,
        x != 0 ==> x & ((lowest_set(x, 0) - 1) as u16) == 0,
        x & Interrupt::ALL == x ==> lowest_set(x, 0) & Interrupt::ALL == lowest_set(x, 0),
{
    reveal_with_fuel(lowest_set, 17);
    assert(1u16 << 0u16 == 0x0001 && 1u16 << 1u16 == 0x0002 && 1u16 << 2u16 == 0x0004 && 1u16
        << 3u16 == 0x0008 && 1u16 << 4u16 == 0x0010 && 1u16 << 5u16 == 0x0020 && 1u16 << 6u16
        == 0x0040 && 1u16 << 7u16 == 0x0080 && 1u16 << 8u16 == 0x0100 && 1u16 << 9u16 == 0x0200
        && 1u16 << 10u16 == 0x0400 && 1u16 << 11u16 == 0x0800 && 1u16 << 12u16 == 0x1000 && 1u16
        << 13u16 == 0x2000 && 1u16 << 14u16 == 0x4000 && 1u16 << 15u16 == 0x8000)
        by (bit_vector);
    let r = lowest_set(x, 0);
    assert(r == closed_lowest(x));
    assert({
        let c = if x & 0x0001 != 0 {
            0x0001u16
        } else if x & 0x0002 != 0 {
            0x0002u16
        } else if x & 0x0004 != 0 {
            0x0004u16
        } else if x & 0x0008 != 0 {
            0x0008u16
        } else if x & 0x0010 != 0 {
            0x0010u16
        } else if x & 0x0020 != 0 {
            0x0020u16
        } else if x & 0x0040 != 0 {
            0x0040u16
        } else if x & 0x0080 != 0 {
            0x0080u16
        } else if x & 0x0100 != 0 {
            0x0100u16
        } else if x & 0x0200 != 0 {
            0x0200u16
        } else if x & 0x0400 != 0 {
            0x0400u16
        } else if x & 0x0800 != 0 {
            0x0800u16
        } else if x & 0x1000 != 0 {
            0x1000u16
        } else if x & 0x2000 != 0 {
            0x2000u16
        } else if x & 0x4000 != 0 {
            0x4000u16
        } else if x & 0x8000 != 0 {
            0x8000u16
        } else {
            0u16
        };
        &&& (x == 0 ==> c == 0)
        &&& (x != 0 ==> c != 0)
        &&& x & c == c
        &&& (x != 0 ==> c & ((c - 1) as u16) == 0)
        &&& (x != 0 ==> x & ((c - 1) as u16) == 0)
        &&& (x & 0x3FFF == x ==> c & 0x3FFF == c)
    }) by (bit_vector);
}

/// The lowest set bit of `x`, place by place.
pub open spec fn closed_lowest(x: u16) -> u16 {
    if x & 0x0001 != 0 {
        0x0001u16
    } else if x & 0x0002 != 0 {
        0x0002u16
    } else if x & 0x0004 != 0 {
        0x0004u16
    } else if x & 0x0008 != 0 {
        0x0008u16
    } else if x & 0x0010 != 0 {
        0x0010u16
    } else if x & 0x0020 != 0 {
        0x0020u16
    } else if x & 0x0040 != 0 {
        0x0040u16
    } else if x & 0x0080 != 0 {
        0x0080u16
    } else if x & 0x0100 != 0 {
        0x0100u16
    } else if x & 0x0200 != 0 {
        0x0200u16
    } else if x & 0x0400 != 0 {
        0x0400u16
    } else if x & 0x0800 != 0 {
        0x0800u16
    } else if x & 0x1000 != 0 {
        0x1000u16
    } else if x & 0x2000 != 0 {
        0x2000u16
    } else if x & 0x4000 != 0 {
        0x4000u16
    } else if x & 0x8000 != 0 {
        0x8000u16
    } else {
        0u16
    }
}

/// Finds the lowest set bit of `x`.
pub fn lowest_set_bit(x: u16) -> (r: u16)
    ensures
        r == lowest_set(x, 0),
{
    let mut i: u16 = 0;
    while i < 16
        invariant
            i <= 16,
            lowest_set(x, 0) == lowest_set(x, i as nat),
        decreases 16 - i,
    {
        if x & (1u16 << i) != 0 {
            return 1u16 << i;
        }
        i = i + 1;
    }
    0
}

/// The controller's state as plain values.
pub struct InterruptView {
    pub ie: u16,
    pub ie_fp: u16,
    pub if_raw: u16,
    pub if_processed: u16,
    pub ime: bool,
    pub in_interrupt: bool,
}

impl InterruptView {
    /// Sources that are both enabled and requested.
    pub open spec fn active(self) -> u16 {
        self.ie & self.if_raw
    }

    /// The interrupt to serve next: none while the master switch is off or
    /// nothing enabled is requested, else the lowest-numbered such source.
    pub open spec fn pending(self) -> Option<u16> {
        if !self.ime || self.active() == 0 {
            None
        } else {
            Some(lowest_set(self.active(), 0) & Interrupt::ALL)
        }
    }

    pub open spec fn should_take(self) -> bool {
        self.ime && !self.in_interrupt && self.active() != 0
    }

    pub open spec fn read_register(self, offset: usize) -> u16 {
        if offset == 0x000 {
            self.ie
        } else if offset == 0x002 {
            self.if_raw
        } else if offset == 0x200 {
            self.ie_fp
        } else if offset == 0x208 {
            if self.ime {
                1
            } else {
                0
            }
        } else {
            0
        }
    }

    /// A write to a register. A write to the request register clears the
    /// requests whose bit is set in `val` and leaves the others.
    pub open spec fn write_register(self, offset: usize, val: u16) -> InterruptView {
        if offset == 0x000 {
            InterruptView { ie: val & Interrupt::ALL, ..self }
        } else if offset == 0x002 {
            InterruptView {
                if_raw: self.if_raw & !(val & Interrupt::ALL),
                if_processed: self.if_processed & !(val & Interrupt::ALL),
                ..self
            }
        } else if offset == 0x200 {
            InterruptView { ie_fp: val & Interrupt::ALL, ..self }
        } else if offset == 0x208 {
            InterruptView { ime: val != 0, ..self }
        } else {
            self
        }
    }

    pub open spec fn reset() -> InterruptView {
        InterruptView {
            ie: 0,
            ie_fp: 0,
            if_raw: 0,
            if_processed: 0,
            ime: false,
            in_interrupt: false,
        }
    }
}

/// Enable, request and master-enable state of the interrupt lines.
pub struct InterruptController {
    /// Enabled sources.
    pub ie: Interrupt,
    /// Sources routed to the fast interrupt line.
    pub ie_fp: Interrupt,
    /// Requested sources.
    pub if_raw: Interrupt,
    if_processed: Interrupt,
    /// Master enable.
    pub ime: bool,
    in_interrupt: bool,
}

impl View for InterruptController {
    type V = InterruptView;

    closed spec fn view(&self) -> InterruptView {
        InterruptView {
            ie: self.ie@,
            ie_fp: self.ie_fp@,
            if_raw: self.if_raw@,
            if_processed: self.if_processed@,
            ime: self.ime,
            in_interrupt: self.in_interrupt,
        }
    }
}

impl InterruptController {
    pub fn new() -> (r: Self)
        ensures
            r@ == InterruptView::reset(),
    {
        InterruptController {
            ie: Interrupt::empty(),
            ie_fp: Interrupt::empty(),
            if_raw: Interrupt::empty(),
            if_processed: Interrupt::empty(),
            ime: false,
            in_interrupt: false,
        }
    }

    pub fn reset(&mut self)
        ensures
            final(self)@ == InterruptView::reset(),
    {
        self.ie = Interrupt::empty();
        self.ie_fp = Interrupt::empty();
        self.if_raw = Interrupt::empty();
        self.if_processed = Interrupt::empty();
        self.ime = false;
        self.in_interrupt = false;
    }

    /// Raises the given sources: their request bits are set.
    pub fn request(&mut self, interrupt: Interrupt)
        ensures
            final(self)@ == (InterruptView {
                if_raw: old(self)@.if_raw | interrupt@,
                ..old(self)@
            }),
    {
        self.if_raw = self.if_raw.union(interrupt);
    }

    /// The interrupt to serve next, if any.
    pub fn get_pending(&self) -> (r: Option<Interrupt>)
        ensures
            r.is_some() == self@.pending().is_some(),
            r.is_some() ==> r.unwrap()@ == self@.pending().unwrap(),
            !self@.ime ==> r.is_none(),
    {
        if !self.ime {
            return None;
        }
        let pending = self.ie.intersection(self.if_raw);
        if pending.is_empty() {
            None
        } else {
            Some(Interrupt::from_bits_truncate(lowest_set_bit(pending.bits())))
        }
    }

    /// Clears the request bits of the given sources.
    pub fn acknowledge(&mut self, interrupt: Interrupt)
        ensures
            final(self)@ == (InterruptView {
                if_raw: old(self)@.if_raw & !interrupt@,
                if_processed: old(self)@.if_processed & !interrupt@,
                ..old(self)@
            }),
    {
        self.if_raw = self.if_raw.difference(interrupt);
        self.if_processed = self.if_processed.difference(interrupt);
    }

    /// Whether the processor should enter the handler now: the master
    /// switch is on, no handler is running, and something enabled is
    /// requested.
    pub fn should_take_interrupt(&self) -> (r: bool)
        ensures
            r == self@.should_take(),
    {
        if !self.ime || self.in_interrupt {
            return false;
        }
        !self.ie.intersection(self.if_raw).is_empty()
    }

    /// Entering the handler latches it and turns the master switch off.
    pub fn enter_interrupt(&mut self)
        ensures
            final(self)@ == (InterruptView { in_interrupt: true, ime: false, ..old(self)@ }),
    {
        self.in_interrupt = true;
        self.ime = false;
    }

    /// Leaving the handler releases the latch and turns the master switch
    /// back on.
    pub fn exit_interrupt(&mut self)
        ensures
            final(self)@ == (InterruptView { in_interrupt: false, ime: true, ..old(self)@ }),
    {
        self.in_interrupt = false;
        self.ime = true;
    }

    pub fn read_register(&self, offset: usize) -> (r: u16)
        ensures
            r == self@.read_register(offset),
    {
        if offset == 0x000 {
            self.ie.bits()
        } else if offset == 0x002 {
            self.if_raw.bits()
        } else if offset == 0x200 {
            self.ie_fp.bits()
        } else if offset == 0x208 {
            if self.ime {
                1
            } else {
                0
            }
        } else {
            0
        }
    }

    pub fn write_register(&mut self, offset: usize, val: u16)
        ensures
            final(self)@ == old(self)@.write_register(offset, val),
    {
        if offset == 0x000 {
            self.ie = Interrupt::from_bits_truncate(val);
        } else if offset == 0x002 {
            let cleared = Interrupt::from_bits_truncate(val);
            self.if_raw = self.if_raw.difference(cleared);
            self.if_processed = self.if_processed.difference(cleared);
        } else if offset == 0x200 {
            self.ie_fp = Interrupt::from_bits_truncate(val);
        } else if offset == 0x208 {
            self.ime = val != 0;
        }
    }
}

impl Default for InterruptController {
    fn default() -> (r: Self)
        ensures
            r@ == InterruptView::reset(),
    {
        InterruptController::new()
    }
}

} // verus!
