//! The timers: sixteen-bit counters that count prescaled cycles, or the
//! overflows of the timer before them.

use vstd::prelude::*;

verus! {

/// One timer.
pub struct Timer {
    pub num: u8,
    pub counter: u16,
    pub reload: u16,
    pub control: u16,
    pub prescaler_shift: u8,
    pub enabled: bool,
    pub count_up: bool,
    pub irq: bool,
    pub overflow_pending: bool,
}

/// Cycles per tick for a prescaler shift.
pub open spec fn prescaler(shift: u8) -> u32 {
    if shift == 6 {
        64
    } else if shift == 8 {
        256
    } else if shift == 10 {
        1024
    } else {
        1
    }
}

/// The prescaler shift that the low two bits of a control value select.
pub open spec fn prescaler_shift_of(value: u16) -> u8 {
    if value % 4 == 1 {
        6
    } else if value % 4 == 2 {
        8
    } else if value % 4 == 3 {
        10
    } else {
        0
    }
}

impl Timer {
    /// A stopped timer with everything cleared.
    pub open spec fn initial(num: u8) -> Timer {
        Timer {
            num,
            counter: 0,
            reload: 0,
            control: 0,
            prescaler_shift: 0,
            enabled: false,
            count_up: false,
            irq: false,
            overflow_pending: false,
        }
    }

    /// Whether the timer counts cycles itself: it is enabled, and it is not
    /// a later timer set to count the overflows of the one before.
    pub open spec fn counts_cycles(self) -> bool {
        self.enabled && !(self.count_up && self.num > 0)
    }

    /// The timer after `cycles` cycles. The cycles are divided by the
    /// prescaler and the low sixteen bits of the quotient are added to the
    /// counter. Where the sum passes the top, the counter restarts from the
    /// reload value plus what was left over, and the overflow is noted.
    pub open spec fn stepped(self, cycles: u32) -> Timer {
        let scaled = cycles / prescaler(self.prescaler_shift);
        let ticks = scaled % 0x1_0000;
        if !self.counts_cycles() || scaled == 0 {
            self
        } else if self.counter + ticks > 0xFFFF {
            Timer {
                counter: ((self.reload + ticks - (0xFFFF - self.counter)) % 0x1_0000) as u16,
                overflow_pending: true,
                ..self
            }
        } else {
            Timer { counter: (self.counter + ticks) as u16, ..self }
        }
    }

    /// The timer after an overflow of the timer before it.
    pub open spec fn counted_up(self) -> Timer {
        if !self.enabled || !self.count_up {
            self
        } else if self.counter == 0xFFFF {
            Timer { counter: self.reload, overflow_pending: true, ..self }
        } else {
            Timer { counter: (self.counter + 1) as u16, ..self }
        }
    }

    /// The timer after a write to its control register.
    pub open spec fn with_control(self, value: u16) -> Timer {
        Timer {
            control: value,
            prescaler_shift: prescaler_shift_of(value),
            count_up: value / 4 % 2 == 1,
            irq: value / 64 % 2 == 1,
            enabled: value / 128 % 2 == 1,
            ..self
        }
    }

    pub fn new(num: u8) -> (r: Self)
        ensures
            r == Timer::initial(num),
    {
        Timer {
            num,
            counter: 0,
            reload: 0,
            control: 0,
            prescaler_shift: 0,
            enabled: false,
            count_up: false,
            irq: false,
            overflow_pending: false,
        }
    }

    pub fn reset(&mut self)
        ensures
            *final(self) == Timer::initial(old(self).num),
    {
        self.counter = 0;
        self.reload = 0;
        self.control = 0;
        self.enabled = false;
        self.count_up = false;
        self.irq = false;
        self.prescaler_shift = 0;
        self.overflow_pending = false;
    }

    /// Steps the timer forward by the given number of cycles.
    pub fn step(&mut self, cycles: u32)
        ensures
            *final(self) == old(self).stepped(cycles),
    {
        if !self.enabled {
            return ;
        }
        if self.count_up && self.num > 0 {
            return ;
        }
        let divisor: u32 = if self.prescaler_shift == 6 {
            64
        } else if self.prescaler_shift == 8 {
            256
        } else if self.prescaler_shift == 10 {
            1024
        } else {
            1
        };
        let scaled: u32 = cycles / divisor;
        if scaled == 0 {
            return ;
        }
        let ticks: u32 = scaled % 0x1_0000;
        let sum: u32 = self.counter as u32 + ticks;
        if sum > 0xFFFF {
            let remaining: u32 = ticks - (0xFFFF - self.counter as u32);
            self.counter = ((self.reload as u32 + remaining) % 0x1_0000) as u16;
            self.overflow_pending = true;
        } else {
            self.counter = sum as u16;
        }
    }

    /// Counts one overflow of the timer before this one.
    pub fn trigger_count_up(&mut self)
        ensures
            *final(self) == old(self).counted_up(),
    {
        if !self.enabled || !self.count_up {
            return ;
        }
        if self.counter == 0xFFFF {
            self.counter = self.reload;
            self.overflow_pending = true;
        } else {
            self.counter = self.counter + 1;
        }
    }

    pub fn is_enabled(&self) -> (r: bool)
        ensures
            r == self.enabled,
    {
        self.enabled
    }

    pub fn set_enabled(&mut self, enabled: bool)
        ensures
            *final(self) == (Timer { enabled, ..*old(self) }),
    {
        self.enabled = enabled;
    }

    pub fn get_control(&self) -> (r: u16)
        ensures
            r == self.control,
    {
        self.control
    }

    /// Writes the control register: prescaler in bits 0 and 1, count-up in
    /// bit 2, interrupt in bit 6, enable in bit 7.
    pub fn set_control(&mut self, value: u16)
        ensures
            *final(self) == old(self).with_control(value),
    {
        self.control = value;
        let select: u16 = value % 4;
        self.prescaler_shift = if select == 1 {
            6
        } else if select == 2 {
            8
        } else if select == 3 {
            10
        } else {
            0
        };
        self.count_up = value / 4 % 2 == 1;
        self.irq = value / 64 % 2 == 1;
        self.enabled = value / 128 % 2 == 1;
    }

    pub fn get_reload(&self) -> (r: u16)
        ensures
            r == self.reload,
    {
        self.reload
    }

    pub fn set_reload(&mut self, value: u16)
        ensures
            *final(self) == (Timer { reload: value, ..*old(self) }),
    {
        self.reload = value;
    }

    pub fn get_counter(&self) -> (r: u16)
        ensures
            r == self.counter,
    {
        self.counter
    }

    pub fn is_irq_enabled(&self) -> (r: bool)
        ensures
            r == self.irq,
    {
        self.irq
    }

    pub fn is_count_up(&self) -> (r: bool)
        ensures
            r == self.count_up,
    {
        self.count_up
    }

    /// Whether the counter passed the top since this was last asked; asking
    /// clears the note.
    pub fn did_overflow(&mut self) -> (r: bool)
        ensures
            r == old(self).overflow_pending,
            *final(self) == (Timer { overflow_pending: false, ..*old(self) }),
    {
        let result = self.overflow_pending;
        self.overflow_pending = false;
        result
    }

    pub fn set_overflow(&mut self)
        ensures
            *final(self) == (Timer { overflow_pending: true, ..*old(self) }),
    {
        self.overflow_pending = true;
    }
}

impl Default for Timer {
    fn default() -> (r: Self)
        ensures
            r == Timer::initial(0),
    {
        Timer::new(0)
    }
}

} // verus!
