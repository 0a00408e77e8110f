//! The sound unit: two square-wave channels, a wave channel, a noise
//! channel and two sample channels, mixed into a left and a right output.

use vstd::prelude::*;

verus! {

/// A square-wave channel.
#[derive(Debug)]
pub struct SquareChannel {
    pub enabled: bool,
    pub duty_cycle: u8,
    pub length_enabled: bool,
    pub length_load: u8,
    pub length_counter: u8,
    pub envelope_enabled: bool,
    pub envelope_direction: bool,
    pub envelope_step: u8,
    pub envelope_volume: u8,
    pub envelope_counter: u8,
    pub sweep_enabled: bool,
    pub sweep_shift: u8,
    pub sweep_direction: bool,
    pub sweep_time: u8,
    pub sweep_counter: u8,
    pub frequency: u16,
    pub frequency_counter: u16,
    pub duty_position: u8,
    pub output_volume: u8,
}

impl SquareChannel {
    pub open spec fn initial() -> SquareChannel {
        SquareChannel {
            enabled: false,
            duty_cycle: 0,
            length_enabled: false,
            length_load: 0,
            length_counter: 0,
            envelope_enabled: false,
            envelope_direction: false,
            envelope_step: 0,
            envelope_volume: 0,
            envelope_counter: 0,
            sweep_enabled: false,
            sweep_shift: 0,
            sweep_direction: false,
            sweep_time: 0,
            sweep_counter: 0,
            frequency: 0,
            frequency_counter: 0,
            duty_position: 0,
            output_volume: 0,
        }
    }

    /// Whether the wave is high at the current place of its eight-step
    /// cycle: for one, two, four or six steps, as the duty setting says.
    pub open spec fn duty_output(self) -> bool {
        if self.duty_cycle == 0 {
            self.duty_position == 0
        } else if self.duty_cycle == 1 {
            self.duty_position <= 1
        } else if self.duty_cycle == 2 {
            self.duty_position <= 3
        } else if self.duty_cycle == 3 {
            self.duty_position <= 5
        } else {
            false
        }
    }

    /// Cycles per step of the wave: four for each count that the
    /// eleven-bit frequency lacks to 2048.
    pub open spec fn period(self) -> u32 {
        ((2048 - self.frequency % 2048) * 4) as u32
    }

    /// The channel after `cycles` cycles: the wave moves one step on where
    /// the cycles reach a period, and the output follows the wave.
    pub open spec fn stepped(self, cycles: u32) -> SquareChannel {
        if !self.enabled {
            self
        } else {
            let moved = SquareChannel {
                duty_position: if cycles >= self.period() {
                    ((self.duty_position % 8 + 1) % 8) as u8
                } else {
                    self.duty_position
                },
                ..self
            };
            SquareChannel {
                output_volume: if moved.duty_output() {
                    self.envelope_volume
                } else {
                    0
                },
                ..moved
            }
        }
    }

    pub fn new() -> (r: Self)
        ensures
            r == SquareChannel::initial(),
    {
        SquareChannel {
            enabled: false,
            duty_cycle: 0,
            length_enabled: false,
            length_load: 0,
            length_counter: 0,
            envelope_enabled: false,
            envelope_direction: false,
            envelope_step: 0,
            envelope_volume: 0,
            envelope_counter: 0,
            sweep_enabled: false,
            sweep_shift: 0,
            sweep_direction: false,
            sweep_time: 0,
            sweep_counter: 0,
            frequency: 0,
            frequency_counter: 0,
            duty_position: 0,
            output_volume: 0,
        }
    }

    pub fn reset(&mut self)
        ensures
            *final(self) == SquareChannel::initial(),
    {
        *self = SquareChannel::new();
    }

    pub fn step(&mut self, cycles: u32)
        ensures
            *final(self) == old(self).stepped(cycles),
    {
        if !self.enabled {
            return ;
        }
        let period: u32 = (2048 - (self.frequency % 2048) as u32) * 4;
        if cycles >= period {
            self.duty_position = (self.duty_position % 8 + 1) % 8;
        }
        self.output_volume = if self.get_duty_output() {
            self.envelope_volume
        } else {
            0
        };
    }

    pub fn get_duty_output(&self) -> (r: bool)
        ensures
            r == self.duty_output(),
    {
        if self.duty_cycle == 0 {
            self.duty_position == 0
        } else if self.duty_cycle == 1 {
            self.duty_position <= 1
        } else if self.duty_cycle == 2 {
            self.duty_position <= 3
        } else if self.duty_cycle == 3 {
            self.duty_position <= 5
        } else {
            false
        }
    }

    pub fn get_output(&self) -> (r: u8)
        ensures
            r == self.output_volume,
    {
        self.output_volume
    }

    pub fn is_enabled(&self) -> (r: bool)
        ensures
            r == self.enabled,
    {
        self.enabled
    }

    pub fn set_enabled(&mut self, enabled: bool)
        ensures
            *final(self) == (SquareChannel { enabled, ..*old(self) }),
    {
        self.enabled = enabled;
    }

    /// Sets the frequency, of which eleven bits count.
    pub fn set_frequency(&mut self, freq: u16)
        ensures
            *final(self) == (SquareChannel { frequency: freq % 2048, ..*old(self) }),
    {
        self.frequency = freq % 2048;
    }

    /// Sets the duty, of which two bits count.
    pub fn set_duty_cycle(&mut self, duty: u8)
        ensures
            *final(self) == (SquareChannel { duty_cycle: duty % 4, ..*old(self) }),
    {
        self.duty_cycle = duty % 4;
    }

    /// Starts the channel: the length counter is loaded with what the
    /// length lacks to 64 and the envelope counter with the envelope step.
    pub fn trigger(&mut self)
        ensures
            *final(self) == (SquareChannel {
                enabled: true,
                length_counter: 64u8.wrapping_sub(old(self).length_load),
                envelope_counter: old(self).envelope_step,
                frequency_counter: 0,
                ..*old(self)
            }),
    {
        self.enabled = true;
        self.length_counter = 64u8.wrapping_sub(self.length_load);
        self.envelope_counter = self.envelope_step;
        self.frequency_counter = 0;
    }
}

/// The wave channel: thirty-two four-bit samples played in turn.
#[derive(Debug)]
pub struct WaveChannel {
    pub enabled: bool,
    pub length_enabled: bool,
    pub length_load: u8,
    pub length_counter: u8,
    pub volume_code: u8,
    pub frequency: u16,
    pub frequency_counter: u16,
    pub wave_position: u8,
    pub wave_ram: [u8; 32],
    pub output_volume: u8,
}

impl WaveChannel {
    /// Whether two channels agree in everything but the sample memory.
    pub open spec fn same_settings(self, other: WaveChannel) -> bool {
        &&& self.enabled == other.enabled
        &&& self.length_enabled == other.length_enabled
        &&& self.length_load == other.length_load
        &&& self.length_counter == other.length_counter
        &&& self.volume_code == other.volume_code
        &&& self.frequency == other.frequency
        &&& self.frequency_counter == other.frequency_counter
        &&& self.wave_position == other.wave_position
        &&& self.output_volume == other.output_volume
    }

    pub open spec fn is_initial(self) -> bool {
        &&& !self.enabled
        &&& !self.length_enabled
        &&& self.length_load == 0
        &&& self.length_counter == 0
        &&& self.volume_code == 0
        &&& self.frequency == 0
        &&& self.frequency_counter == 0
        &&& self.wave_position == 0
        &&& self.output_volume == 0
        &&& self.wave_ram@ == Seq::new(32, |i: int| 0u8)
    }

    /// Cycles per sample: two for each count that the eleven-bit frequency
    /// lacks to 2048.
    pub open spec fn period(self) -> u32 {
        ((2048 - self.frequency % 2048) * 2) as u32
    }

    /// The place in the sample memory after `cycles` cycles.
    pub open spec fn next_position(self, cycles: u32) -> u8 {
        if cycles >= self.period() {
            ((self.wave_position % 32 + 1) % 32) as u8
        } else {
            self.wave_position
        }
    }

    /// The four-bit sample at a place: the high half of its byte at even
    /// places, the low half at odd ones.
    pub open spec fn sample_at(self, position: u8) -> u8 {
        let byte = self.wave_ram@[(position % 32 / 2) as int];
        if position % 2 == 0 {
            byte / 16
        } else {
            byte % 16
        }
    }

    /// A sample at the volume that the volume code selects: silent, full,
    /// half or a quarter.
    pub open spec fn scaled(sample: u8, volume_code: u8) -> u8 {
        if volume_code == 1 {
            sample
        } else if volume_code == 2 {
            sample / 2
        } else if volume_code == 3 {
            sample / 4
        } else {
            0
        }
    }

    /// The channel after `cycles` cycles: the place moves on where the
    /// cycles reach a period, and the output takes the sample at the new
    /// place.
    pub open spec fn stepped(self, cycles: u32) -> WaveChannel {
        if !self.enabled {
            self
        } else {
            WaveChannel {
                wave_position: self.next_position(cycles),
                output_volume: Self::scaled(
                    self.sample_at(self.next_position(cycles)),
                    self.volume_code,
                ),
                ..self
            }
        }
    }

    pub fn new() -> (r: Self)
        ensures
            r.is_initial(),
    {
        let r = WaveChannel {
            enabled: false,
            length_enabled: false,
            length_load: 0,
            length_counter: 0,
            volume_code: 0,
            frequency: 0,
            frequency_counter: 0,
            wave_position: 0,
            wave_ram: [0u8; 32],
            output_volume: 0,
        };
        assert(r.wave_ram@ =~= Seq::new(32, |i: int| 0u8));
        r
    }

    pub fn reset(&mut self)
        ensures
            final(self).is_initial(),
    {
        *self = WaveChannel::new();
    }

    pub fn step(&mut self, cycles: u32)
        ensures
            *final(self) == old(self).stepped(cycles),
    {
        if !self.enabled {
            return ;
        }
        let period: u32 = (2048 - (self.frequency % 2048) as u32) * 2;
        if cycles >= period {
            self.wave_position = (self.wave_position % 32 + 1) % 32;
        }
        let idx: usize = (self.wave_position % 32 / 2) as usize;
        let sample = self.wave_ram[idx];
        let nibble: u8 = if self.wave_position % 2 == 0 {
            sample / 16
        } else {
            sample % 16
        };
        self.output_volume = if self.volume_code == 1 {
            nibble
        } else if self.volume_code == 2 {
            nibble / 2
        } else if self.volume_code == 3 {
            nibble / 4
        } else {
            0
        };
    }

    pub fn get_output(&self) -> (r: u8)
        ensures
            r == self.output_volume,
    {
        self.output_volume
    }

    pub fn is_enabled(&self) -> (r: bool)
        ensures
            r == self.enabled,
    {
        self.enabled
    }

    pub fn set_enabled(&mut self, enabled: bool)
        ensures
            *final(self) == (WaveChannel { enabled, ..*old(self) }),
    {
        self.enabled = enabled;
    }

    pub fn set_frequency(&mut self, freq: u16)
        ensures
            *final(self) == (WaveChannel { frequency: freq % 2048, ..*old(self) }),
    {
        self.frequency = freq % 2048;
    }

    /// Writes a byte of the sample memory; an index past its end is
    /// ignored.
    pub fn set_wave_ram(&mut self, index: usize, value: u8)
        ensures
            final(self).same_settings(*old(self)),
            index < 32 ==> final(self).wave_ram@ == old(self).wave_ram@.update(index as int, value),
            index >= 32 ==> final(self).wave_ram@ == old(self).wave_ram@,
    {
        if index < 32 {
            self.wave_ram[index] = value;
        }
    }
}

/// The noise channel: a shift register with feedback.
#[derive(Debug)]
pub struct NoiseChannel {
    pub enabled: bool,
    pub length_enabled: bool,
    pub length_load: u8,
    pub length_counter: u8,
    pub envelope_enabled: bool,
    pub envelope_direction: bool,
    pub envelope_step: u8,
    pub envelope_volume: u8,
    pub envelope_counter: u8,
    pub clock_shift: u8,
    pub width_mode: bool,
    pub lfsr: u16,
    pub output_volume: u8,
}

impl NoiseChannel {
    pub open spec fn initial() -> NoiseChannel {
        NoiseChannel {
            enabled: false,
            length_enabled: false,
            length_load: 0,
            length_counter: 0,
            envelope_enabled: false,
            envelope_direction: false,
            envelope_step: 0,
            envelope_volume: 0,
            envelope_counter: 0,
            clock_shift: 0,
            width_mode: false,
            lfsr: 0x7FFF,
            output_volume: 0,
        }
    }

    /// Cycles per shift: two to the power of the clock shift, which counts
    /// up to 14.
    pub open spec fn divisor(self) -> u32 {
        if self.clock_shift < 14 {
            1u32 << (self.clock_shift as u32)
        } else {
            1u32 << 14u32
        }
    }

    /// The shift register one shift on: it moves right by one bit and the
    /// exclusive or of its two lowest bits enters at bit 14. In the short
    /// mode bit 6 is cleared.
    pub open spec fn shifted(self) -> u16 {
        let feedback: u16 = if (self.lfsr & 1) ^ ((self.lfsr >> 1) & 1) != 0 {
            1
        } else {
            0
        };
        let next = (self.lfsr >> 1) | (feedback << 14);
        if self.width_mode {
            next
        } else {
            next & !0x40u16
        }
    }

    /// The channel after `cycles` cycles: where they reach the divisor the
    /// register shifts once, and the output sounds while its lowest bit is
    /// clear.
    pub open spec fn stepped(self, cycles: u32) -> NoiseChannel {
        if !self.enabled || cycles < self.divisor() {
            self
        } else {
            NoiseChannel {
                lfsr: self.shifted(),
                output_volume: if self.shifted() & 1 == 0 {
                    self.envelope_volume
                } else {
                    0
                },
                ..self
            }
        }
    }

    pub fn new() -> (r: Self)
        ensures
            r == NoiseChannel::initial(),
    {
        NoiseChannel {
            enabled: false,
            length_enabled: false,
            length_load: 0,
            length_counter: 0,
            envelope_enabled: false,
            envelope_direction: false,
            envelope_step: 0,
            envelope_volume: 0,
            envelope_counter: 0,
            clock_shift: 0,
            width_mode: false,
            lfsr: 0x7FFF,
            output_volume: 0,
        }
    }

    pub fn reset(&mut self)
        ensures
            *final(self) == NoiseChannel::initial(),
    {
        *self = NoiseChannel::new();
    }

    pub fn step(&mut self, cycles: u32)
        ensures
            *final(self) == old(self).stepped(cycles),
    {
        if !self.enabled {
            return ;
        }
        let divisor: u32 = if self.clock_shift < 14 {
            1u32 << (self.clock_shift as u32)
        } else {
            1u32 << 14u32
        };
        if cycles >= divisor {
            let feedback: u16 = if (self.lfsr & 1) ^ ((self.lfsr >> 1) & 1) != 0 {
                1
            } else {
                0
            };
            let next: u16 = (self.lfsr >> 1) | (feedback << 14);
            self.lfsr = if self.width_mode {
                next
            } else {
                next & !0x40u16
            };
            self.output_volume = if self.lfsr & 1 == 0 {
                self.envelope_volume
            } else {
                0
            };
        }
    }

    pub fn get_output(&self) -> (r: u8)
        ensures
            r == self.output_volume,
    {
        self.output_volume
    }

    pub fn is_enabled(&self) -> (r: bool)
        ensures
            r == self.enabled,
    {
        self.enabled
    }

    pub fn set_enabled(&mut self, enabled: bool)
        ensures
            *final(self) == (NoiseChannel { enabled, ..*old(self) }),
    {
        self.enabled = enabled;
    }
}

/// The signed sample that two bytes stand for, low byte first.
pub open spec fn sample_of(low: u8, high: u8) -> i16 {
    if high >= 0x80 {
        (low + high * 0x100 - 0x1_0000) as i16
    } else {
        (low + high * 0x100) as i16
    }
}

/// A sample divided by two to the power of `shift`, rounded down.
pub open spec fn attenuated(sample: i16, shift: u8) -> i16 {
    if shift == 1 {
        (sample / 2) as i16
    } else if shift == 2 {
        (sample / 4) as i16
    } else {
        sample
    }
}

/// The right shift that a volume setting stands for: half, full, a quarter,
/// half.
pub open spec fn volume_shift(volume: u8) -> u8 {
    if volume == 1 {
        0
    } else if volume == 2 {
        2
    } else {
        1
    }
}

/// A sample channel: a queue of bytes that is played as signed samples.
#[derive(Debug)]
pub struct DirectSoundChannel {
    pub enabled: bool,
    pub fifo: [u8; 32],
    pub fifo_read: u8,
    pub fifo_write: u8,
    pub fifo_count: u8,
    pub volume: u8,
    pub timer: u8,
    pub output_right: bool,
    pub output_left: bool,
    pub current_sample: i16,
}

impl DirectSoundChannel {
    /// Whether two channels agree in everything but the queue.
    pub open spec fn same_settings(self, other: DirectSoundChannel) -> bool {
        &&& self.enabled == other.enabled
        &&& self.volume == other.volume
        &&& self.timer == other.timer
        &&& self.output_right == other.output_right
        &&& self.output_left == other.output_left
    }

    pub open spec fn is_initial(self) -> bool {
        &&& !self.enabled
        &&& self.fifo@ == Seq::new(32, |i: int| 0u8)
        &&& self.fifo_read == 0
        &&& self.fifo_write == 0
        &&& self.fifo_count == 0
        &&& self.volume == 0
        &&& self.timer == 0
        &&& !self.output_right
        &&& !self.output_left
        &&& self.current_sample == 0
    }

    /// The place in the queue `k` bytes after `at`.
    pub open spec fn slot(at: u8, k: int) -> int {
        (at % 32 + k) % 32
    }

    /// The fill count after `k` more bytes: it stops at eight.
    pub open spec fn filled(count: u8, k: int) -> u8 {
        if count >= 8 {
            count
        } else if count + k > 8 {
            8
        } else {
            (count + k) as u8
        }
    }

    pub fn new() -> (r: Self)
        ensures
            r.is_initial(),
    {
        let r = DirectSoundChannel {
            enabled: false,
            fifo: [0u8; 32],
            fifo_read: 0,
            fifo_write: 0,
            fifo_count: 0,
            volume: 0,
            timer: 0,
            output_right: false,
            output_left: false,
            current_sample: 0,
        };
        assert(r.fifo@ =~= Seq::new(32, |i: int| 0u8));
        r
    }

    pub fn reset(&mut self)
        ensures
            final(self).is_initial(),
    {
        *self = DirectSoundChannel::new();
    }

    /// Queues the four bytes of a word, least significant first.
    pub fn write_fifo(&mut self, data: u32)
        ensures
            final(self).same_settings(*old(self)),
            final(self).fifo_read == old(self).fifo_read,
            final(self).current_sample == old(self).current_sample,
            final(self).fifo_write == Self::slot(old(self).fifo_write, 4),
            final(self).fifo_count == Self::filled(old(self).fifo_count, 4),
            final(self).fifo@ == old(self).fifo@.update(
                Self::slot(old(self).fifo_write, 0),
                crate::bits::byte_of(data, 0),
            ).update(Self::slot(old(self).fifo_write, 1), crate::bits::byte_of(data, 1)).update(
                Self::slot(old(self).fifo_write, 2),
                crate::bits::byte_of(data, 2),
            ).update(Self::slot(old(self).fifo_write, 3), crate::bits::byte_of(data, 3)),
    {
        self.push_byte(crate::bits::get_byte(data, 0));
        self.push_byte(crate::bits::get_byte(data, 1));
        self.push_byte(crate::bits::get_byte(data, 2));
        self.push_byte(crate::bits::get_byte(data, 3));
    }

    fn push_byte(&mut self, value: u8)
        ensures
            final(self).same_settings(*old(self)),
            final(self).fifo_read == old(self).fifo_read,
            final(self).current_sample == old(self).current_sample,
            final(self).fifo_write == Self::slot(old(self).fifo_write, 1),
            final(self).fifo_count == Self::filled(old(self).fifo_count, 1),
            final(self).fifo@ == old(self).fifo@.update(Self::slot(old(self).fifo_write, 0), value),
    {
        let at: usize = (self.fifo_write % 32) as usize;
        self.fifo[at] = value;
        self.fifo_write = (self.fifo_write % 32 + 1) % 32;
        if self.fifo_count < 8 {
            self.fifo_count = self.fifo_count + 1;
        }
    }

    /// Takes the next sample from the queue: two bytes, low byte first. An
    /// empty queue gives silence and stays as it is.
    pub fn read_sample(&mut self) -> (r: i16)
        ensures
            old(self).fifo_count == 0 ==> r == 0 && *final(self) == *old(self),
            old(self).fifo_count != 0 ==> {
                &&& r == sample_of(
                    old(self).fifo@[Self::slot(old(self).fifo_read, 0)],
                    old(self).fifo@[Self::slot(old(self).fifo_read, 1)],
                )
                &&& *final(self) == (DirectSoundChannel {
                    fifo_read: Self::slot(old(self).fifo_read, 2) as u8,
                    fifo_count: if old(self).fifo_count >= 2 {
                        (old(self).fifo_count - 2) as u8
                    } else {
                        0
                    },
                    current_sample: r,
                    ..*old(self)
                })
            },
    {
        if self.fifo_count == 0 {
            return 0;
        }
        let first: usize = (self.fifo_read % 32) as usize;
        let second: usize = (first + 1) % 32;
        let low = self.fifo[first];
        let high = self.fifo[second];
        self.fifo_read = ((second + 1) % 32) as u8;
        self.fifo_count = if self.fifo_count >= 2 {
            self.fifo_count - 2
        } else {
            0
        };
        let raw: i32 = low as i32 + high as i32 * 0x100;
        let sample: i16 = if high >= 0x80 {
            (raw - 0x1_0000) as i16
        } else {
            raw as i16
        };
        self.current_sample = sample;
        sample
    }

    /// The current sample at the channel's volume.
    pub fn get_output(&self) -> (r: i16)
        ensures
            r == attenuated(self.current_sample, volume_shift(self.volume)),
    {
        let shift: u8 = if self.volume == 1 {
            0
        } else if self.volume == 2 {
            2
        } else {
            1
        };
        let divisor: u32 = if shift == 1 {
            2
        } else if shift == 2 {
            4
        } else {
            1
        };
        let sample = self.current_sample;
        if sample >= 0 {
            (sample as u32 / divisor) as i16
        } else {
            let magnitude: u32 = (0 - sample as i32) as u32;
            let quotient: u32 = (magnitude + divisor - 1) / divisor;
            (0 - quotient as i32) as i16
        }
    }

    pub fn is_enabled(&self) -> (r: bool)
        ensures
            r == self.enabled,
    {
        self.enabled
    }

    pub fn set_enabled(&mut self, enabled: bool)
        ensures
            *final(self) == (DirectSoundChannel { enabled, ..*old(self) }),
    {
        self.enabled = enabled;
    }
}

/// A quotient rounded towards zero.
pub open spec fn toward_zero(value: int, divisor: int) -> int {
    if value >= 0 {
        value / divisor
    } else {
        -((-value) / divisor)
    }
}

/// A number folded into the range of a signed sixteen-bit sample.
pub open spec fn fold16(value: int) -> i16 {
    if value % 0x1_0000 >= 0x8000 {
        (value % 0x1_0000 - 0x1_0000) as i16
    } else {
        (value % 0x1_0000) as i16
    }
}

/// What one side of the output carries: the mixed channels times the
/// side's volume, over seven.
pub open spec fn side_output(mixed: int, volume: u8) -> i16 {
    fold16(toward_zero(mixed * volume, 7))
}

/// The sound unit.
pub struct Apu {
    pub square1: SquareChannel,
    pub square2: SquareChannel,
    pub wave: WaveChannel,
    pub noise: NoiseChannel,
    pub ds_a: DirectSoundChannel,
    pub ds_b: DirectSoundChannel,
    pub master_enabled: bool,
    pub volume_left: u8,
    pub volume_right: u8,
    pub left_enabled: [bool; 8],
    pub right_enabled: [bool; 8],
    pub output_left: i16,
    pub output_right: i16,
}

impl Apu {
    /// The sum of the outputs of the channels that a side has enabled: the
    /// four tone channels at places 0 to 3, the two sample channels at 4
    /// and 5.
    pub open spec fn mixed(self, enabled: Seq<bool>) -> int {
        (if enabled[0] {
            self.square1.output_volume as int
        } else {
            0
        }) + (if enabled[1] {
            self.square2.output_volume as int
        } else {
            0
        }) + (if enabled[2] {
            self.wave.output_volume as int
        } else {
            0
        }) + (if enabled[3] {
            self.noise.output_volume as int
        } else {
            0
        }) + (if enabled[4] {
            attenuated(self.ds_a.current_sample, volume_shift(self.ds_a.volume)) as int
        } else {
            0
        }) + (if enabled[5] {
            attenuated(self.ds_b.current_sample, volume_shift(self.ds_b.volume)) as int
        } else {
            0
        })
    }

    pub open spec fn is_initial(self) -> bool {
        &&& self.square1 == SquareChannel::initial()
        &&& self.square2 == SquareChannel::initial()
        &&& self.wave.is_initial()
        &&& self.noise == NoiseChannel::initial()
        &&& self.ds_a.is_initial()
        &&& self.ds_b.is_initial()
        &&& !self.master_enabled
        &&& self.volume_left == 0
        &&& self.volume_right == 0
        &&& self.left_enabled@ == Seq::new(8, |i: int| false)
        &&& self.right_enabled@ == Seq::new(8, |i: int| false)
        &&& self.output_left == 0
        &&& self.output_right == 0
    }

    /// The unit after `cycles` cycles: while the master switch is on the
    /// four tone channels step, and each side's output becomes the mix of
    /// the channels it has enabled at the side's volume.
    pub open spec fn stepped(self, cycles: u32) -> Apu {
        if !self.master_enabled {
            self
        } else {
            let moved = Apu {
                square1: self.square1.stepped(cycles),
                square2: self.square2.stepped(cycles),
                wave: self.wave.stepped(cycles),
                noise: self.noise.stepped(cycles),
                ..self
            };
            Apu {
                output_left: side_output(moved.mixed(self.left_enabled@), self.volume_left),
                output_right: side_output(moved.mixed(self.right_enabled@), self.volume_right),
                ..moved
            }
        }
    }

    pub fn new() -> (r: Self)
        ensures
            r.is_initial(),
    {
        let r = Apu {
            square1: SquareChannel::new(),
            square2: SquareChannel::new(),
            wave: WaveChannel::new(),
            noise: NoiseChannel::new(),
            ds_a: DirectSoundChannel::new(),
            ds_b: DirectSoundChannel::new(),
            master_enabled: false,
            volume_left: 0,
            volume_right: 0,
            left_enabled: [false; 8],
            right_enabled: [false; 8],
            output_left: 0,
            output_right: 0,
        };
        assert(r.left_enabled@ =~= Seq::new(8, |i: int| false));
        assert(r.right_enabled@ =~= Seq::new(8, |i: int| false));
        r
    }

    pub fn reset(&mut self)
        ensures
            final(self).is_initial(),
    {
        *self = Apu::new();
    }

    fn mix(&self, left: bool) -> (r: i32)
        ensures
            r == self.mixed(
                if left {
                    self.left_enabled@
                } else {
                    self.right_enabled@
                },
            ),
            -0x1_0000 <= r <= 0x1_0400,
    {
        let mut total: i32 = 0;
        if if left {
            self.left_enabled[0]
        } else {
            self.right_enabled[0]
        } {
            total = total + self.square1.get_output() as i32;
        }
        if if left {
            self.left_enabled[1]
        } else {
            self.right_enabled[1]
        } {
            total = total + self.square2.get_output() as i32;
        }
        if if left {
            self.left_enabled[2]
        } else {
            self.right_enabled[2]
        } {
            total = total + self.wave.get_output() as i32;
        }
        if if left {
            self.left_enabled[3]
        } else {
            self.right_enabled[3]
        } {
            total = total + self.noise.get_output() as i32;
        }
        if if left {
            self.left_enabled[4]
        } else {
            self.right_enabled[4]
        } {
            total = total + self.ds_a.get_output() as i32;
        }
        if if left {
            self.left_enabled[5]
        } else {
            self.right_enabled[5]
        } {
            total = total + self.ds_b.get_output() as i32;
        }
        total
    }

    fn scale(mixed: i32, volume: u8) -> (r: i16)
        requires
            -0x1_0000 <= mixed <= 0x1_0400,
        ensures
            r == side_output(mixed as int, volume),
    {
        assert(-0x1_0000 * 255 <= mixed * volume <= 0x1_0400 * 255) by (nonlinear_arith)
            requires
                -0x1_0000 <= mixed <= 0x1_0400,
                0 <= volume <= 255,
        ;
        let product: i32 = mixed * volume as i32;
        if product >= 0 {
            let quotient: u32 = product as u32 / 7;
            let folded: u32 = quotient % 0x1_0000;
            if folded >= 0x8000 {
                (folded as i32 - 0x1_0000) as i16
            } else {
                folded as i16
            }
        } else {
            let quotient: u32 = (0 - product) as u32 / 7;
            let low: u32 = quotient % 0x1_0000;
            let folded: u32 = if low == 0 {
                0
            } else {
                0x1_0000 - low
            };
            assert((-(quotient as int)) % 0x1_0000 == folded as int);
            if folded >= 0x8000 {
                (folded as i32 - 0x1_0000) as i16
            } else {
                folded as i16
            }
        }
    }

    /// Steps the unit forward by the given number of cycles.
    pub fn step(&mut self, cycles: u32)
        ensures
            *final(self) == old(self).stepped(cycles),
    {
        if !self.master_enabled {
            return ;
        }
        self.square1.step(cycles);
        self.square2.step(cycles);
        self.wave.step(cycles);
        self.noise.step(cycles);
        let left = self.mix(true);
        let right = self.mix(false);
        self.output_left = Self::scale(left, self.volume_left);
        self.output_right = Self::scale(right, self.volume_right);
    }

    pub fn get_output_left(&self) -> (r: i16)
        ensures
            r == self.output_left,
    {
        self.output_left
    }

    pub fn get_output_right(&self) -> (r: i16)
        ensures
            r == self.output_right,
    {
        self.output_right
    }

    pub fn set_master_enabled(&mut self, enabled: bool)
        ensures
            *final(self) == (Apu { master_enabled: enabled, ..*old(self) }),
    {
        self.master_enabled = enabled;
    }

    pub fn is_master_enabled(&self) -> (r: bool)
        ensures
            r == self.master_enabled,
    {
        self.master_enabled
    }

    /// Sets the left volume, of which three bits count.
    pub fn set_volume_left(&mut self, volume: u8)
        ensures
            *final(self) == (Apu { volume_left: volume % 8, ..*old(self) }),
    {
        self.volume_left = volume % 8;
    }

    /// Sets the right volume, of which three bits count.
    pub fn set_volume_right(&mut self, volume: u8)
        ensures
            *final(self) == (Apu { volume_right: volume % 8, ..*old(self) }),
    {
        self.volume_right = volume % 8;
    }

    /// Switches a channel on or off on the left side; a channel number
    /// from 8 up is ignored.
    pub fn set_channel_enabled_left(&mut self, channel: usize, enabled: bool)
        ensures
            *final(self) == (Apu { left_enabled: final(self).left_enabled, ..*old(self) }),
            channel < 8 ==> final(self).left_enabled@ == old(self).left_enabled@.update(
                channel as int,
                enabled,
            ),
            channel >= 8 ==> final(self).left_enabled@ == old(self).left_enabled@,
    {
        if channel < 8 {
            self.left_enabled[channel] = enabled;
        }
    }

    /// Switches a channel on or off on the right side; a channel number
    /// from 8 up is ignored.
    pub fn set_channel_enabled_right(&mut self, channel: usize, enabled: bool)
        ensures
            *final(self) == (Apu { right_enabled: final(self).right_enabled, ..*old(self) }),
            channel < 8 ==> final(self).right_enabled@ == old(self).right_enabled@.update(
                channel as int,
                enabled,
            ),
            channel >= 8 ==> final(self).right_enabled@ == old(self).right_enabled@,
    {
        if channel < 8 {
            self.right_enabled[channel] = enabled;
        }
    }

    pub fn get_square1(&mut self) -> (r: &mut SquareChannel)
        ensures
            *r == old(self).square1,
            *final(self) == (Apu { square1: *final(r), ..*old(self) }),
    {
        &mut self.square1
    }

    pub fn get_square2(&mut self) -> (r: &mut SquareChannel)
        ensures
            *r == old(self).square2,
            *final(self) == (Apu { square2: *final(r), ..*old(self) }),
    {
        &mut self.square2
    }

    pub fn get_wave(&mut self) -> (r: &mut WaveChannel)
        ensures
            *r == old(self).wave,
            *final(self) == (Apu { wave: *final(r), ..*old(self) }),
    {
        &mut self.wave
    }

    pub fn get_noise(&mut self) -> (r: &mut NoiseChannel)
        ensures
            *r == old(self).noise,
            *final(self) == (Apu { noise: *final(r), ..*old(self) }),
    {
        &mut self.noise
    }

    pub fn get_ds_a(&mut self) -> (r: &mut DirectSoundChannel)
        ensures
            *r == old(self).ds_a,
            *final(self) == (Apu { ds_a: *final(r), ..*old(self) }),
    {
        &mut self.ds_a
    }

    pub fn get_ds_b(&mut self) -> (r: &mut DirectSoundChannel)
        ensures
            *r == old(self).ds_b,
            *final(self) == (Apu { ds_b: *final(r), ..*old(self) }),
    {
        &mut self.ds_b
    }
}

impl Default for Apu {
    fn default() -> (r: Self)
        ensures
            r.is_initial(),
    {
        Apu::new()
    }
}

} // verus!
