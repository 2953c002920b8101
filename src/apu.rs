use vstd::prelude::*;
use crate::rom::Rom;
use crate::util::{bit, test_bit};

verus! {

/// Length counter load values, indexed by the 5-bit load field.
pub open spec fn length_table(i: int) -> u8 {
    let t = seq![
        10u8, 254, 20, 2, 40, 4, 80, 6, 160, 8, 60, 10, 14, 12, 26, 14,
        12, 16, 24, 18, 48, 20, 96, 22, 192, 24, 72, 26, 16, 28, 32, 30,
    ];
    t[i]
}

/// Noise timer periods (NTSC), indexed by the 4-bit rate field.
pub open spec fn noise_period(i: int) -> u16 {
    let t = seq![4u16, 8, 16, 32, 64, 96, 128, 160, 202, 254, 380, 508, 762, 1016, 2034, 4068];
    t[i]
}

/// DMC timer periods in CPU cycles (NTSC), indexed by the 4-bit rate field.
pub open spec fn dmc_period(i: int) -> u16 {
    let t = seq![428u16, 380, 340, 320, 286, 254, 226, 214, 190, 160, 142, 128, 106, 84, 72, 54];
    t[i]
}

/// Triangle sequencer output at step `i` of 32: 15 down to 0, then 0 up to 15.
pub open spec fn triangle_step(i: int) -> u8 {
    if i < 16 {
        (15 - i) as u8
    } else {
        (i - 16) as u8
    }
}

/// Pulse duty pattern `duty` (0..3) at sequencer step `i` (0..7).
pub open spec fn duty_bit(duty: int, i: int) -> bool {
    if duty == 0 {
        i == 1
    } else if duty == 1 {
        i == 1 || i == 2
    } else if duty == 2 {
        1 <= i <= 4
    } else {
        !(i == 1 || i == 2)
    }
}

fn length_lookup(i: u8) -> (r: u8)
    requires
        i < 32,
    ensures
        r == length_table(i as int),
{
    let t: [u8; 32] = [
        10, 254, 20, 2, 40, 4, 80, 6, 160, 8, 60, 10, 14, 12, 26, 14,
        12, 16, 24, 18, 48, 20, 96, 22, 192, 24, 72, 26, 16, 28, 32, 30,
    ];
    proof {
        assert(t@ == seq![
            10u8, 254, 20, 2, 40, 4, 80, 6, 160, 8, 60, 10, 14, 12, 26, 14,
            12, 16, 24, 18, 48, 20, 96, 22, 192, 24, 72, 26, 16, 28, 32, 30,
        ]);
    }
    t[i as usize]
}

fn noise_lookup(i: u8) -> (r: u16)
    requires
        i < 16,
    ensures
        r == noise_period(i as int),
{
    let t: [u16; 16] = [4, 8, 16, 32, 64, 96, 128, 160, 202, 254, 380, 508, 762, 1016, 2034, 4068];
    proof {
        assert(t@ == seq![4u16, 8, 16, 32, 64, 96, 128, 160, 202, 254, 380, 508, 762, 1016, 2034, 4068]);
    }
    t[i as usize]
}

fn dmc_lookup(i: u8) -> (r: u16)
    requires
        i < 16,
    ensures
        r == dmc_period(i as int),
{
    let t: [u16; 16] = [428, 380, 340, 320, 286, 254, 226, 214, 190, 160, 142, 128, 106, 84, 72, 54];
    proof {
        assert(t@ == seq![428u16, 380, 340, 320, 286, 254, 226, 214, 190, 160, 142, 128, 106, 84, 72, 54]);
    }
    t[i as usize]
}

fn duty_lookup(duty: u8, i: u8) -> (r: bool)
    requires
        duty < 4,
        i < 8,
    ensures
        r == duty_bit(duty as int, i as int),
{
    if duty == 0 {
        i == 1
    } else if duty == 1 {
        i == 1 || i == 2
    } else if duty == 2 {
        1 <= i && i <= 4
    } else {
        !(i == 1 || i == 2)
    }
}

/// A down-counting divider that reloads from a period when it reaches zero.
struct Divider {
    period: u8,
}

impl Divider {
    /// Returns true when the counter was at zero and reloaded (the divider's output clock).
    fn clock(&mut self, period: u8) -> (r: bool)
        ensures
            r == (old(self).period == 0),
            final(self).period == if old(self).period == 0 {
                period
            } else {
                (old(self).period - 1) as u8
            },
    {
        if self.period == 0 {
            self.load(period);
            true
        } else {
            self.period = self.period - 1;
            false
        }
    }

    fn load(&mut self, period: u8)
        ensures
            final(self).period == period,
    {
        self.period = period;
    }
}

/// Envelope decay level, 15 down to 0.
struct DecayLevelCounter {
    count: u8,
}

impl DecayLevelCounter {
    fn clock(&mut self, loop_flag: bool)
        requires
            old(self).count <= 15,
        ensures
            final(self).count == if old(self).count == 0 {
                if loop_flag {
                    15u8
                } else {
                    0u8
                }
            } else {
                (old(self).count - 1) as u8
            },
    {
        if self.count == 0 {
            if loop_flag {
                self.reset();
            }
        } else {
            self.count = self.count - 1;
        }
    }

    fn reset(&mut self)
        ensures
            final(self).count == 15,
    {
        self.count = 15;
    }
}

/// Volume envelope of a pulse or noise channel.
struct Envelope {
    start: bool,
    divider: Divider,
    decay_level_counter: DecayLevelCounter,
    output: u8,
    volume: u8,
    constant_volume: bool,
}

impl Envelope {
    spec fn wf(&self) -> bool {
        &&& self.volume <= 15
        &&& self.decay_level_counter.count <= 15
        &&& self.output <= 15
    }

    fn new() -> (r: Envelope)
        ensures
            r.wf(),
            r.output == 0,
    {
        Envelope {
            start: false,
            divider: Divider { period: 0 },
            decay_level_counter: DecayLevelCounter { count: 0 },
            output: 0,
            volume: 0,
            constant_volume: false,
        }
    }

    /// Quarter-frame clock: restart on the start flag, else step the divider and,
    /// on its output, the decay level.
    fn clock(&mut self, loop_flag: bool)
        requires
            old(self).wf(),
        ensures
            final(self).wf(),
            !final(self).start,
            final(self).volume == old(self).volume,
            final(self).constant_volume == old(self).constant_volume,
            old(self).start ==> final(self).decay_level_counter.count == 15 && final(self).divider.period
                == old(self).volume,
            !old(self).start ==> final(self).divider.period == if old(self).divider.period == 0 {
                old(self).volume
            } else {
                (old(self).divider.period - 1) as u8
            },
            !old(self).start && old(self).divider.period != 0 ==> final(self).decay_level_counter
                == old(self).decay_level_counter,
            !old(self).start && old(self).divider.period == 0 ==> final(self).decay_level_counter.count
                == if old(self).decay_level_counter.count == 0 {
                if loop_flag {
                    15u8
                } else {
                    0u8
                }
            } else {
                (old(self).decay_level_counter.count - 1) as u8
            },
            final(self).output == if final(self).constant_volume {
                final(self).volume
            } else {
                final(self).decay_level_counter.count
            },
    {
        if self.start {
            self.start = false;
            self.decay_level_counter.reset();
            self.divider.load(self.volume);
        } else {
            if self.divider.clock(self.volume) {
                self.decay_level_counter.clock(loop_flag);
            }
        }
        self.output = if self.constant_volume {
            self.volume
        } else {
            self.decay_level_counter.count
        };
    }
}

/// Target period of a sweep: the timer plus or minus the timer shifted right; pulse 1
/// subtracts one more (ones' complement).
pub open spec fn sweep_target(timer: int, shift: int, negate: bool, is_pulse_1: bool) -> int {
    let change = timer / crate::util::pow2_byte(shift);
    if !negate {
        timer + change
    } else if is_pulse_1 {
        timer - change - 1
    } else {
        timer - change
    }
}

/// Sweep unit of a pulse channel.
struct Sweep {
    divider: Divider,
    reload_flag: bool,
    enabled_flag: bool,
    divider_period: u8,
    negate_flag: bool,
    shift_count: u8,
    mute: bool,
}

impl Sweep {
    spec fn wf(&self) -> bool {
        self.shift_count < 8
    }

    fn new() -> (r: Sweep)
        ensures
            r.wf(),
            !r.mute,
    {
        Sweep {
            divider: Divider { period: 0 },
            reload_flag: false,
            enabled_flag: false,
            divider_period: 0,
            negate_flag: false,
            shift_count: 0,
            mute: false,
        }
    }

    /// Half-frame clock. Returns the new timer period of the channel.
    fn clock(&mut self, timer: u16, is_pulse_1: bool) -> (r: u16)
        requires
            old(self).wf(),
            timer <= 0x7FF,
        ensures
            final(self).wf(),
            r <= 0x7FF,
            ({
                let target = sweep_target(
                    timer as int,
                    old(self).shift_count as int,
                    old(self).negate_flag,
                    is_pulse_1,
                );
                &&& final(self).mute == (timer < 8 || target < 0 || target > 0x7FF)
                &&& r == if old(self).enabled_flag && old(self).shift_count != 0
                    && old(self).divider.period == 0 && !final(self).mute {
                    target
                } else {
                    timer as int
                }
            }),
            final(self).divider.period == if old(self).divider.period == 0 || old(self).reload_flag {
                old(self).divider_period
            } else {
                (old(self).divider.period - 1) as u8
            },
            !final(self).reload_flag,
            final(self).enabled_flag == old(self).enabled_flag,
            final(self).divider_period == old(self).divider_period,
            final(self).negate_flag == old(self).negate_flag,
            final(self).shift_count == old(self).shift_count,
    {
        let change: u16 = timer / (crate::util::pow2_u8(self.shift_count) as u16);
        let (target, in_range): (u16, bool) = if !self.negate_flag {
            (timer + change, timer + change <= 0x7FF)
        } else if is_pulse_1 {
            if change + 1 <= timer {
                (timer - change - 1, true)
            } else {
                (0, false)
            }
        } else {
            (timer - change, true)
        };
        self.mute = timer < 8 || !in_range;
        let result = if self.enabled_flag && self.shift_count != 0 && self.divider.period == 0
            && !self.mute {
            target
        } else {
            timer
        };
        if self.divider.period == 0 || self.reload_flag {
            self.divider.load(self.divider_period);
            self.reload_flag = false;
        } else {
            self.divider.clock(self.divider_period);
        }
        result
    }

    fn setup(&mut self, enabled: bool, divider_period: u8, negate: bool, shift_count: u8)
        requires
            shift_count < 8,
        ensures
            final(self).wf(),
            final(self).enabled_flag == enabled,
            final(self).divider_period == divider_period,
            final(self).negate_flag == negate,
            final(self).shift_count == shift_count,
            final(self).reload_flag,
            *final(self) == (Sweep {
                enabled_flag: enabled,
                divider_period,
                negate_flag: negate,
                shift_count,
                reload_flag: true,
                ..*old(self)
            }),
    {
        self.enabled_flag = enabled;
        self.divider_period = divider_period;
        self.negate_flag = negate;
        self.shift_count = shift_count;
        self.reload_flag = true;
    }
}

/// Length counter shared by the four tone channels.
struct LengthCounter {
    length: u8,
    enable: bool,
}

impl LengthCounter {
    fn clock(&mut self, length_counter_halt: bool)
        ensures
            final(self).enable == old(self).enable,
            final(self).length == if !old(self).enable {
                0
            } else if !length_counter_halt && old(self).length != 0 {
                (old(self).length - 1) as u8
            } else {
                old(self).length
            },
    {
        if self.enable {
            if !length_counter_halt && self.length != 0 {
                self.length = self.length - 1;
            }
        } else {
            self.length = 0;
        }
    }

    fn set_length(&mut self, length_counter_load: u8)
        requires
            length_counter_load < 32,
        ensures
            final(self).enable == old(self).enable,
            final(self).length == if old(self).enable {
                length_table(length_counter_load as int)
            } else {
                old(self).length
            },
    {
        if self.enable {
            self.length = length_lookup(length_counter_load);
        }
    }

    fn set_enable(&mut self, value: bool)
        ensures
            final(self).enable == value,
            final(self).length == if value {
                old(self).length
            } else {
                0
            },
    {
        self.enable = value;
        if !value {
            self.length = 0;
        }
    }
}

/// Triangle channel.
struct Triangle {
    length_counter_halt: bool,
    liner_counter_reload_value: u8,
    liner_counter: u8,
    timer: u16,
    current_time: u16,
    current_sequencer_position: u8,
    length_counter: LengthCounter,
    liner_counter_reload_flag: bool,
}

impl Triangle {
    spec fn wf(&self) -> bool {
        &&& self.timer <= 0x7FF
        &&& self.current_time <= 0x7FF
        &&& self.current_sequencer_position < 32
        &&& self.liner_counter_reload_value < 128
    }

    fn new() -> (r: Triangle)
        ensures
            r.wf(),
            r.length_counter.length == 0,
    {
        Triangle {
            length_counter_halt: false,
            liner_counter_reload_value: 0,
            liner_counter: 0,
            timer: 0,
            current_time: 0,
            current_sequencer_position: 0,
            length_counter: LengthCounter { length: 0, enable: false },
            liner_counter_reload_flag: false,
        }
    }

    /// Quarter-frame clock of the linear counter.
    fn clock_linear_counter(&mut self)
        requires
            old(self).wf(),
        ensures
            final(self).wf(),
            final(self).liner_counter == if old(self).liner_counter_reload_flag {
                old(self).liner_counter_reload_value
            } else if old(self).liner_counter != 0 {
                (old(self).liner_counter - 1) as u8
            } else {
                0
            },
            final(self).liner_counter_reload_flag == (old(self).liner_counter_reload_flag
                && old(self).length_counter_halt),
            final(self).length_counter == old(self).length_counter,
            final(self).length_counter_halt == old(self).length_counter_halt,
            final(self).timer == old(self).timer,
            final(self).current_sequencer_position == old(self).current_sequencer_position,
    {
        if self.liner_counter_reload_flag {
            self.liner_counter = self.liner_counter_reload_value;
        } else if self.liner_counter != 0 {
            self.liner_counter = self.liner_counter - 1;
        }
        if !self.length_counter_halt {
            self.liner_counter_reload_flag = false;
        }
    }

    fn liner_counter_setup(&mut self, control_flag: bool, counter_reload_value: u8)
        requires
            old(self).wf(),
            counter_reload_value < 128,
        ensures
            final(self).wf(),
            *final(self) == (Triangle {
                length_counter_halt: control_flag,
                liner_counter_reload_value: counter_reload_value,
                ..*old(self)
            }),
    {
        self.length_counter_halt = control_flag;
        self.liner_counter_reload_value = counter_reload_value;
    }

    /// Timer clock: on reload the sequencer steps, but only while both counters are non-zero.
    fn clock(&mut self)
        requires
            old(self).wf(),
        ensures
            final(self).wf(),
            final(self).current_time == if old(self).current_time == 0 {
                old(self).timer
            } else {
                (old(self).current_time - 1) as u16
            },
            final(self).current_sequencer_position == if old(self).current_time == 0
                && old(self).liner_counter != 0 && old(self).length_counter.length != 0 {
                ((old(self).current_sequencer_position + 1) % 32) as u8
            } else {
                old(self).current_sequencer_position
            },
            final(self).length_counter == old(self).length_counter,
            final(self).timer == old(self).timer,
    {
        if self.current_time == 0 {
            self.current_time = self.timer;
            if self.liner_counter != 0 && self.length_counter.length != 0 {
                self.current_sequencer_position = (self.current_sequencer_position + 1) % 32;
            }
        } else {
            self.current_time = self.current_time - 1;
        }
    }

    /// Output level: the sequencer step, silenced when the timer period is below 2.
    fn get_value(&self) -> (r: u8)
        requires
            self.wf(),
        ensures
            r == if self.timer >= 2 {
                triangle_step(self.current_sequencer_position as int)
            } else {
                0
            },
            r <= 15,
    {
        if self.timer >= 2 {
            let p = self.current_sequencer_position;
            if p < 16 {
                15 - p
            } else {
                p - 16
            }
        } else {
            0
        }
    }

    fn set_timer_low(&mut self, value: u8)
        requires
            old(self).wf(),
        ensures
            final(self).wf(),
            *final(self) == (Triangle { timer: ((old(self).timer / 256) * 256 + value) as u16, ..*old(self) }),
    {
        self.timer = (self.timer / 256) * 256 + value as u16;
    }

    fn set_timer_high(&mut self, value: u8)
        requires
            old(self).wf(),
            value < 8,
        ensures
            final(self).wf(),
            *final(self) == (Triangle { timer: (value * 256 + old(self).timer % 256) as u16, ..*old(self) }),
    {
        self.timer = (value as u16) * 256 + self.timer % 256;
    }
}

/// 15-bit linear feedback shift register of the noise channel.
struct LinearFeedbackShiftRegister {
    register: u16,
    mode_flag: bool,
}

impl LinearFeedbackShiftRegister {
    spec fn wf(&self) -> bool {
        self.register < 0x8000
    }

    /// Feedback is bit 0 XOR bit 6 (mode set) or bit 1; shift right and put it in bit 14.
    fn clock(&mut self)
        requires
            old(self).wf(),
        ensures
            final(self).wf(),
            final(self).mode_flag == old(self).mode_flag,
            ({
                let r = old(self).register as int;
                let other = if old(self).mode_flag {
                    (r / 64) % 2
                } else {
                    (r / 2) % 2
                };
                let feedback = if r % 2 != other {
                    1int
                } else {
                    0
                };
                final(self).register == r / 2 + feedback * 0x4000
            }),
    {
        let other = if self.mode_flag {
            (self.register / 64) % 2
        } else {
            (self.register / 2) % 2
        };
        let feedback: u16 = if self.register % 2 != other {
            1
        } else {
            0
        };
        self.register = self.register / 2 + feedback * 0x4000;
    }
}

/// Noise channel.
struct Noise {
    envelope: Envelope,
    shift_register: LinearFeedbackShiftRegister,
    timer: u16,
    current_time: u16,
    length_counter: LengthCounter,
    length_counter_halt: bool,
}

impl Noise {
    spec fn wf(&self) -> bool {
        &&& self.envelope.wf()
        &&& self.shift_register.wf()
        &&& self.timer <= 4068
        &&& self.current_time <= 4068
    }

    fn new() -> (r: Noise)
        ensures
            r.wf(),
            r.shift_register.register == 1,
            r.length_counter.length == 0,
    {
        Noise {
            envelope: Envelope::new(),
            shift_register: LinearFeedbackShiftRegister { register: 1, mode_flag: false },
            timer: 0,
            current_time: 0,
            length_counter: LengthCounter { length: 0, enable: false },
            length_counter_halt: false,
        }
    }

    fn clock(&mut self)
        requires
            old(self).wf(),
        ensures
            final(self).wf(),
            final(self).current_time == if old(self).current_time == 0 {
                old(self).timer
            } else {
                (old(self).current_time - 1) as u16
            },
            old(self).current_time != 0 ==> final(self).shift_register == old(self).shift_register,
            final(self).envelope == old(self).envelope,
            final(self).length_counter == old(self).length_counter,
            final(self).timer == old(self).timer,
    {
        if self.current_time == 0 {
            self.current_time = self.timer;
            self.shift_register.clock();
        } else {
            self.current_time = self.current_time - 1;
        }
    }

    fn set_timer_period(&mut self, rate: u8)
        requires
            old(self).wf(),
            rate < 16,
        ensures
            final(self).wf(),
            *final(self) == (Noise { timer: noise_period(rate as int), ..*old(self) }),
    {
        self.timer = noise_lookup(rate);
    }

    fn clock_envelope(&mut self)
        requires
            old(self).wf(),
        ensures
            final(self).wf(),
            final(self).length_counter == old(self).length_counter,
            final(self).length_counter_halt == old(self).length_counter_halt,
    {
        self.envelope.clock(self.length_counter_halt);
    }

    fn clock_length_counter(&mut self)
        requires
            old(self).wf(),
        ensures
            final(self).wf(),
            final(self).length_counter_halt == old(self).length_counter_halt,
            final(self).length_counter.enable == old(self).length_counter.enable,
            final(self).length_counter.length == if !old(self).length_counter.enable {
                0
            } else if !old(self).length_counter_halt && old(self).length_counter.length != 0 {
                (old(self).length_counter.length - 1) as u8
            } else {
                old(self).length_counter.length
            },
    {
        self.length_counter.clock(self.length_counter_halt);
    }

    /// Zero when bit 0 of the shift register is set or the length counter is zero;
    /// otherwise the envelope output.
    fn get_value(&self) -> (r: u8)
        requires
            self.wf(),
        ensures
            r == if self.shift_register.register % 2 == 1 || self.length_counter.length == 0 {
                0
            } else {
                self.envelope.output
            },
            r <= 15,
    {
        if self.shift_register.register % 2 == 1 || self.length_counter.length == 0 {
            0
        } else {
            self.envelope.output
        }
    }
}

/// Pulse channel.
struct Pulse {
    duty: u8,
    length_counter_halt: bool,
    timer: u16,
    current_time: u16,
    current_sequencer_position: u8,
    envelope: Envelope,
    sweep: Sweep,
    length_counter: LengthCounter,
    last_output: u8,
    is_pulse_1: bool,
}

impl Pulse {
    spec fn wf(&self) -> bool {
        &&& self.duty < 4
        &&& self.timer <= 0x7FF
        &&& self.current_time <= 0x7FF
        &&& self.current_sequencer_position < 8
        &&& self.envelope.wf()
        &&& self.sweep.wf()
        &&& self.last_output <= 15
    }

    fn new(is_pulse_1: bool) -> (r: Pulse)
        ensures
            r.wf(),
            r.is_pulse_1 == is_pulse_1,
            r.length_counter.length == 0,
    {
        Pulse {
            duty: 0,
            length_counter_halt: false,
            timer: 0,
            current_time: 0,
            current_sequencer_position: 0,
            envelope: Envelope::new(),
            sweep: Sweep::new(),
            length_counter: LengthCounter { length: 0, enable: false },
            last_output: 0,
            is_pulse_1,
        }
    }

    fn clock_envelope(&mut self)
        requires
            old(self).wf(),
        ensures
            final(self).wf(),
            final(self).length_counter == old(self).length_counter,
            final(self).length_counter_halt == old(self).length_counter_halt,
            final(self).is_pulse_1 == old(self).is_pulse_1,
    {
        self.envelope.clock(self.length_counter_halt);
    }

    fn clock_length_counter(&mut self)
        requires
            old(self).wf(),
        ensures
            final(self).wf(),
            final(self).length_counter_halt == old(self).length_counter_halt,
            final(self).is_pulse_1 == old(self).is_pulse_1,
            final(self).length_counter.enable == old(self).length_counter.enable,
            final(self).length_counter.length == if !old(self).length_counter.enable {
                0
            } else if !old(self).length_counter_halt && old(self).length_counter.length != 0 {
                (old(self).length_counter.length - 1) as u8
            } else {
                old(self).length_counter.length
            },
    {
        self.length_counter.clock(self.length_counter_halt);
    }

    fn clock_sweep(&mut self)
        requires
            old(self).wf(),
        ensures
            final(self).wf(),
            final(self).length_counter == old(self).length_counter,
            final(self).length_counter_halt == old(self).length_counter_halt,
            final(self).is_pulse_1 == old(self).is_pulse_1,
    {
        self.timer = self.sweep.clock(self.timer, self.is_pulse_1);
    }

    fn set_sweep(&mut self, enabled: bool, divider_period: u8, negate: bool, shift_count: u8)
        requires
            old(self).wf(),
            shift_count < 8,
        ensures
            final(self).wf(),
            *final(self) == (Pulse {
                sweep: Sweep {
                    enabled_flag: enabled,
                    divider_period,
                    negate_flag: negate,
                    shift_count,
                    reload_flag: true,
                    ..old(self).sweep
                },
                ..*old(self)
            }),
    {
        self.sweep.setup(enabled, divider_period, negate, shift_count);
    }

    fn reset_sequencer(&mut self)
        requires
            old(self).wf(),
        ensures
            final(self).wf(),
            *final(self) == (Pulse { current_sequencer_position: 0, ..*old(self) }),
    {
        self.current_sequencer_position = 0;
    }

    /// Timer clock: on reload the duty sequencer advances one step; the output is the
    /// envelope unless muted by the sweep, the duty bit, the length counter or a timer below 8.
    fn clock(&mut self)
        requires
            old(self).wf(),
        ensures
            final(self).wf(),
            final(self).current_time == if old(self).current_time == 0 {
                old(self).timer
            } else {
                (old(self).current_time - 1) as u16
            },
            final(self).current_sequencer_position == if old(self).current_time == 0 {
                ((old(self).current_sequencer_position + 1) % 8) as u8
            } else {
                old(self).current_sequencer_position
            },
            final(self).last_output == if old(self).sweep.mute || !duty_bit(
                old(self).duty as int,
                final(self).current_sequencer_position as int,
            ) || old(self).length_counter.length == 0 || old(self).timer < 8 {
                0
            } else {
                old(self).envelope.output
            },
            final(self).length_counter == old(self).length_counter,
            final(self).is_pulse_1 == old(self).is_pulse_1,
    {
        let envelope = self.envelope.output;
        let length = self.length_counter.length;
        if self.current_time == 0 {
            self.current_time = self.timer;
            self.current_sequencer_position = (self.current_sequencer_position + 1) % 8;
        } else {
            self.current_time = self.current_time - 1;
        }
        let sequencer = duty_lookup(self.duty, self.current_sequencer_position);
        self.last_output = if self.sweep.mute || !sequencer || length == 0 || self.timer < 8 {
            0
        } else {
            envelope
        };
    }

    fn get_value(&self) -> (r: u8)
        requires
            self.wf(),
        ensures
            r == self.last_output,
            r <= 15,
    {
        self.last_output
    }

    fn set_timer_low(&mut self, value: u8)
        requires
            old(self).wf(),
        ensures
            final(self).wf(),
            *final(self) == (Pulse { timer: ((old(self).timer / 256) * 256 + value) as u16, ..*old(self) }),
    {
        self.timer = (self.timer / 256) * 256 + value as u16;
    }

    fn set_timer_high(&mut self, value: u8)
        requires
            old(self).wf(),
            value < 8,
        ensures
            final(self).wf(),
            *final(self) == (Pulse { timer: (value * 256 + old(self).timer % 256) as u16, ..*old(self) }),
    {
        self.timer = (value as u16) * 256 + self.timer % 256;
    }
}

/// Delta modulation channel.
struct Dmc {
    irq_enabled: bool,
    loop_flag: bool,
    timer: u16,
    current_time: u16,
    output_level: u8,
    sample_address: u16,
    sample_length: u16,
    current_address: u16,
    bytes_remaining: u16,
    shift_register: u8,
    bits_remaining: u8,
    silence: bool,
    sample_buffer: Option<u8>,
    irq_flag: bool,
}

impl Dmc {
    spec fn wf(&self) -> bool {
        &&& self.output_level < 128
        &&& self.timer <= 428
        &&& self.current_time <= 428
        &&& self.sample_address >= 0x8000
        &&& self.current_address >= 0x8000
        &&& 1 <= self.bits_remaining <= 8
        &&& 1 <= self.sample_length <= 4081
        &&& self.bytes_remaining <= 4081
    }

    fn new() -> (r: Dmc)
        ensures
            r.wf(),
            !r.irq_flag,
            r.bytes_remaining == 0,
    {
        Dmc {
            irq_enabled: false,
            loop_flag: false,
            timer: 428,
            current_time: 0,
            output_level: 0,
            sample_address: 0xC000,
            sample_length: 1,
            current_address: 0xC000,
            bytes_remaining: 0,
            shift_register: 0,
            bits_remaining: 8,
            silence: true,
            sample_buffer: None,
            irq_flag: false,
        }
    }

    /// $4010: IRQ enable, loop flag and rate index. Clearing IRQ enable clears the flag.
    fn write_control(&mut self, value: u8)
        requires
            old(self).wf(),
        ensures
            final(self).wf(),
            final(self).irq_enabled == bit(value, 7),
            final(self).loop_flag == bit(value, 6),
            final(self).timer == dmc_period(value as int % 16),
            final(self).irq_flag == (old(self).irq_flag && bit(value, 7)),
            final(self).bytes_remaining == old(self).bytes_remaining,
            *final(self) == (Dmc {
                irq_enabled: bit(value, 7),
                loop_flag: bit(value, 6),
                timer: dmc_period(value as int % 16),
                current_time: if old(self).current_time > dmc_period(value as int % 16) {
                    dmc_period(value as int % 16)
                } else {
                    old(self).current_time
                },
                irq_flag: old(self).irq_flag && bit(value, 7),
                ..*old(self)
            }),
    {
        self.irq_enabled = test_bit(value, 7);
        self.loop_flag = test_bit(value, 6);
        self.timer = dmc_lookup(value % 16);
        if self.current_time > self.timer {
            self.current_time = self.timer;
        }
        if !self.irq_enabled {
            self.irq_flag = false;
        }
    }

    /// Restarts the sample from its start address and length.
    fn restart(&mut self)
        requires
            old(self).wf(),
        ensures
            final(self).wf(),
            final(self).current_address == old(self).sample_address,
            final(self).bytes_remaining == old(self).sample_length,
            final(self).irq_flag == old(self).irq_flag,
            final(self).irq_enabled == old(self).irq_enabled,
            final(self).loop_flag == old(self).loop_flag,
            final(self).sample_address == old(self).sample_address,
            final(self).sample_length == old(self).sample_length,
    {
        self.current_address = self.sample_address;
        self.bytes_remaining = self.sample_length;
    }

    /// Enables or disables playback ($4015 bit 4); also clears the DMC IRQ flag.
    fn set_enable(&mut self, enable: bool)
        requires
            old(self).wf(),
        ensures
            final(self).wf(),
            !final(self).irq_flag,
            !enable ==> final(self).bytes_remaining == 0,
            enable && old(self).bytes_remaining == 0 ==> final(self).bytes_remaining
                == old(self).sample_length && final(self).current_address == old(self).sample_address,
            final(self).sample_address == old(self).sample_address,
            final(self).sample_length == old(self).sample_length,
            enable && old(self).bytes_remaining != 0 ==> final(self).bytes_remaining
                == old(self).bytes_remaining,
    {
        self.irq_flag = false;
        if !enable {
            self.bytes_remaining = 0;
        } else if self.bytes_remaining == 0 {
            self.restart();
        }
    }

    /// Output unit: on each timer reload one bit of the shift register moves the level by 2,
    /// staying within 0..127.
    fn clock_output(&mut self)
        requires
            old(self).wf(),
        ensures
            final(self).wf(),
            final(self).irq_flag == old(self).irq_flag,
            final(self).bytes_remaining == old(self).bytes_remaining,
            final(self).irq_enabled == old(self).irq_enabled,
            old(self).current_time != 0 ==> final(self).output_level == old(self).output_level
                && final(self).shift_register == old(self).shift_register,
            old(self).current_time == 0 ==> {
                let up = old(self).shift_register % 2 == 1;
                &&& final(self).output_level == if old(self).silence {
                    old(self).output_level
                } else if up && old(self).output_level <= 125 {
                    (old(self).output_level + 2) as u8
                } else if !up && old(self).output_level >= 2 {
                    (old(self).output_level - 2) as u8
                } else {
                    old(self).output_level
                }
                &&& old(self).bits_remaining > 1 ==> final(self).shift_register == old(self).shift_register / 2
            },
    {
        if self.current_time != 0 {
            self.current_time = self.current_time - 1;
            return;
        }
        self.current_time = self.timer;
        if !self.silence {
            if self.shift_register % 2 == 1 {
                if self.output_level <= 125 {
                    self.output_level = self.output_level + 2;
                }
            } else if self.output_level >= 2 {
                self.output_level = self.output_level - 2;
            }
        }
        self.shift_register = self.shift_register / 2;
        self.bits_remaining = self.bits_remaining - 1;
        if self.bits_remaining == 0 {
            self.bits_remaining = 8;
            match self.sample_buffer {
                Some(b) => {
                    self.shift_register = b;
                    self.silence = false;
                    self.sample_buffer = None;
                },
                None => {
                    self.silence = true;
                },
            }
        }
    }

    /// Memory reader: fills the empty sample buffer from PRG, wrapping from $FFFF to $8000.
    /// At the end of the sample it restarts (loop) or raises its IRQ (IRQ enabled).
    fn fetch(&mut self, rom: &Rom)
        requires
            old(self).wf(),
        ensures
            final(self).wf(),
            old(self).irq_flag ==> final(self).irq_flag,
            final(self).irq_enabled == old(self).irq_enabled,
            old(self).bytes_remaining == 0 ==> *final(self) == *old(self),
            final(self).irq_flag && !old(self).irq_flag ==> old(self).bytes_remaining == 1
                && !old(self).loop_flag && old(self).irq_enabled,
    {
        if self.sample_buffer.is_none() && self.bytes_remaining > 0 {
            self.sample_buffer = Some(rom.read_prg(self.current_address));
            self.current_address = if self.current_address == 0xFFFF {
                0x8000
            } else {
                self.current_address + 1
            };
            self.bytes_remaining = self.bytes_remaining - 1;
            if self.bytes_remaining == 0 {
                if self.loop_flag {
                    self.restart();
                } else if self.irq_enabled {
                    self.irq_flag = true;
                }
            }
        }
    }

    fn get_value(&self) -> (r: u8)
        requires
            self.wf(),
        ensures
            r == self.output_level,
            r < 128,
    {
        self.output_level
    }
}

/// Levels of the five channels at one CPU cycle, the inputs of the mixer.
#[derive(PartialEq, Eq, Structural, Debug, Clone, Copy)]
pub struct ChannelOutputs {
    pub pulse1: u8,
    pub pulse2: u8,
    pub triangle: u8,
    pub noise: u8,
    pub dmc: u8,
}

impl ChannelOutputs {
    /// Tone channels are 4-bit, DMC is 7-bit.
    pub open spec fn wf(&self) -> bool {
        &&& self.pulse1 <= 15
        &&& self.pulse2 <= 15
        &&& self.triangle <= 15
        &&& self.noise <= 15
        &&& self.dmc <= 127
    }

    /// Indices into the mixer's pulse table (31 entries) and TND table (203 entries):
    /// `pulse1 + pulse2` and `3 * triangle + 2 * noise + dmc`.
    pub fn mix_index(&self) -> (r: (usize, usize))
        requires
            self.wf(),
        ensures
            r.0 == self.pulse1 + self.pulse2,
            r.1 == 3 * self.triangle + 2 * self.noise + self.dmc,
            r.0 < 31,
            r.1 < 203,
    {
        (
            self.pulse1 as usize + self.pulse2 as usize,
            3 * (self.triangle as usize) + 2 * (self.noise as usize) + self.dmc as usize,
        )
    }
}

/// Frame sequencer: quarter- and half-frame clocks and the frame IRQ.
struct FrameCounter {
    mode: bool,
    interrupt_inhibit: bool,
    count: u16,
    interrupt_flag: bool,
}

/// Quarter-frame clock: envelopes and the triangle's linear counter.
fn quarter_frame(pulse1: &mut Pulse, pulse2: &mut Pulse, triangle: &mut Triangle, noise: &mut Noise)
    requires
        old(pulse1).wf(),
        old(pulse2).wf(),
        old(triangle).wf(),
        old(noise).wf(),
    ensures
        final(pulse1).wf(),
        final(pulse2).wf(),
        final(triangle).wf(),
        final(noise).wf(),
        final(pulse1).is_pulse_1 == old(pulse1).is_pulse_1,
        final(pulse2).is_pulse_1 == old(pulse2).is_pulse_1,
        final(pulse1).length_counter == old(pulse1).length_counter,
        final(pulse2).length_counter == old(pulse2).length_counter,
        final(triangle).length_counter == old(triangle).length_counter,
        final(noise).length_counter == old(noise).length_counter,
        final(pulse1).length_counter_halt == old(pulse1).length_counter_halt,
        final(pulse2).length_counter_halt == old(pulse2).length_counter_halt,
        final(triangle).length_counter_halt == old(triangle).length_counter_halt,
        final(noise).length_counter_halt == old(noise).length_counter_halt,
{
    pulse1.clock_envelope();
    pulse2.clock_envelope();
    noise.clock_envelope();
    triangle.clock_linear_counter();
}

/// A length counter after a half-frame clock: zero when disabled, one less when running
/// and neither halted nor at zero.
spec fn clocked_length(l: LengthCounter, halt: bool) -> LengthCounter {
    LengthCounter {
        length: if !l.enable {
            0
        } else if !halt && l.length != 0 {
            (l.length - 1) as u8
        } else {
            l.length
        },
        ..l
    }
}

/// Half-frame clock: a quarter-frame clock plus length counters and sweeps.
fn half_frame(pulse1: &mut Pulse, pulse2: &mut Pulse, triangle: &mut Triangle, noise: &mut Noise)
    requires
        old(pulse1).wf(),
        old(pulse2).wf(),
        old(triangle).wf(),
        old(noise).wf(),
    ensures
        final(pulse1).wf(),
        final(pulse2).wf(),
        final(triangle).wf(),
        final(noise).wf(),
        final(pulse1).is_pulse_1 == old(pulse1).is_pulse_1,
        final(pulse2).is_pulse_1 == old(pulse2).is_pulse_1,
        final(pulse1).length_counter == clocked_length(old(pulse1).length_counter, old(pulse1).length_counter_halt),
        final(pulse2).length_counter == clocked_length(old(pulse2).length_counter, old(pulse2).length_counter_halt),
        final(triangle).length_counter == clocked_length(
            old(triangle).length_counter,
            old(triangle).length_counter_halt,
        ),
        final(noise).length_counter == clocked_length(old(noise).length_counter, old(noise).length_counter_halt),
        final(pulse1).length_counter_halt == old(pulse1).length_counter_halt,
        final(pulse2).length_counter_halt == old(pulse2).length_counter_halt,
        final(triangle).length_counter_halt == old(triangle).length_counter_halt,
        final(noise).length_counter_halt == old(noise).length_counter_halt,
{
    quarter_frame(pulse1, pulse2, triangle, noise);
    pulse1.clock_length_counter();
    pulse2.clock_length_counter();
    noise.clock_length_counter();
    triangle.length_counter.clock(triangle.length_counter_halt);
    pulse1.clock_sweep();
    pulse2.clock_sweep();
}

impl FrameCounter {
    spec fn wf(&self) -> bool {
        if self.mode {
            self.count <= 18640
        } else {
            self.count <= 14914
        }
    }

    /// One CPU cycle. 4-step mode fires at 3728, 7456, 11185 and 14914 (the last sets
    /// the IRQ flag unless inhibited, and restarts); 5-step mode skips 14914 and fires
    /// and restarts at 18640.
    fn clock(&mut self, pulse1: &mut Pulse, pulse2: &mut Pulse, triangle: &mut Triangle, noise: &mut Noise)
        requires
            old(self).wf(),
            old(pulse1).wf(),
            old(pulse2).wf(),
            old(triangle).wf(),
            old(noise).wf(),
        ensures
            final(self).wf(),
            final(pulse1).wf(),
            final(pulse2).wf(),
            final(triangle).wf(),
            final(noise).wf(),
            final(pulse1).is_pulse_1 == old(pulse1).is_pulse_1,
            final(pulse2).is_pulse_1 == old(pulse2).is_pulse_1,
            final(self).mode == old(self).mode,
            final(self).interrupt_inhibit == old(self).interrupt_inhibit,
            !old(self).mode && old(self).count == 14914 ==> final(self).count == 0
                && final(self).interrupt_flag == (old(self).interrupt_flag
                || !old(self).interrupt_inhibit),
            old(self).mode && old(self).count == 18640 ==> final(self).count == 0
                && final(self).interrupt_flag == old(self).interrupt_flag,
            !(!old(self).mode && old(self).count == 14914) && !(old(self).mode && old(self).count
                == 18640) ==> final(self).count == old(self).count + 1 && final(self).interrupt_flag
                == old(self).interrupt_flag,
    {
        if self.count == 3728 || self.count == 11185 {
            quarter_frame(pulse1, pulse2, triangle, noise);
        } else if self.count == 7456 {
            half_frame(pulse1, pulse2, triangle, noise);
        } else if self.count == 14914 && !self.mode {
            half_frame(pulse1, pulse2, triangle, noise);
            self.count = 0;
            if !self.interrupt_inhibit {
                self.interrupt_flag = true;
            }
            return;
        } else if self.count == 18640 {
            half_frame(pulse1, pulse2, triangle, noise);
            self.count = 0;
            return;
        }
        self.count = self.count + 1;
    }

    /// $4017: mode and IRQ inhibit; restarts the sequence. 5-step mode fires a half-frame
    /// clock at once; setting inhibit clears the IRQ flag.
    fn set(
        &mut self,
        mode: bool,
        interrupt_inhibit: bool,
        pulse1: &mut Pulse,
        pulse2: &mut Pulse,
        triangle: &mut Triangle,
        noise: &mut Noise,
    )
        requires
            old(pulse1).wf(),
            old(pulse2).wf(),
            old(triangle).wf(),
            old(noise).wf(),
        ensures
            final(self).wf(),
            final(pulse1).wf(),
            final(pulse2).wf(),
            final(triangle).wf(),
            final(noise).wf(),
            final(pulse1).is_pulse_1 == old(pulse1).is_pulse_1,
            final(pulse2).is_pulse_1 == old(pulse2).is_pulse_1,
            final(self).mode == mode,
            final(self).interrupt_inhibit == interrupt_inhibit,
            final(self).count == 0,
            final(self).interrupt_flag == (old(self).interrupt_flag && !interrupt_inhibit),
            final(pulse1).length_counter_halt == old(pulse1).length_counter_halt,
            final(pulse2).length_counter_halt == old(pulse2).length_counter_halt,
            final(triangle).length_counter_halt == old(triangle).length_counter_halt,
            final(noise).length_counter_halt == old(noise).length_counter_halt,
            final(pulse1).length_counter == if mode {
                clocked_length(old(pulse1).length_counter, old(pulse1).length_counter_halt)
            } else {
                old(pulse1).length_counter
            },
            final(pulse2).length_counter == if mode {
                clocked_length(old(pulse2).length_counter, old(pulse2).length_counter_halt)
            } else {
                old(pulse2).length_counter
            },
            final(triangle).length_counter == if mode {
                clocked_length(old(triangle).length_counter, old(triangle).length_counter_halt)
            } else {
                old(triangle).length_counter
            },
            final(noise).length_counter == if mode {
                clocked_length(old(noise).length_counter, old(noise).length_counter_halt)
            } else {
                old(noise).length_counter
            },
    {
        self.mode = mode;
        self.interrupt_inhibit = interrupt_inhibit;
        self.count = 0;
        if interrupt_inhibit {
            self.interrupt_flag = false;
        }
        if mode {
            half_frame(pulse1, pulse2, triangle, noise);
        }
    }
}

/// A pulse channel after a write to its control register ($4000/$4004): duty, length
/// halt, constant volume and volume.
spec fn pulse_after_control(p: Pulse, value: u8) -> Pulse {
    Pulse {
        duty: value / 64,
        length_counter_halt: bit(value, 5),
        envelope: Envelope { constant_volume: bit(value, 4), volume: value % 16, ..p.envelope },
        ..p
    }
}

/// A pulse channel after a write to its sweep register ($4001/$4005).
spec fn pulse_after_sweep(p: Pulse, value: u8) -> Pulse {
    Pulse {
        sweep: Sweep {
            enabled_flag: bit(value, 7),
            divider_period: (value / 16) % 8,
            negate_flag: bit(value, 3),
            shift_count: value % 8,
            reload_flag: true,
            ..p.sweep
        },
        ..p
    }
}

/// A pulse channel after a write to its timer-high register ($4003/$4007): timer bits
/// 8-10, length load (when enabled), envelope restart and sequencer reset.
spec fn pulse_after_high(p: Pulse, value: u8) -> Pulse {
    Pulse {
        timer: ((value % 8) * 256 + p.timer % 256) as u16,
        length_counter: LengthCounter {
            length: if p.length_counter.enable {
                length_table(value as int / 8)
            } else {
                p.length_counter.length
            },
            ..p.length_counter
        },
        envelope: Envelope { start: true, ..p.envelope },
        current_sequencer_position: 0,
        ..p
    }
}

/// The audio processing unit: two pulse channels, triangle, noise, DMC and the frame sequencer.
pub struct Apu {
    pulse1: Pulse,
    pulse2: Pulse,
    triangle: Triangle,
    noise: Noise,
    dmc: Dmc,
    frame_counter: FrameCounter,
    clock_count: u8,
}

impl Apu {
    /// Every unit's counters are in range.
    pub closed spec fn wf(&self) -> bool {
        &&& self.pulse1.wf()
        &&& self.pulse2.wf()
        &&& self.pulse1.is_pulse_1
        &&& !self.pulse2.is_pulse_1
        &&& self.triangle.wf()
        &&& self.noise.wf()
        &&& self.dmc.wf()
        &&& self.frame_counter.wf()
        &&& self.clock_count < 2
    }

    /// The frame IRQ flag.
    pub closed spec fn frame_irq(&self) -> bool {
        self.frame_counter.interrupt_flag
    }

    /// The DMC IRQ flag.
    pub closed spec fn dmc_irq(&self) -> bool {
        self.dmc.irq_flag
    }

    /// CPU cycles since the frame sequencer last restarted.
    pub closed spec fn frame_count(&self) -> int {
        self.frame_counter.count as int
    }

    /// True in 5-step mode.
    pub closed spec fn five_step(&self) -> bool {
        self.frame_counter.mode
    }

    /// The frame IRQ inhibit flag.
    pub closed spec fn irq_inhibit(&self) -> bool {
        self.frame_counter.interrupt_inhibit
    }

    /// Channel `ch` (pulse 1, pulse 2, triangle, noise, DMC) is active: its length
    /// counter, or for the DMC its remaining byte count, is non-zero.
    pub closed spec fn channel_active(&self, ch: int) -> bool {
        if ch == 0 {
            self.pulse1.length_counter.length > 0
        } else if ch == 1 {
            self.pulse2.length_counter.length > 0
        } else if ch == 2 {
            self.triangle.length_counter.length > 0
        } else if ch == 3 {
            self.noise.length_counter.length > 0
        } else {
            self.dmc.bytes_remaining > 0
        }
    }

    /// The levels that the channels output now.
    pub closed spec fn channel_levels(&self) -> ChannelOutputs {
        ChannelOutputs {
            pulse1: self.pulse1.last_output,
            pulse2: self.pulse2.last_output,
            triangle: if self.triangle.timer >= 2 {
                triangle_step(self.triangle.current_sequencer_position as int)
            } else {
                0
            },
            noise: if self.noise.shift_register.register % 2 == 1 || self.noise.length_counter.length == 0 {
                0
            } else {
                self.noise.envelope.output
            },
            dmc: self.dmc.output_level,
        }
    }

    /// The APU after a write to a register other than $4015 and $4017 (the low byte of the
    /// address is `addr`); unmapped addresses change nothing.
    pub closed spec fn after_write(self, addr: u8, value: u8) -> Apu {
        if addr == 0x00 {
            Apu { pulse1: pulse_after_control(self.pulse1, value), ..self }
        } else if addr == 0x04 {
            Apu { pulse2: pulse_after_control(self.pulse2, value), ..self }
        } else if addr == 0x01 {
            Apu { pulse1: pulse_after_sweep(self.pulse1, value), ..self }
        } else if addr == 0x05 {
            Apu { pulse2: pulse_after_sweep(self.pulse2, value), ..self }
        } else if addr == 0x02 {
            Apu { pulse1: Pulse { timer: ((self.pulse1.timer / 256) * 256 + value) as u16, ..self.pulse1 }, ..self }
        } else if addr == 0x06 {
            Apu { pulse2: Pulse { timer: ((self.pulse2.timer / 256) * 256 + value) as u16, ..self.pulse2 }, ..self }
        } else if addr == 0x03 {
            Apu { pulse1: pulse_after_high(self.pulse1, value), ..self }
        } else if addr == 0x07 {
            Apu { pulse2: pulse_after_high(self.pulse2, value), ..self }
        } else if addr == 0x08 {
            Apu {
                triangle: Triangle {
                    length_counter_halt: bit(value, 7),
                    liner_counter_reload_value: value % 128,
                    ..self.triangle
                },
                ..self
            }
        } else if addr == 0x0A {
            Apu {
                triangle: Triangle { timer: ((self.triangle.timer / 256) * 256 + value) as u16, ..self.triangle },
                ..self
            }
        } else if addr == 0x0B {
            Apu {
                triangle: Triangle {
                    timer: ((value % 8) * 256 + self.triangle.timer % 256) as u16,
                    length_counter: LengthCounter {
                        length: if self.triangle.length_counter.enable {
                            length_table(value as int / 8)
                        } else {
                            self.triangle.length_counter.length
                        },
                        ..self.triangle.length_counter
                    },
                    liner_counter_reload_flag: true,
                    ..self.triangle
                },
                ..self
            }
        } else if addr == 0x0C {
            Apu {
                noise: Noise {
                    length_counter_halt: bit(value, 5),
                    envelope: Envelope { constant_volume: bit(value, 4), volume: value % 16, ..self.noise.envelope },
                    ..self.noise
                },
                ..self
            }
        } else if addr == 0x0E {
            Apu {
                noise: Noise {
                    shift_register: LinearFeedbackShiftRegister { mode_flag: bit(value, 7), ..self.noise.shift_register },
                    timer: noise_period(value as int % 16),
                    ..self.noise
                },
                ..self
            }
        } else if addr == 0x0F {
            Apu {
                noise: Noise {
                    length_counter: LengthCounter {
                        length: if self.noise.length_counter.enable {
                            length_table(value as int / 8)
                        } else {
                            self.noise.length_counter.length
                        },
                        ..self.noise.length_counter
                    },
                    envelope: Envelope { start: true, ..self.noise.envelope },
                    ..self.noise
                },
                ..self
            }
        } else if addr == 0x10 {
            let period = dmc_period(value as int % 16);
            Apu {
                dmc: Dmc {
                    irq_enabled: bit(value, 7),
                    loop_flag: bit(value, 6),
                    timer: period,
                    current_time: if self.dmc.current_time > period {
                        period
                    } else {
                        self.dmc.current_time
                    },
                    irq_flag: self.dmc.irq_flag && bit(value, 7),
                    ..self.dmc
                },
                ..self
            }
        } else if addr == 0x11 {
            Apu { dmc: Dmc { output_level: value % 128, ..self.dmc }, ..self }
        } else if addr == 0x12 {
            Apu { dmc: Dmc { sample_address: (0xC000 + value * 64) as u16, ..self.dmc }, ..self }
        } else if addr == 0x13 {
            Apu { dmc: Dmc { sample_length: (value * 16 + 1) as u16, ..self.dmc }, ..self }
        } else {
            self
        }
    }

    /// The length counter of tone channel `ch` (pulse 1, pulse 2, triangle, noise).
    pub closed spec fn length_counter(&self, ch: int) -> (u8, bool, bool) {
        if ch == 0 {
            (self.pulse1.length_counter.length, self.pulse1.length_counter.enable, self.pulse1.length_counter_halt)
        } else if ch == 1 {
            (self.pulse2.length_counter.length, self.pulse2.length_counter.enable, self.pulse2.length_counter_halt)
        } else if ch == 2 {
            (
                self.triangle.length_counter.length,
                self.triangle.length_counter.enable,
                self.triangle.length_counter_halt,
            )
        } else {
            (self.noise.length_counter.length, self.noise.length_counter.enable, self.noise.length_counter_halt)
        }
    }

    /// What a write of `value` to $4015 does: channels whose bit is clear stop (length or
    /// remaining bytes to 0), enabled tone channels keep their length counters, an
    /// enabled idle DMC restarts its sample, and the DMC IRQ flag clears.
    pub open spec fn status_write_effect(o: Apu, n: Apu, value: u8) -> bool {
        &&& !n.dmc_irq()
        &&& n.frame_irq() == o.frame_irq()
        &&& n.frame_count() == o.frame_count()
        &&& n.five_step() == o.five_step()
        &&& n.irq_inhibit() == o.irq_inhibit()
        &&& forall|ch: int| 0 <= ch < 5 && !bit(value, ch) ==> !#[trigger] n.channel_active(ch)
        &&& bit(value, 4) && !o.channel_active(4) ==> n.dmc_restarted()
        &&& bit(value, 4) ==> n.channel_active(4)
        &&& forall|ch: int|
            0 <= ch < 4 && bit(value, ch) ==> #[trigger] n.length_counter(ch).0 == o.length_counter(ch).0
        &&& forall|ch: int| 0 <= ch < 4 ==> #[trigger] n.length_counter(ch).1 == bit(value, ch)
        &&& forall|ch: int| 0 <= ch < 4 ==> #[trigger] n.length_counter(ch).2 == o.length_counter(ch).2
    }

    /// The APU with the frame IRQ flag cleared and nothing else changed.
    pub closed spec fn without_frame_irq(self) -> Apu {
        Apu { frame_counter: FrameCounter { interrupt_flag: false, ..self.frame_counter }, ..self }
    }

    /// Clearing the frame IRQ flag changes no other view of the APU.
    pub proof fn lemma_without_frame_irq(&self)
        ensures
            !self.without_frame_irq().frame_irq(),
            self.without_frame_irq().dmc_irq() == self.dmc_irq(),
            self.without_frame_irq().frame_count() == self.frame_count(),
            self.without_frame_irq().five_step() == self.five_step(),
            self.without_frame_irq().irq_inhibit() == self.irq_inhibit(),
            self.without_frame_irq().channel_levels() == self.channel_levels(),
            self.wf() ==> self.without_frame_irq().wf(),
            forall|ch: int| #[trigger] self.without_frame_irq().channel_active(ch) == self.channel_active(ch),
            forall|ch: int| #[trigger] self.without_frame_irq().length_counter(ch) == self.length_counter(ch),
    {
    }

    /// The DMC sample restarted from its start address and full length.
    pub closed spec fn dmc_restarted(&self) -> bool {
        &&& self.dmc.current_address == self.dmc.sample_address
        &&& self.dmc.bytes_remaining == self.dmc.sample_length
    }

    /// The value that a read of $4015 returns: DMC IRQ in bit 7, frame IRQ in bit 6,
    /// then the activity of DMC, noise, triangle, pulse 2 and pulse 1 in bits 4 to 0.
    pub open spec fn status_byte(&self) -> int {
        crate::util::flag_value(self.dmc_irq(), 7) + crate::util::flag_value(self.frame_irq(), 6) + crate::util::flag_value(self.channel_active(4), 4) + crate::util::flag_value(
            self.channel_active(3),
            3,
        ) + crate::util::flag_value(self.channel_active(2), 2) + crate::util::flag_value(
            self.channel_active(1),
            1,
        ) + crate::util::flag_value(self.channel_active(0), 0)
    }

    /// A silent APU in 4-step mode with the frame IRQ enabled.
    pub fn new() -> (r: Apu)
        ensures
            r.wf(),
            !r.frame_irq(),
            !r.dmc_irq(),
            r.frame_count() == 0,
            !r.five_step(),
            !r.irq_inhibit(),
            r.status_byte() == 0,
            forall|ch: int| !#[trigger] r.channel_active(ch),
    {
        Apu {
            pulse1: Pulse::new(true),
            pulse2: Pulse::new(false),
            triangle: Triangle::new(),
            noise: Noise::new(),
            dmc: Dmc::new(),
            frame_counter: FrameCounter { mode: false, interrupt_inhibit: false, count: 0, interrupt_flag: false },
            clock_count: 0,
        }
    }

    /// One CPU cycle: the frame sequencer, triangle and DMC every cycle; pulses and noise
    /// every other cycle. Returns the channel levels for the mixer.
    pub fn clock(&mut self, rom: &Rom) -> (r: ChannelOutputs)
        requires
            old(self).wf(),
        ensures
            final(self).wf(),
            r.wf(),
            r == final(self).channel_levels(),
            final(self).five_step() == old(self).five_step(),
            final(self).irq_inhibit() == old(self).irq_inhibit(),
            !old(self).five_step() && old(self).frame_count() == 14914 ==> final(self).frame_count()
                == 0 && final(self).frame_irq() == (old(self).frame_irq() || !old(self).irq_inhibit()),
            old(self).five_step() && old(self).frame_count() == 18640 ==> final(self).frame_count()
                == 0 && final(self).frame_irq() == old(self).frame_irq(),
            !(!old(self).five_step() && old(self).frame_count() == 14914) && !(old(self).five_step()
                && old(self).frame_count() == 18640) ==> final(self).frame_count()
                == old(self).frame_count() + 1 && final(self).frame_irq() == old(self).frame_irq(),
            old(self).dmc_irq() ==> final(self).dmc_irq(),
            !old(self).channel_active(4) ==> final(self).dmc_irq() == old(self).dmc_irq() && !final(self).channel_active(4),
    {
        self.frame_counter.clock(&mut self.pulse1, &mut self.pulse2, &mut self.triangle, &mut self.noise);
        if self.clock_count == 0 {
            self.pulse1.clock();
            self.pulse2.clock();
            self.noise.clock();
        }
        self.triangle.clock();
        self.dmc.fetch(rom);
        self.dmc.clock_output();
        self.clock_count = (self.clock_count + 1) % 2;
        ChannelOutputs {
            pulse1: self.pulse1.get_value(),
            pulse2: self.pulse2.get_value(),
            triangle: self.triangle.get_value(),
            noise: self.noise.get_value(),
            dmc: self.dmc.get_value(),
        }
    }

    fn write_pulse_control(pulse: &mut Pulse, value: u8)
        requires
            old(pulse).wf(),
        ensures
            final(pulse).wf(),
            final(pulse).duty == value / 64,
            final(pulse).length_counter_halt == bit(value, 5),
            final(pulse).envelope.constant_volume == bit(value, 4),
            final(pulse).envelope.volume == value % 16,
            *final(pulse) == pulse_after_control(*old(pulse), value),
    {
        pulse.duty = value / 64;
        pulse.length_counter_halt = test_bit(value, 5);
        pulse.envelope.constant_volume = test_bit(value, 4);
        pulse.envelope.volume = value % 16;
    }

    fn write_pulse_sweep(pulse: &mut Pulse, value: u8)
        requires
            old(pulse).wf(),
        ensures
            final(pulse).wf(),
            final(pulse).sweep.enabled_flag == bit(value, 7),
            final(pulse).sweep.divider_period == (value / 16) % 8,
            final(pulse).sweep.negate_flag == bit(value, 3),
            final(pulse).sweep.shift_count == value % 8,
            *final(pulse) == pulse_after_sweep(*old(pulse), value),
    {
        pulse.set_sweep(test_bit(value, 7), (value / 16) % 8, test_bit(value, 3), value % 8);
    }

    fn write_pulse_high(pulse: &mut Pulse, value: u8)
        requires
            old(pulse).wf(),
        ensures
            final(pulse).wf(),
            final(pulse).timer == (value % 8) as int * 256 + old(pulse).timer % 256,
            final(pulse).length_counter.enable == old(pulse).length_counter.enable,
            final(pulse).length_counter.length == if old(pulse).length_counter.enable {
                length_table(value as int / 8)
            } else {
                old(pulse).length_counter.length
            },
            final(pulse).envelope.start,
            final(pulse).current_sequencer_position == 0,
            *final(pulse) == pulse_after_high(*old(pulse), value),
    {
        pulse.length_counter.set_length(value / 8);
        pulse.set_timer_high(value % 8);
        pulse.envelope.start = true;
        pulse.reset_sequencer();
    }

    /// Pulse registers $4000-$4007.
    fn write_pulse(&mut self, addr: u8, value: u8)
        requires
            old(self).wf(),
            addr < 0x08,
        ensures
            final(self).wf(),
            *final(self) == old(self).after_write(addr, value),
    {
        if addr == 0x00 {
            Self::write_pulse_control(&mut self.pulse1, value);
        } else if addr == 0x04 {
            Self::write_pulse_control(&mut self.pulse2, value);
        } else if addr == 0x01 {
            Self::write_pulse_sweep(&mut self.pulse1, value);
        } else if addr == 0x05 {
            Self::write_pulse_sweep(&mut self.pulse2, value);
        } else if addr == 0x02 {
            self.pulse1.set_timer_low(value);
        } else if addr == 0x06 {
            self.pulse2.set_timer_low(value);
        } else if addr == 0x03 {
            Self::write_pulse_high(&mut self.pulse1, value);
        } else if addr == 0x07 {
            Self::write_pulse_high(&mut self.pulse2, value);
        }
    }

    /// Triangle and noise registers $4008-$400F.
    fn write_triangle_noise(&mut self, addr: u8, value: u8)
        requires
            old(self).wf(),
            0x08 <= addr < 0x10,
        ensures
            final(self).wf(),
            *final(self) == old(self).after_write(addr, value),
    {
        if addr == 0x08 {
            self.triangle.liner_counter_setup(test_bit(value, 7), value % 128);
        } else if addr == 0x0A {
            self.triangle.set_timer_low(value);
        } else if addr == 0x0B {
            self.triangle.length_counter.set_length(value / 8);
            self.triangle.set_timer_high(value % 8);
            self.triangle.liner_counter_reload_flag = true;
        } else if addr == 0x0C {
            self.noise.length_counter_halt = test_bit(value, 5);
            self.noise.envelope.constant_volume = test_bit(value, 4);
            self.noise.envelope.volume = value % 16;
        } else if addr == 0x0E {
            self.noise.shift_register.mode_flag = test_bit(value, 7);
            self.noise.set_timer_period(value % 16);
        } else if addr == 0x0F {
            self.noise.length_counter.set_length(value / 8);
            self.noise.envelope.start = true;
        }
    }

    /// DMC registers $4010-$4013.
    fn write_dmc(&mut self, addr: u8, value: u8)
        requires
            old(self).wf(),
            0x10 <= addr < 0x14,
        ensures
            final(self).wf(),
            *final(self) == old(self).after_write(addr, value),
    {
        if addr == 0x10 {
            self.dmc.write_control(value);
        } else if addr == 0x11 {
            self.dmc.output_level = value % 128;
        } else if addr == 0x12 {
            self.dmc.sample_address = 0xC000 + (value as u16) * 64;
        } else if addr == 0x13 {
            self.dmc.sample_length = (value as u16) * 16 + 1;
        }
    }

    /// Writes an APU register; `addr` is the low byte of $4000-$4017.
    pub fn write(&mut self, addr: u8, value: u8)
        requires
            old(self).wf(),
        ensures
            final(self).wf(),
            addr == 0x17 ==> {
                &&& final(self).five_step() == bit(value, 7)
                &&& final(self).irq_inhibit() == bit(value, 6)
                &&& final(self).frame_count() == 0
                &&& final(self).frame_irq() == (old(self).frame_irq() && !bit(value, 6))
                &&& final(self).dmc_irq() == old(self).dmc_irq()
                &&& final(self).channel_active(4) == old(self).channel_active(4)
                &&& forall|ch: int|
                    0 <= ch < 4 ==> {
                        let (len, enabled, halted) = #[trigger] old(self).length_counter(ch);
                        final(self).length_counter(ch) == if !bit(value, 7) {
                            (len, enabled, halted)
                        } else if !enabled {
                            (0u8, enabled, halted)
                        } else if !halted && len != 0 {
                            ((len - 1) as u8, enabled, halted)
                        } else {
                            (len, enabled, halted)
                        }
                    }
            },
            addr == 0x15 ==> Apu::status_write_effect(*old(self), *final(self), value),
            addr == 0x10 ==> {
                &&& final(self).dmc_irq() == (old(self).dmc_irq() && bit(value, 7))
                &&& final(self).frame_irq() == old(self).frame_irq()
                &&& final(self).frame_count() == old(self).frame_count()
                &&& final(self).five_step() == old(self).five_step()
                &&& final(self).irq_inhibit() == old(self).irq_inhibit()
            },
            addr != 0x17 && addr != 0x15 ==> *final(self) == old(self).after_write(addr, value),
            addr != 0x17 && addr != 0x15 && addr != 0x10 ==> {
                &&& final(self).dmc_irq() == old(self).dmc_irq()
                &&& final(self).frame_irq() == old(self).frame_irq()
                &&& final(self).frame_count() == old(self).frame_count()
                &&& final(self).five_step() == old(self).five_step()
                &&& final(self).irq_inhibit() == old(self).irq_inhibit()
            },
    {
        if addr < 0x08 {
            self.write_pulse(addr, value);
        } else if addr < 0x10 {
            self.write_triangle_noise(addr, value);
        } else if addr < 0x14 {
            self.write_dmc(addr, value);
        } else if addr == 0x15 {
            self.noise.length_counter.set_enable(test_bit(value, 3));
            self.triangle.length_counter.set_enable(test_bit(value, 2));
            self.pulse2.length_counter.set_enable(test_bit(value, 1));
            self.pulse1.length_counter.set_enable(test_bit(value, 0));
            self.dmc.set_enable(test_bit(value, 4));
        } else if addr == 0x17 {
            self.frame_counter.set(
                test_bit(value, 7),
                test_bit(value, 6),
                &mut self.pulse1,
                &mut self.pulse2,
                &mut self.triangle,
                &mut self.noise,
            );
        }
    }

    /// Reads an APU register. Only $4015 (status) is readable: reading it clears the
    /// frame IRQ flag. Other addresses read as 0.
    pub fn read(&mut self, addr: u8) -> (r: u8)
        requires
            old(self).wf(),
        ensures
            final(self).wf(),
            addr == 0x15 ==> r == old(self).status_byte() && *final(self) == old(self).without_frame_irq(),
            addr != 0x15 ==> r == 0 && *final(self) == *old(self),
            final(self).dmc_irq() == old(self).dmc_irq(),
            final(self).frame_count() == old(self).frame_count(),
            final(self).five_step() == old(self).five_step(),
            final(self).irq_inhibit() == old(self).irq_inhibit(),
            forall|ch: int| #[trigger] final(self).channel_active(ch) == old(self).channel_active(ch),
    {
        if addr != 0x15 {
            return 0;
        }
        let mut value: u8 = 0;
        if self.dmc.irq_flag {
            value = value + 0b1000_0000;
        }
        if self.frame_counter.interrupt_flag {
            value = value + 0b0100_0000;
        }
        if self.dmc.bytes_remaining > 0 {
            value = value + 0b0001_0000;
        }
        if self.noise.length_counter.length > 0 {
            value = value + 0b0000_1000;
        }
        if self.triangle.length_counter.length > 0 {
            value = value + 0b0000_0100;
        }
        if self.pulse2.length_counter.length > 0 {
            value = value + 0b0000_0010;
        }
        if self.pulse1.length_counter.length > 0 {
            value = value + 0b0000_0001;
        }
        self.frame_counter.interrupt_flag = false;
        value
    }

    /// Level of the IRQ line.
    pub open spec fn check_irq_spec(&self) -> bool {
        self.frame_irq() || self.dmc_irq()
    }

    /// The IRQ line: frame IRQ or DMC IRQ.
    pub fn check_irq(&self) -> (r: bool)
        ensures
            r == self.check_irq_spec(),
    {
        self.frame_counter.interrupt_flag || self.dmc.irq_flag
    }
}

} // verus!
