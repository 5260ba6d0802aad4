use vstd::prelude::*;

verus! {

/// What the timer holds, as the contracts see it.
pub struct TimerState {
    pub div_helper: u16,
    pub time_helper: u16,
    pub div: u8,
    pub tima: u8,
    pub tma: u8,
    pub tac: u8,
    pub interrupt: u8,
}

/// Clock cycles per counter increment for the frequency selected by the low
/// two bits of TAC (4096, 262144, 65536 or 16384 Hz of a 4194304 Hz clock).
pub open spec fn timer_period(tac: u8) -> u16 {
    if tac & 3 == 1 {
        16
    } else if tac & 3 == 2 {
        64
    } else if tac & 3 == 3 {
        256
    } else {
        1024
    }
}

impl TimerState {
    /// The power-on state: everything 0.
    pub open spec fn initial() -> TimerState {
        TimerState {
            div_helper: 0,
            time_helper: 0,
            div: 0,
            tima: 0,
            tma: 0,
            tac: 0,
            interrupt: 0,
        }
    }

    /// The register at `loc` (0xFF04-0xFF07).
    pub open spec fn read(self, loc: u16) -> u8 {
        if loc == 0xFF04 {
            self.div
        } else if loc == 0xFF05 {
            self.tima
        } else if loc == 0xFF06 {
            self.tma
        } else {
            self.tac
        }
    }

    /// The state after a write at `loc` (0xFF04-0xFF07, or 0xFF0F for the
    /// interrupt bit). A write to the divider resets it and both counters.
    pub open spec fn write(self, loc: u16, val: u8) -> TimerState {
        if loc == 0xFF04 {
            TimerState { div: 0, div_helper: 0, time_helper: 0, ..self }
        } else if loc == 0xFF05 {
            TimerState { tima: val, ..self }
        } else if loc == 0xFF06 {
            TimerState { tma: val, ..self }
        } else if loc == 0xFF07 {
            TimerState { tac: val, ..self }
        } else {
            TimerState { interrupt: if val & 0x04 != 0 { 1 } else { 0 }, ..self }
        }
    }

    /// Moves the counter on for every whole period in `time_helper`: each
    /// increment that overflows reloads it from TMA and raises the interrupt.
    pub open spec fn run_counter(self, period: u16) -> TimerState
        decreases self.time_helper,
        when period > 0
    {
        if self.time_helper >= period {
            let t = (self.tima as int + 1) % 256;
            let next = if t == 0 {
                TimerState {
                    tima: self.tma,
                    interrupt: 1,
                    time_helper: (self.time_helper - period) as u16,
                    ..self
                }
            } else {
                TimerState { tima: t as u8, time_helper: (self.time_helper - period) as u16, ..self }
            };
            next.run_counter(period)
        } else {
            self
        }
    }

    /// The state after `m_cycles` machine cycles (four clock cycles each).
    pub open spec fn step(self, m_cycles: u8) -> TimerState {
        let clocks = m_cycles as int * 4;
        let dh = ((self.div_helper as int + clocks) % 65536) as u16;
        let t1 = if dh > 255 {
            TimerState {
                div_helper: (dh - 255) as u16,
                div: ((self.div as int + 1) % 256) as u8,
                ..self
            }
        } else {
            TimerState { div_helper: dh, ..self }
        };
        if (t1.tac >> 2) & 1 != 0 {
            TimerState {
                time_helper: ((t1.time_helper as int + clocks) % 65536) as u16,
                ..t1
            }.run_counter(timer_period(t1.tac))
        } else {
            t1
        }
    }
}

/// The divider and the programmable counter, with their interrupt bit.
pub struct Timer {
    div_helper: u16,
    time_helper: u16,
    div: u8,
    tima: u8,
    tma: u8,
    tac: u8,
    /// 1 when the counter has overflowed and the interrupt is pending.
    pub interrupt: u8,
}

impl View for Timer {
    type V = TimerState;

    closed spec fn view(&self) -> TimerState {
        TimerState {
            div_helper: self.div_helper,
            time_helper: self.time_helper,
            div: self.div,
            tima: self.tima,
            tma: self.tma,
            tac: self.tac,
            interrupt: self.interrupt,
        }
    }
}

impl Timer {
    pub fn new() -> (r: Timer)
        ensures
            r@ == TimerState::initial(),
    {
        Timer { div_helper: 0, time_helper: 0, div: 0, tima: 0, tma: 0, tac: 0, interrupt: 0 }
    }

    pub fn read_byte(&self, loc: u16) -> (r: u8)
        requires
            0xFF04 <= loc <= 0xFF07,
        ensures
            r == self@.read(loc),
    {
        if loc == 0xFF04 {
            self.div
        } else if loc == 0xFF05 {
            self.tima
        } else if loc == 0xFF06 {
            self.tma
        } else {
            self.tac
        }
    }

    pub fn write_byte(&mut self, loc: u16, val: u8)
        requires
            0xFF04 <= loc <= 0xFF07 || loc == 0xFF0F,
        ensures
            final(self)@ == old(self)@.write(loc, val),
    {
        if loc == 0xFF04 {
            self.div = 0;
            self.div_helper = 0;
            self.time_helper = 0;
        } else if loc == 0xFF05 {
            self.tima = val;
        } else if loc == 0xFF06 {
            self.tma = val;
        } else if loc == 0xFF07 {
            self.tac = val;
        } else {
            self.interrupt = if val & 0x04 != 0 {
                1
            } else {
                0
            };
        }
    }

    /// Advances the divider and, when TAC enables it, the counter by
    /// `m_cycles` machine cycles.
    pub fn step_cycle(&mut self, m_cycles: u8)
        ensures
            final(self)@ == old(self)@.step(m_cycles),
    {
        let clocks: u16 = m_cycles as u16 * 4;
        self.div_helper = self.div_helper.wrapping_add(clocks);
        if self.div_helper > 255 {
            self.div_helper = self.div_helper - 255;
            self.div = self.div.wrapping_add(1);
        }
        if (self.tac >> 2) & 1 != 0 {
            self.time_helper = self.time_helper.wrapping_add(clocks);
            let period: u16 = if self.tac & 3 == 1 {
                16
            } else if self.tac & 3 == 2 {
                64
            } else if self.tac & 3 == 3 {
                256
            } else {
                1024
            };
            let ghost start = self@;
            while self.time_helper >= period
                invariant
                    period == timer_period(start.tac),
                    period > 0,
                    self@.run_counter(period) == start.run_counter(period),
                decreases self.time_helper,
            {
                self.tima = self.tima.wrapping_add(1);
                if self.tima == 0 {
                    self.interrupt = 1;
                    self.tima = self.tma;
                }
                self.time_helper = self.time_helper - period;
            }
        }
    }

    /// The pending interrupt bit.
    pub fn interrupt_bit(&self) -> (r: u8)
        ensures
            r == self@.interrupt,
    {
        self.interrupt
    }
}

} // verus!
