use vstd::prelude::*;

verus! {

/// The state of a clock.
pub struct ClockView {
    pub period: u32,
    pub count: u32,
    pub total_ticks: u64,
}

impl ClockView {
    /// The state after one M-cycle, and whether the clock ticked: it ticks
    /// when the count of M-cycles since the last tick reaches the period.
    pub open spec fn advance(self) -> (ClockView, bool) {
        if self.count + 1 >= self.period {
            (ClockView { count: 0, total_ticks: ((self.total_ticks + 1) % 0x1_0000_0000_0000_0000int) as u64, ..self }, true)
        } else {
            (ClockView { count: (self.count + 1) as u32, ..self }, false)
        }
    }
}

/// A clock of the hardware that ticks once every `period` M-cycles.
pub struct Clock {
    name: &'static str,
    mcycles_per_period: u32,
    mcycles_since_tick: u32,
    debug_total_ticks: u64,
}

impl View for Clock {
    type V = ClockView;

    closed spec fn view(&self) -> ClockView {
        ClockView {
            period: self.mcycles_per_period,
            count: self.mcycles_since_tick,
            total_ticks: self.debug_total_ticks,
        }
    }
}

impl Clock {
    pub open spec fn wf(&self) -> bool {
        self@.count < u32::MAX
    }

    pub fn new(name: &'static str, mcycles_per_period: u32) -> (r: Clock)
        ensures
            r.wf(),
            r@ == (ClockView { period: mcycles_per_period, count: 0, total_ticks: 0 }),
    {
        Clock { name, mcycles_per_period, mcycles_since_tick: 0, debug_total_ticks: 0 }
    }

    pub fn name(&self) -> &'static str {
        self.name
    }

    pub fn period(&self) -> (r: u32)
        ensures
            r == self@.period,
    {
        self.mcycles_per_period
    }

    /// M-cycles since the last tick.
    pub fn count(&self) -> (r: u32)
        ensures
            r == self@.count,
    {
        self.mcycles_since_tick
    }

    pub fn total_ticks(&self) -> (r: u64)
        ensures
            r == self@.total_ticks,
    {
        self.debug_total_ticks
    }

    pub fn set_period(&mut self, mcycles_per_period: u32)
        requires
            old(self).wf(),
        ensures
            final(self).wf(),
            final(self)@ == (ClockView { period: mcycles_per_period, ..old(self)@ }),
    {
        self.mcycles_per_period = mcycles_per_period;
    }

    /// Advances the clock by one M-cycle; returns whether it ticked.
    pub fn update_and_check(&mut self) -> (r: bool)
        requires
            old(self).wf(),
        ensures
            final(self).wf(),
            (final(self)@, r) == old(self)@.advance(),
    {
        self.mcycles_since_tick += 1;
        if self.mcycles_since_tick >= self.mcycles_per_period {
            self.mcycles_since_tick = 0;
            self.debug_total_ticks = self.debug_total_ticks.wrapping_add(1);
            true
        } else {
            false
        }
    }
}

} // verus!
