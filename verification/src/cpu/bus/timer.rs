pub mod counter_mode_register;

use vstd::prelude::*;
use counter_mode_register::CounterModeRegister;
use super::registers::interrupt_register::InterruptRegister;

verus! {

/// What drives a timer's counter.
#[derive(Copy, Clone, PartialEq, Eq, Structural)]
pub enum ClockSource {
    SystemClock,
    DotClock,
    Hblank,
    SystemClockDiv8,
}

/// One of the three root counters.
#[derive(Copy, Clone)]
pub struct Timer {
    pub counter_register: CounterModeRegister,
    pub counter_target: u16,
    pub counter: u32,
    pub timer_id: usize,
    pub clock_source: ClockSource,
    pub is_active: bool,
    pub switch_free_run: Option<bool>,
    pub prescalar_cycles: Option<isize>,
    /// Either vblank or hblank, depending on the timer.
    pub in_xblank: bool,
    pub one_shot_fired: bool,
}

/// The interrupt line of timer `id`.
pub open spec fn timer_irq_bit(id: usize) -> u32 {
    if id == 0 {
        InterruptRegister::TMR0
    } else if id == 1 {
        InterruptRegister::TMR1
    } else {
        InterruptRegister::TMR2
    }
}

/// The clock source that mode bits 8..9 select for timer `id`.
pub open spec fn spec_clock_source(id: usize, source: u32) -> ClockSource {
    if id == 0 {
        if source == 0 || source == 2 {
            ClockSource::SystemClock
        } else {
            ClockSource::DotClock
        }
    } else if id == 1 {
        if source == 0 || source == 2 {
            ClockSource::SystemClock
        } else {
            ClockSource::Hblank
        }
    } else {
        if source == 0 || source == 1 {
            ClockSource::SystemClock
        } else {
            ClockSource::SystemClockDiv8
        }
    }
}

impl Timer {
    pub open spec fn resets_on_target(&self) -> bool {
        self.counter_register.has(CounterModeRegister::RESET_COUNTER)
    }

    pub open spec fn with_counter(self, counter: u32) -> Timer {
        Timer { counter, ..self }
    }

    pub open spec fn with_mode_bits(self, flag: u16) -> Timer {
        Timer { counter_register: CounterModeRegister { bits: self.counter_register.bits | flag }, ..self }
    }

    /// Whether the counter advances through the divide-by-8 prescaler.
    pub open spec fn prescaled(&self) -> bool {
        self.prescalar_cycles is Some || self.clock_source == ClockSource::SystemClockDiv8
    }

    /// The prescaler count the next tick starts from.
    pub open spec fn prescaler_start(&self) -> int {
        match self.prescalar_cycles {
            Some(p) => p as int,
            None => 8,
        }
    }

    /// The prescaler after a counter step with `cycles_left` (zero or less) left over.
    pub open spec fn next_prescaler(&self, cycles_left: int) -> Option<isize> {
        if self.clock_source == ClockSource::SystemClockDiv8 {
            Some((8 + cycles_left) as isize)
        } else {
            None
        }
    }

    /// How many counts a prescaled tick makes once its prescaler ran out with `over`
    /// cycles beyond it: one, and with the system clock/8 one more for every further
    /// eight cycles.
    pub open spec fn prescaled_steps(&self, over: int) -> int {
        if self.clock_source == ClockSource::SystemClockDiv8 { 1 + over / 8 } else { 1 }
    }

    /// The prescaler after a prescaled tick that ran `over` cycles beyond it: with the system
    /// clock/8 the part of the next eight cycles not yet spent.
    pub open spec fn prescaler_after(&self, over: int) -> Option<isize> {
        if self.clock_source == ClockSource::SystemClockDiv8 {
            Some((8 - over % 8) as isize)
        } else {
            None
        }
    }
}

/// Raising the timer's interrupt line: (timer, interrupt status bits) afterwards. In one-shot
/// mode it fires once until the counter or its mode is written.
pub open spec fn fire(t: Timer, stat: u32) -> (Timer, u32) {
    if t.one_shot_fired {
        (t, stat)
    } else {
        (
            Timer { one_shot_fired: !t.counter_register.has(CounterModeRegister::IRQ_REPEAT_MODE), ..t },
            stat | timer_irq_bit(t.timer_id),
        )
    }
}

/// Fires the interrupt if the mode enables it with `irq_flag`.
pub open spec fn fire_if(t: Timer, stat: u32, irq_flag: u16) -> (Timer, u32) {
    if t.counter_register.has(irq_flag) {
        fire(t, stat)
    } else {
        (t, stat)
    }
}

/// What reaching 0xffff or the target does: wraps or resets the counter, records the event in
/// the mode register and raises the interrupt if enabled.
pub open spec fn overflow_or_target(t: Timer, previous_counter: u32, stat: u32) -> (Timer, u32) {
    if t.resets_on_target() && t.counter_target == 0 && t.counter == 0 {
        fire_if(
            t.with_mode_bits(CounterModeRegister::REACHED_TARGET),
            stat,
            CounterModeRegister::COUNTER_IRQ_TARGET,
        )
    } else if t.counter >= 0xffff {
        let t1 = t.with_counter((t.counter - 0xffff) as u32);
        let t2 = if !t.resets_on_target() {
            t1.with_mode_bits(CounterModeRegister::REACHED_FFFF)
        } else {
            t1
        };
        fire_if(t2, stat, CounterModeRegister::COUNTER_IRQ_FFFF)
    } else if previous_counter < t.counter_target && t.counter >= t.counter_target {
        let t1 = if t.resets_on_target() {
            t.with_counter((t.counter - t.counter_target) as u32).with_mode_bits(
                CounterModeRegister::REACHED_TARGET,
            )
        } else {
            t
        };
        fire_if(t1, stat, CounterModeRegister::COUNTER_IRQ_TARGET)
    } else {
        (t, stat)
    }
}

/// Whether a step from `previous_counter` reached 0xffff (free running) or the target
/// (reset on target).
pub open spec fn reached_limit(t: Timer, previous_counter: u32) -> bool {
    (t.counter >= 0xffff && !t.resets_on_target()) || (previous_counter < t.counter_target
        && t.counter >= t.counter_target && t.resets_on_target())
}

pub open spec fn check_limit(t: Timer, previous_counter: u32, stat: u32) -> (Timer, u32) {
    if reached_limit(t, previous_counter) {
        overflow_or_target(t, previous_counter, stat)
    } else {
        (t, stat)
    }
}

/// Whether `tick(cycles)` keeps its arithmetic in range on `t`.
pub open spec fn tick_in_range(t: Timer, cycles: usize) -> bool {
    t.is_active ==> if t.prescaled() {
        let p = t.prescaler_start() - (cycles as isize);
        &&& isize::MIN < p <= isize::MAX
        &&& p <= 0 ==> t.counter + t.prescaled_steps(-p) <= u32::MAX
    } else {
        t.counter + (cycles as u32) <= u32::MAX
    }
}

/// The effect of `cycles` CPU cycles on a timer: (timer, interrupt status bits) afterwards.
pub open spec fn tick_effect(t: Timer, cycles: usize, stat: u32) -> (Timer, u32) {
    if !t.is_active {
        (t, stat)
    } else if !t.prescaled() {
        check_limit(
            Timer { counter: (t.counter + (cycles as u32)) as u32, prescalar_cycles: None, ..t },
            t.counter,
            stat,
        )
    } else {
        let p = t.prescaler_start() - (cycles as isize);
        if p <= 0 {
            check_limit(
                Timer {
                    counter: (t.counter + t.prescaled_steps(-p)) as u32,
                    prescalar_cycles: t.prescaler_after(-p),
                    ..t
                },
                t.counter,
                stat,
            )
        } else {
            (Timer { prescalar_cycles: Some(p as isize), ..t }, stat)
        }
    }
}

/// The mode bits after the CPU writes `value`: bits 10..12 are kept, bit 10 is set and bits
/// 0..9 are taken from `value`.
pub open spec fn written_mode_bits(old_bits: u16, value: u16) -> u16 {
    (old_bits & 0x1c00) | 0x400 | (value & 0x3ff)
}

/// Whether the timer runs after its mode becomes `bits`, by its synchronization mode.
pub open spec fn active_after_mode_write(t: Timer, bits: u16) -> bool {
    let sync = bits & 1 == 1;
    let mode = (bits >> 1) & 3;
    if t.timer_id == 2 {
        !sync || mode == 1 || mode == 2
    } else if sync {
        if mode == 0 {
            !t.in_xblank
        } else if mode == 1 {
            true
        } else if mode == 2 {
            t.in_xblank
        } else {
            false
        }
    } else {
        t.is_active
    }
}

/// The timer after the CPU writes `value` to its mode register.
pub open spec fn mode_written(t: Timer, value: u16) -> Timer {
    let bits = written_mode_bits(t.counter_register.bits, value);
    Timer {
        counter_register: CounterModeRegister { bits },
        counter: 0,
        clock_source: spec_clock_source(t.timer_id, ((bits >> 8) & 3) as u32),
        is_active: active_after_mode_write(t, bits),
        switch_free_run: None,
        prescalar_cycles: None,
        one_shot_fired: false,
        ..t
    }
}

impl Timer {
    pub fn new(timer_id: usize) -> (r: Self)
        ensures
            r.timer_id == timer_id,
            r.counter_register.bits == 0,
            r.counter_target == 0,
            r.counter == 0,
            r.clock_source == ClockSource::SystemClock,
            r.is_active,
            r.switch_free_run is None,
            r.prescalar_cycles is None,
            !r.in_xblank,
            !r.one_shot_fired,
    {
        Self {
            counter_register: CounterModeRegister::from_bits_retain(0),
            counter_target: 0,
            counter: 0,
            timer_id,
            clock_source: ClockSource::SystemClock,
            is_active: true,
            switch_free_run: None,
            prescalar_cycles: None,
            in_xblank: false,
            one_shot_fired: false,
        }
    }

    pub fn write_counter(&mut self, value: u32)
        ensures
            *final(self) == (Timer { counter: value, one_shot_fired: false, ..*old(self) }),
    {
        self.counter = value;
        self.one_shot_fired = false;
    }

    fn get_clock_source(&self) -> (r: ClockSource)
        requires
            self.timer_id < 3,
        ensures
            r == spec_clock_source(self.timer_id, ((self.counter_register.bits >> 8) & 3) as u32),
    {
        let source = self.counter_register.clock_source();
        if self.timer_id == 0 {
            if source == 0 || source == 2 {
                ClockSource::SystemClock
            } else {
                ClockSource::DotClock
            }
        } else if self.timer_id == 1 {
            if source == 0 || source == 2 {
                ClockSource::SystemClock
            } else {
                ClockSource::Hblank
            }
        } else {
            if source == 0 || source == 1 {
                ClockSource::SystemClock
            } else {
                ClockSource::SystemClockDiv8
            }
        }
    }

    pub fn write_counter_register(&mut self, value: u16)
        requires
            old(self).timer_id < 3,
        ensures
            *final(self) == mode_written(*old(self), value),
    {
        self.one_shot_fired = false;
        let mut bits = self.counter_register.bits();
        self.counter = 0;
        // keep bits 10..12, set bit 10, take bits 0..9 from the value
        bits &= 0x1c00;
        bits |= 0x400;
        bits |= value & 0x3ff;
        self.switch_free_run = None;
        self.prescalar_cycles = None;
        self.counter_register = CounterModeRegister::from_bits_retain(bits);
        self.clock_source = self.get_clock_source();
        let sync = self.counter_register.contains(CounterModeRegister::SYNC_ENABLE);
        let mode = self.counter_register.sync_mode();
        assert(((bits >> 1) & 3) as u32 == mode);
        if self.timer_id == 2 {
            self.is_active = !sync || mode == 1 || mode == 2;
        }
        if (self.timer_id == 0 || self.timer_id == 1) && sync {
            if mode == 0 {
                self.is_active = !self.in_xblank;
            } else if mode == 1 {
                self.is_active = true;
            } else if mode == 2 {
                self.is_active = self.in_xblank;
            } else {
                self.is_active = false;
            }
        }
    }

    fn trigger_irq(&mut self, interrupt_stat: &mut InterruptRegister)
        requires
            old(self).timer_id < 3,
        ensures
            (*final(self), final(interrupt_stat).bits) == fire(*old(self), old(interrupt_stat).bits),
    {
        if !self.one_shot_fired {
            if !self.counter_register.contains(CounterModeRegister::IRQ_REPEAT_MODE) {
                self.one_shot_fired = true;
            }
            if self.timer_id == 0 {
                interrupt_stat.insert(InterruptRegister::TMR0);
            } else if self.timer_id == 1 {
                interrupt_stat.insert(InterruptRegister::TMR1);
            } else {
                interrupt_stat.insert(InterruptRegister::TMR2);
            }
        }
    }

    /// Handles the counter reaching 0xffff or its target.
    pub fn on_overflow_or_target(
        &mut self,
        previous_counter: u32,
        interrupt_stat: &mut InterruptRegister,
    )
        requires
            old(self).timer_id < 3,
        ensures
            (*final(self), final(interrupt_stat).bits) == overflow_or_target(
                *old(self),
                previous_counter,
                old(interrupt_stat).bits,
            ),
    {
        if self.counter_register.contains(CounterModeRegister::RESET_COUNTER)
            && self.counter_target == 0 && self.counter == 0 {
            self.counter_register.insert(CounterModeRegister::REACHED_TARGET);
            if self.counter_register.contains(CounterModeRegister::COUNTER_IRQ_TARGET) {
                self.trigger_irq(interrupt_stat);
            }
            return ;
        }
        let current_cycles = self.counter;
        if current_cycles >= 0xffff {
            self.counter = current_cycles - 0xffff;
            if !self.counter_register.contains(CounterModeRegister::RESET_COUNTER) {
                self.counter_register.insert(CounterModeRegister::REACHED_FFFF);
            }
            if self.counter_register.contains(CounterModeRegister::COUNTER_IRQ_FFFF) {
                self.trigger_irq(interrupt_stat);
            }
        } else if previous_counter < self.counter_target as u32 && current_cycles
            >= self.counter_target as u32 {
            if self.counter_register.contains(CounterModeRegister::RESET_COUNTER) {
                self.counter = current_cycles - self.counter_target as u32;
                self.counter_register.insert(CounterModeRegister::REACHED_TARGET);
            }
            if self.counter_register.contains(CounterModeRegister::COUNTER_IRQ_TARGET) {
                self.trigger_irq(interrupt_stat);
            }
        }
    }

    fn check_if_overflow(&mut self, previous_counter: u32, interrupt_stat: &mut InterruptRegister)
        requires
            old(self).timer_id < 3,
        ensures
            (*final(self), final(interrupt_stat).bits) == check_limit(
                *old(self),
                previous_counter,
                old(interrupt_stat).bits,
            ),
    {
        let reset = self.counter_register.contains(CounterModeRegister::RESET_COUNTER);
        if (self.counter >= 0xffff && !reset) || (previous_counter < self.counter_target as u32
            && self.counter >= self.counter_target as u32 && reset) {
            self.on_overflow_or_target(previous_counter, interrupt_stat);
        }
    }

    /// `cycles_left` is zero or less: the cycles that ran past the previous step.
    fn update_prescalar(&mut self, cycles_left: isize)
        requires
            cycles_left <= 0,
        ensures
            *final(self) == (Timer { prescalar_cycles: old(self).next_prescaler(cycles_left as int), ..*old(self) }),
    {
        if self.clock_source == ClockSource::SystemClockDiv8 {
            self.prescalar_cycles = Some(8 + cycles_left);
        } else {
            self.prescalar_cycles = None;
        }
    }

    /// Whether `tick(cycles)` keeps its arithmetic in range.
    pub fn can_tick(&self, cycles: usize) -> (r: bool)
        ensures
            r == tick_in_range(*self, cycles),
    {
        if !self.is_active {
            return true;
        }
        let prescaled = self.prescalar_cycles.is_some() || self.clock_source == ClockSource::SystemClockDiv8;
        if prescaled {
            let start: isize = match self.prescalar_cycles {
                Some(p) => p,
                None => 8,
            };
            let c = cycles as isize;
            // start - c stays in range exactly when these hold
            let in_range = if c >= 0 {
                start > isize::MIN + c
            } else {
                start <= isize::MAX + c
            };
            if !in_range {
                return false;
            }
            let p = start - c;
            if p > 0 {
                return true;
            }
            let over: usize = (0 - p) as usize;
            let steps: usize = if self.clock_source == ClockSource::SystemClockDiv8 { 1 + over / 8 } else { 1 };
            steps <= (u32::MAX - self.counter) as usize
        } else {
            (self.counter as u64) + ((cycles as u32) as u64) <= u32::MAX as u64
        }
    }

    /// Advances the counter by `cycles` CPU cycles.
    pub fn tick(&mut self, cycles: usize, interrupt_stat: &mut InterruptRegister)
        requires
            old(self).timer_id < 3,
            tick_in_range(*old(self), cycles),
        ensures
            (*final(self), final(interrupt_stat).bits) == tick_effect(
                *old(self),
                cycles,
                old(interrupt_stat).bits,
            ),
    {
        if self.is_active {
            if self.prescalar_cycles.is_none() {
                self.update_prescalar(0);
            }
            match self.prescalar_cycles {
                None => {
                    let previous_counter = self.counter;
                    self.counter = self.counter + cycles as u32;
                    self.check_if_overflow(previous_counter, interrupt_stat);
                },
                Some(prescalar_cycles) => {
                    let remaining = prescalar_cycles - cycles as isize;
                    self.prescalar_cycles = Some(remaining);
                    if remaining <= 0 {
                        let previous_counter = self.counter;
                        let over: usize = (0 - remaining) as usize;
                        if self.clock_source == ClockSource::SystemClockDiv8 {
                            let steps: usize = 1 + over / 8;
                            self.counter = self.counter + steps as u32;
                            self.prescalar_cycles = Some(8 - (over % 8) as isize);
                        } else {
                            self.counter = self.counter + 1;
                            self.prescalar_cycles = None;
                        }
                        self.check_if_overflow(previous_counter, interrupt_stat);
                    }
                },
            }
        }
    }
}


/// In one-shot mode a timer raises its interrupt once: a second trigger changes nothing
/// until the counter or the mode is written.
pub proof fn lemma_one_shot_fires_once(t: Timer, stat: u32, later_stat: u32)
    requires
        !t.counter_register.has(CounterModeRegister::IRQ_REPEAT_MODE),
    ensures
        fire(fire(t, stat).0, later_stat) == (fire(t, stat).0, later_stat),
{
}

/// Writing the counter or the mode rearms a one-shot interrupt.
pub proof fn lemma_write_rearms(t: Timer, value: u16)
    ensures
        !mode_written(t, value).one_shot_fired,
        !(Timer { counter: value as u32, one_shot_fired: false, ..t }).one_shot_fired,
{
}

} // verus!
