//! Interface to the system tick timer.
//!
//! A system tick timer provides a countdown timer with which the scheduler
//! enforces process timeslices. On most chips the core provides it directly;
//! chips that lack the peripheral can derive one from an alarm through
//! [`VirtualSystick`], and the unit type `()` is a dummy timer that never
//! expires, for boards where the scheduler must not preempt.

use vstd::prelude::*;

verus! {

/// Interface for the system tick timer.
///
/// Implementations are hardware-specific and unverified; the scheduler's
/// decisions are verified for every answer a timer can give.
pub trait SysTick {
    /// Set the timer as close as possible to the given interval in
    /// microseconds and start counting down. Interrupts are not enabled.
    fn start_timer(&mut self, us: u32);

    /// Whether at least `us` microseconds remain.
    fn greater_than(&mut self, us: u32) -> bool;

    /// Whether the timer has expired since the last `start_timer`.
    fn overflowed(&mut self) -> bool;

    /// Reset the timer to zero and disable it.
    fn reset(&mut self);

    /// Enable or disable the timer's interrupt.
    fn config_interrupts(&mut self, enabled: bool);

    /// The time remaining on the countdown, in microseconds.
    fn get_value(&mut self) -> u32;
}

/// A dummy timer in which the countdown never expires.
///
/// Functional, but the scheduler cannot interrupt non-yielding processes.
impl SysTick for () {
    fn start_timer(&mut self, us: u32) {
    }

    fn greater_than(&mut self, us: u32) -> (r: bool)
        ensures
            r,
    {
        true
    }

    fn overflowed(&mut self) -> (r: bool)
        ensures
            !r,
    {
        false
    }

    fn reset(&mut self) {
    }

    fn config_interrupts(&mut self, enabled: bool) {
    }

    fn get_value(&mut self) -> (r: u32)
        ensures
            r == u32::MAX,
    {
        u32::MAX
    }
}

/// Interface to a free-running alarm with a settable compare value, from
/// which [`VirtualSystick`] derives a countdown timer.
pub trait Alarm {
    /// The current counter value, in ticks.
    fn now(&mut self) -> u32;

    /// Set the compare value at which the alarm fires.
    fn set_alarm(&mut self, at: u32);

    /// The compare value most recently set.
    fn get_alarm(&mut self) -> u32;

    /// Enable the alarm interrupt.
    fn enable(&mut self);

    /// Disable the alarm interrupt, keeping the compare value.
    fn disable(&mut self);

    /// Ticks per second of the counter.
    fn frequency(&self) -> u32;
}

/// A dummy alarm that never moves: time stands at zero.
///
/// Boards without a wall clock can hand it to schedulers that take an
/// alarm; periodic duties tied to the alarm then run on every pass.
impl Alarm for () {
    fn now(&mut self) -> (r: u32)
        ensures
            r == 0,
    {
        0
    }

    fn set_alarm(&mut self, at: u32) {
    }

    fn get_alarm(&mut self) -> (r: u32)
        ensures
            r == 0,
    {
        0
    }

    fn enable(&mut self) {
    }

    fn disable(&mut self) {
    }

    fn frequency(&self) -> (r: u32)
        ensures
            r == 0,
    {
        0
    }
}

/// A system tick timer derived from an alarm.
///
/// The difference from a plain alarm wrapper is that a tick timer must keep
/// tracking elapsed time while its interrupt is selectively enabled and
/// disabled, so disabling only masks the interrupt and keeps the compare
/// value.
pub struct VirtualSystick<A: Alarm> {
    alarm: A,
}

impl<A: Alarm> VirtualSystick<A> {
    /// Wrap an alarm as a system tick timer.
    pub fn new(alarm: A) -> VirtualSystick<A> {
        VirtualSystick { alarm }
    }
}

impl<A: Alarm> VirtualSystick<A> {
    /// Convert microseconds to ticks of the underlying alarm, truncated to
    /// the 32-bit counter width.
    fn us_to_ticks(&mut self, us: u32) -> u32 {
        let hertz = self.alarm.frequency() as u64;
        proof {
            assert((hertz as int) * (us as int) < 0x1_0000_0000_0000_0000) by (nonlinear_arith)
                requires
                    hertz < 0x1_0000_0000,
                    us < 0x1_0000_0000,
            ;
        }
        #[verifier::truncate]
        let ticks = ((hertz * (us as u64)) / 1_000_000) as u32;
        ticks
    }
}

impl<A: Alarm> SysTick for VirtualSystick<A> {
    fn reset(&mut self) {
        self.alarm.disable();
    }

    fn start_timer(&mut self, us: u32) {
        let ticks = self.us_to_ticks(us);
        let now = self.alarm.now();
        // Wrap around the 32-bit counter explicitly.
        let fire_at = (((now as u64) + (ticks as u64)) % 0x1_0000_0000) as u32;
        self.alarm.set_alarm(fire_at);
        // Interrupts stay off, but the compare value is saved.
        self.alarm.disable();
    }

    fn config_interrupts(&mut self, enabled: bool) {
        if enabled {
            self.alarm.enable();
        } else {
            self.alarm.disable();
        }
    }

    fn overflowed(&mut self) -> bool {
        let now = self.alarm.now();
        let at = self.alarm.get_alarm();
        now > at
    }

    fn greater_than(&mut self, us: u32) -> bool {
        let ticks = self.us_to_ticks(us);
        let now = self.alarm.now();
        let at = self.alarm.get_alarm();
        (now as u64) + (ticks as u64) < (at as u64)
    }

    fn get_value(&mut self) -> u32 {
        let now = self.alarm.now();
        let at = self.alarm.get_alarm();
        let hertz = self.alarm.frequency() as u64;
        if at > now && hertz > 0 {
            let remaining_ticks = (at - now) as u64;
            #[verifier::truncate]
            let us = ((remaining_ticks * 1_000_000) / hertz) as u32;
            us
        } else {
            0
        }
    }
}

} // verus!
