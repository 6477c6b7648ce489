//! The tick source and the critical section, as the scheduler sees them on
//! a host: a tick timer kept in plain memory, and a critical section that
//! has nothing to mask.
//!
//! The timer has the register layout of the system timer of an Arm
//! Cortex-M core, so that code for such a core writes to its registers the
//! values that are computed here.

use crate::model::tick_after;
use vstd::prelude::*;

verus! {

/// Control register bit: the counter runs.
pub const SYST_CSR_COUNTER_ENABLE: u32 = 0x1;

/// Control register bit: the counter raises the tick interrupt when it
/// reaches zero.
pub const SYST_CSR_TICK_INT_ENABLE: u32 = 0x2;

/// Control register bit: the counter is clocked by the processor clock.
pub const SYST_CSR_TICK_PROCESSOR_AS_CLCK_SOURCE: u32 = 0x4;

/// Ticks per second: one tick is one millisecond.
pub const TICK_RATE: u32 = 1000;

/// What a tick timer is, as plain values.
pub struct SysTickModel {
    /// Processor clock in cycles per second.
    pub core_freq: u32,
    /// The control and status register.
    pub control: u32,
    /// The reload value register: clock cycles per tick, less one.
    pub reload: u32,
    /// The ticks counted so far.
    pub tick: u32,
}

/// The tick timer: counts the ticks of a periodic interrupt.
#[derive(Debug)]
pub struct SysTick {
    core_freq: u32,
    control: u32,
    reload: u32,
    tick: u32,
}

/// Proof that the code that holds it runs inside a critical section.
pub struct CriticalSection;

/// The control register with the counter stopped.
pub open spec fn counter_stopped(control: u32) -> u32 {
    control & !SYST_CSR_COUNTER_ENABLE
}

/// The control register with the counter running on the processor clock
/// and raising the tick interrupt.
pub open spec fn counter_started(control: u32) -> u32 {
    control | SYST_CSR_COUNTER_ENABLE | SYST_CSR_TICK_INT_ENABLE
        | SYST_CSR_TICK_PROCESSOR_AS_CLCK_SOURCE
}

/// The reload value that makes a counter clocked at `core_freq` reach zero
/// once per tick.
pub open spec fn reload_for(core_freq: u32) -> int {
    core_freq / TICK_RATE - 1
}

/// The timer raises tick interrupts: the counter runs and the interrupt is
/// enabled.
pub open spec fn is_ticking(timer: SysTickModel) -> bool {
    timer.control & SYST_CSR_COUNTER_ENABLE != 0 && timer.control & SYST_CSR_TICK_INT_ENABLE
        != 0
}

/// A timer right after it was bound to a core: all registers at their
/// reset value, no tick counted.
pub open spec fn bound_timer(core_freq: u32) -> SysTickModel {
    SysTickModel { core_freq, control: 0, reload: 0, tick: 0 }
}

/// The timer after it was programmed to tick once per millisecond.
pub open spec fn launched_timer(timer: SysTickModel) -> SysTickModel {
    SysTickModel {
        control: counter_started(counter_stopped(timer.control)),
        reload: reload_for(timer.core_freq) as u32,
        ..timer
    }
}

/// The timer after one period of its counter: one more tick if it is
/// ticking, wrapping to zero after the last one.
pub open spec fn ticked_timer(timer: SysTickModel) -> SysTickModel {
    if is_ticking(timer) {
        SysTickModel { tick: tick_after(timer.tick, 1), ..timer }
    } else {
        timer
    }
}

impl View for SysTick {
    type V = SysTickModel;

    closed spec fn view(&self) -> SysTickModel {
        SysTickModel {
            core_freq: self.core_freq,
            control: self.control,
            reload: self.reload,
            tick: self.tick,
        }
    }
}

impl SysTick {
    /// Binds the timer to a core that is clocked at `core_freq`. The timer
    /// can be bound once: `taken` records that it was, and every later
    /// attempt fails.
    pub fn bind_with_core_and_take(taken: &mut bool, core_freq: u32) -> (systick: Option<SysTick>)
        ensures
            *final(taken),
            *old(taken) ==> systick is None,
            !*old(taken) ==> systick is Some && systick->0@ == bound_timer(core_freq),
    {
        if !*taken {
            *taken = true;
            Some(SysTick { core_freq, control: 0, reload: 0, tick: 0 })
        } else {
            None
        }
    }

    /// Programs the timer to tick once per millisecond: stops the counter,
    /// sets the reload value for the core's clock, and starts the counter
    /// with its interrupt enabled. The clock must be fast enough for one
    /// counter period per tick.
    pub fn launch(&mut self)
        requires
            old(self)@.core_freq >= TICK_RATE,
        ensures
            final(self)@ == launched_timer(old(self)@),
    {
        self.control = Self::stop_counter(self.control);
        self.reload = Self::reload_value(self.core_freq);
        self.control = Self::start_counter(self.control);
    }

    /// The ticks counted so far.
    pub fn get(&self) -> (tick: u32)
        ensures
            tick == self@.tick,
    {
        self.tick
    }

    /// The tick interrupt: counts one tick if the timer is ticking.
    pub fn tick(&mut self)
        ensures
            final(self)@ == ticked_timer(old(self)@),
    {
        if self.control & SYST_CSR_COUNTER_ENABLE != 0 && self.control & SYST_CSR_TICK_INT_ENABLE
            != 0 {
            self.tick = self.tick.wrapping_add(1);
        }
    }

    /// The clock that the timer was bound with.
    pub fn core_freq(&self) -> (core_freq: u32)
        ensures
            core_freq == self@.core_freq,
    {
        self.core_freq
    }

    /// The value of the control and status register.
    pub fn control(&self) -> (control: u32)
        ensures
            control == self@.control,
    {
        self.control
    }

    /// The value of the reload value register.
    pub fn reload(&self) -> (reload: u32)
        ensures
            reload == self@.reload,
    {
        self.reload
    }

    /// What to write to a control register that holds `control` to stop
    /// the counter.
    pub fn stop_counter(control: u32) -> (stopped: u32)
        ensures
            stopped == counter_stopped(control),
    {
        control & !SYST_CSR_COUNTER_ENABLE
    }

    /// What to write to a control register that holds `control` to start
    /// the counter.
    pub fn start_counter(control: u32) -> (started: u32)
        ensures
            started == counter_started(control),
    {
        control | SYST_CSR_COUNTER_ENABLE | SYST_CSR_TICK_INT_ENABLE
            | SYST_CSR_TICK_PROCESSOR_AS_CLCK_SOURCE
    }

    /// What to write to the reload value register of a core clocked at
    /// `core_freq`.
    pub fn reload_value(core_freq: u32) -> (reload: u32)
        requires
            core_freq >= TICK_RATE,
        ensures
            reload == reload_for(core_freq),
    {
        core_freq / TICK_RATE - 1
    }
}

/// Runs `f` inside a critical section and hands its result back. On a host
/// nothing can interrupt the caller, so `f` simply runs.
pub fn critical_section<F, R>(f: F) -> (result: R) where F: FnOnce(CriticalSection) -> R
    requires
        call_requires(f, (CriticalSection {  },)),
    ensures
        call_ensures(f, (CriticalSection {  },), result),
{
    f(CriticalSection {  })
}

} // verus!
