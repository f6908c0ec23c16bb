//! Board-level state and the timer-tick interrupt handler.
//!
//! The pieces of hardware the firmware reads or writes — the CPU's interrupt
//! mask, the shared tick counter, the timer, the interrupt controller's
//! per-source flags, and the two LED pins — are modeled as plain values, and
//! every transition the firmware makes is stated both as a spec function and
//! as the contract of the executable step. On top of the single-step
//! contracts, lemmas state what any sequence of timer-overflow events does to
//! the counter and the LED.

use vstd::prelude::*;
use crate::interrupt::Cpu;
use crate::interrupt::TickCell;
use crate::interrupt::with_critical_section;

verus! {

/// One digital output pin driving an LED.
#[derive(Clone, Copy, PartialEq, Eq, Structural, Debug)]
pub struct LedPin {
    /// The pin's analog function has been switched off.
    pub analog_disabled: bool,
    /// The pin's direction is forced to output.
    pub output: bool,
    /// The line is driven high (LED on).
    pub high: bool,
}

/// The free-running timer whose overflow raises the tick interrupt.
#[derive(Clone, Copy, PartialEq, Eq, Structural, Debug)]
pub struct Timer {
    /// The timer is running.
    pub on: bool,
    /// Period register: the counter wraps past this value.
    pub period: u16,
    /// Prescaler selection bits.
    pub prescale: u8,
}

/// The interrupt controller's state for the timer source.
#[derive(Clone, Copy, PartialEq, Eq, Structural, Debug)]
pub struct IntCtl {
    /// Pending flag: the timer has overflowed and the handler has not yet
    /// cleared it. While set, the interrupt line stays asserted.
    pub timer_pending: bool,
    /// Per-source enable flag for the timer interrupt.
    pub timer_enabled: bool,
    /// Priority level assigned to the timer interrupt.
    pub timer_priority: u8,
}

/// Everything the firmware's control flow touches, as one value.
#[derive(Clone, Copy, PartialEq, Eq, Structural, Debug)]
pub struct Board {
    /// Global interrupt mask.
    pub cpu: Cpu,
    /// The shared tick counter.
    pub ticks: TickCell,
    /// The tick timer.
    pub timer: Timer,
    /// The interrupt controller's timer source.
    pub intc: IntCtl,
    /// The LED toggled by the interrupt handler.
    pub yellow: LedPin,
    /// The LED toggled by the main loop.
    pub green: LedPin,
}

/// The yellow pin configured as a digital output driving `on`.
pub open spec fn spec_set_yellow(b: Board, on: bool) -> Board {
    Board { yellow: LedPin { analog_disabled: true, output: true, high: on }, ..b }
}

/// The green pin configured as a digital output driving `on`.
pub open spec fn spec_set_green(b: Board, on: bool) -> Board {
    Board { green: LedPin { analog_disabled: true, output: true, high: on }, ..b }
}

/// The board after the timer's pending flag is cleared; nothing else moves.
pub open spec fn spec_clear_pending(b: Board) -> Board {
    Board { intc: IntCtl { timer_pending: false, ..b.intc }, ..b }
}

/// The board after one run of the tick interrupt handler: the counter is one
/// higher, the yellow LED shows the new counter's low bit, the pending flag
/// is clear, and everything else — the interrupt mask included — is exactly
/// as it was.
pub open spec fn spec_tick(b: Board) -> Board {
    let n = (b.ticks.value + 1) as u32;
    spec_clear_pending(
        spec_set_yellow(Board { ticks: TickCell { value: n }, ..b }, n % 2 == 1),
    )
}

impl Board {
    /// The board as it comes out of reset: interrupts masked, counter at
    /// zero, timer off, no pending or enabled timer interrupt, pins idle.
    pub fn new() -> (b: Board)
        ensures
            !b.cpu.irq_enabled,
            b.ticks.value == 0,
            !b.timer.on,
            !b.intc.timer_pending,
            !b.intc.timer_enabled,
            !b.yellow.high,
            !b.green.high,
    {
        Board {
            cpu: Cpu::new(),
            ticks: TickCell::new(),
            timer: Timer { on: false, period: 0, prescale: 0 },
            intc: IntCtl { timer_pending: false, timer_enabled: false, timer_priority: 0 },
            yellow: LedPin { analog_disabled: false, output: false, high: false },
            green: LedPin { analog_disabled: false, output: false, high: false },
        }
    }

    /// Drives the yellow LED: analog function off, direction forced to
    /// output, line driven to `on`.
    pub fn set_yellow_led(&mut self, on: bool)
        ensures
            *final(self) == spec_set_yellow(*old(self), on),
    {
        self.yellow = LedPin { analog_disabled: true, output: true, high: on };
    }

    /// Drives the green LED: analog function off, direction forced to
    /// output, line driven to `on`.
    pub fn set_green_led(&mut self, on: bool)
        ensures
            *final(self) == spec_set_green(*old(self), on),
    {
        self.green = LedPin { analog_disabled: true, output: true, high: on };
    }

    /// Clears the timer's pending-interrupt flag so the interrupt line
    /// de-asserts; omitting this in the handler would make it re-fire in a
    /// tight loop. Touches nothing else, so clearing twice is the same as
    /// clearing once.
    pub fn clear_timer_pending(&mut self)
        ensures
            *final(self) == spec_clear_pending(*old(self)),
            !final(self).intc.timer_pending,
    {
        self.intc.timer_pending = false;
    }

    /// Configures the tick timer: full 16-bit period, 1:256 prescale, timer
    /// on; then clears any stale pending flag, enables the timer interrupt
    /// source and assigns it priority 1.
    pub fn timer_init(&mut self)
        ensures
            final(self).timer == (Timer { on: true, period: 0xffff, prescale: 3 }),
            !final(self).intc.timer_pending,
            final(self).intc.timer_enabled,
            final(self).intc.timer_priority == 1,
            final(self).cpu == old(self).cpu,
            final(self).ticks == old(self).ticks,
            final(self).yellow == old(self).yellow,
            final(self).green == old(self).green,
    {
        self.timer = Timer { on: true, period: 0xffff, prescale: 3 };
        self.clear_timer_pending();
        self.intc.timer_enabled = true;
        self.intc.timer_priority = 1;
    }

    /// The timer-overflow interrupt handler.
    ///
    /// Inside a critical section it reads the shared counter, adds one and
    /// writes it back — the only place the counter is ever written. It then
    /// sets the yellow LED from the new counter's low bit and clears the
    /// pending flag in hardware. It never blocks and never touches the
    /// logging facade. The interrupt mask leaves the handler exactly as it
    /// found it.
    pub fn timer_isr(&mut self)
        requires
            old(self).ticks.value < u32::MAX,
        ensures
            *final(self) == spec_tick(*old(self)),
            final(self).ticks.value == old(self).ticks.value + 1,
            final(self).yellow.high == (final(self).ticks.value % 2 == 1),
            !final(self).intc.timer_pending,
            final(self).cpu == old(self).cpu,
            final(self).green == old(self).green,
    {
        let n = with_critical_section(
            &mut self.cpu,
            &mut self.ticks,
            (|v: u32| -> (next: u32)
                requires
                    v < u32::MAX,
                ensures
                    next == v + 1,
                { v + 1 }),
        );
        self.set_yellow_led(n % 2 == 1);
        self.clear_timer_pending();
    }

    /// The main loop's consistent snapshot of the tick counter, taken under
    /// the same critical-section discipline the handler uses. The board —
    /// the interrupt mask included — is left exactly as it was.
    pub fn read_ticks(&mut self) -> (ticks: u32)
        ensures
            *final(self) == *old(self),
            ticks == old(self).ticks.value,
    {
        with_critical_section(
            &mut self.cpu,
            &mut self.ticks,
            (|v: u32| -> (next: u32)
                ensures
                    next == v,
                { v }),
        )
    }
}

/// What can happen to the board while the main loop runs: the timer
/// overflows and the handler services it, or the main loop takes a snapshot
/// of the counter. Overflows preempt the loop at arbitrary points, so a
/// history is an arbitrary interleaving of the two.
#[derive(Clone, Copy, PartialEq, Eq, Structural, Debug)]
pub enum Event {
    /// A timer overflow, serviced by the interrupt handler.
    Overflow,
    /// A main-loop read of the counter; it changes nothing.
    Read,
}

/// One event applied to the board.
pub open spec fn spec_step(b: Board, e: Event) -> Board {
    match e {
        Event::Overflow => spec_tick(b),
        Event::Read => b,
    }
}

/// A whole history of events applied in order.
pub open spec fn spec_run(b: Board, events: Seq<Event>) -> Board
    decreases events.len(),
{
    if events.len() == 0 {
        b
    } else {
        spec_run(spec_step(b, events[0]), events.drop_first())
    }
}

/// How many timer overflows a history holds.
pub open spec fn overflow_count(events: Seq<Event>) -> nat
    decreases events.len(),
{
    if events.len() == 0 {
        0
    } else {
        (if events[0] is Overflow {
            1nat
        } else {
            0nat
        }) + overflow_count(events.drop_first())
    }
}

/// No tick is ever lost or double-counted: after any history of timer
/// overflows, however they interleave with main-loop reads, the counter
/// stands at its prior value plus exactly the number of overflows.
pub proof fn lemma_counter_counts_overflows(b: Board, events: Seq<Event>)
    requires
        b.ticks.value + overflow_count(events) <= u32::MAX,
    ensures
        spec_run(b, events).ticks.value == b.ticks.value + overflow_count(events),
    decreases events.len(),
{
    if events.len() > 0 {
        lemma_counter_counts_overflows(spec_step(b, events[0]), events.drop_first());
    }
}

/// The yellow LED blinks with the parity of the tick count: starting from a
/// counter at zero, after a history with at least one overflow the LED is on
/// exactly when the number of overflows so far is odd.
pub proof fn lemma_led_follows_tick_parity(b: Board, events: Seq<Event>)
    requires
        b.ticks.value == 0,
        overflow_count(events) >= 1,
        overflow_count(events) <= u32::MAX,
    ensures
        spec_run(b, events).yellow.high == (overflow_count(events) % 2 == 1),
    decreases events.len(),
{
    lemma_counter_counts_overflows(b, events);
    lemma_led_parity_step(b, events);
}

/// Helper for the parity law: whenever the LED already agrees with the
/// counter's parity — or at least one overflow will force it to — running a
/// history keeps the LED equal to the final counter's low bit.
proof fn lemma_led_parity_step(b: Board, events: Seq<Event>)
    requires
        b.ticks.value + overflow_count(events) <= u32::MAX,
        overflow_count(events) >= 1 || b.yellow.high == (b.ticks.value % 2 == 1),
    ensures
        spec_run(b, events).yellow.high == (spec_run(b, events).ticks.value % 2 == 1),
    decreases events.len(),
{
    if events.len() > 0 {
        lemma_counter_counts_overflows(spec_step(b, events[0]), events.drop_first());
        lemma_led_parity_step(spec_step(b, events[0]), events.drop_first());
    }
}

/// Clearing the pending flag is idempotent: a second clear changes nothing
/// at all — the flag stays clear, so the handler is not re-triggered.
pub proof fn lemma_clear_pending_idempotent(b: Board)
    ensures
        spec_clear_pending(spec_clear_pending(b)) == spec_clear_pending(b),
        !spec_clear_pending(b).intc.timer_pending,
{
}

} // verus!
