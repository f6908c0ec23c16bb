//! Critical-section discipline for state shared between the main loop and the
//! timer interrupt handler.
//!
//! The CPU's global interrupt-enable bit is modeled explicitly. Entering a
//! critical section masks interrupts and hands back a token that records the
//! prior enable state; the shared tick counter can only be read or written
//! while such a token is held, and leaving the section restores exactly the
//! state that was saved. Because the handler itself can only run while
//! interrupts are enabled, no read can observe a torn update and no increment
//! can be lost.

use vstd::prelude::*;

verus! {

/// The CPU's global interrupt-enable state.
#[derive(Clone, Copy, PartialEq, Eq, Structural, Debug)]
pub struct Cpu {
    /// Whether the interrupt line is currently unmasked.
    pub irq_enabled: bool,
}

/// Witness that interrupts are masked; records the enable state to restore.
///
/// Values of this type are only handed out by [`Cpu::enter_critical`], so a
/// function that demands one can only be called between entering and leaving
/// a critical section.
pub struct CriticalSection {
    prior_irq: bool,
}

impl CriticalSection {
    /// The interrupt-enable state saved when the section was entered.
    pub closed spec fn prior(self) -> bool {
        self.prior_irq
    }
}

impl Cpu {
    /// A CPU as it comes out of reset: interrupts masked.
    pub fn new() -> (cpu: Cpu)
        ensures
            !cpu.irq_enabled,
    {
        Cpu { irq_enabled: false }
    }

    /// Globally unmasks interrupts (done once by the startup code after the
    /// interrupt controller is configured).
    pub fn enable_interrupts(&mut self)
        ensures
            final(self).irq_enabled,
    {
        self.irq_enabled = true;
    }

    /// Masks interrupts and saves the prior enable state in the returned
    /// token. Until the matching [`Cpu::exit_critical`], no interrupt handler
    /// can preempt the running code.
    pub fn enter_critical(&mut self) -> (cs: CriticalSection)
        ensures
            !final(self).irq_enabled,
            cs.prior() == old(self).irq_enabled,
    {
        let prior = self.irq_enabled;
        self.irq_enabled = false;
        CriticalSection { prior_irq: prior }
    }

    /// Consumes the token and restores the interrupt-enable state saved when
    /// the section was entered.
    pub fn exit_critical(&mut self, cs: CriticalSection)
        ensures
            final(self).irq_enabled == cs.prior(),
    {
        self.irq_enabled = cs.prior_irq;
    }
}

/// The shared tick counter: written only by the timer interrupt handler,
/// read by the main loop, both inside a critical section.
#[derive(Clone, Copy, PartialEq, Eq, Structural, Debug)]
pub struct TickCell {
    /// Ticks counted since reset.
    pub value: u32,
}

impl TickCell {
    /// A counter at zero, as process-wide state starts.
    pub fn new() -> (cell: TickCell)
        ensures
            cell.value == 0,
    {
        TickCell { value: 0 }
    }

    /// Reads the counter; callable only while interrupts are masked.
    pub fn read(&self, _cs: &CriticalSection) -> (v: u32)
        ensures
            v == self.value,
    {
        self.value
    }

    /// Writes the counter; callable only while interrupts are masked.
    pub fn write(&mut self, _cs: &CriticalSection, v: u32)
        ensures
            final(self).value == v,
    {
        self.value = v;
    }
}

/// Masks interrupts, runs `f` with exclusive access to the shared counter,
/// restores the prior interrupt-enable state, and hands back `f`'s result.
///
/// `f` maps the counter's current value to the value to store back, which is
/// also handed back to the caller; the whole exchange happens while
/// interrupts are masked, so the handler can never observe or preempt a
/// half-done update. The section is a single read-modify-write — O(1),
/// never a loop.
pub fn with_critical_section<F>(cpu: &mut Cpu, cell: &mut TickCell, f: F) -> (r: u32) where
    F: FnOnce(u32) -> u32,

    requires
        call_requires(f, (old(cell).value,)),
    ensures
        *final(cpu) == *old(cpu),
        call_ensures(f, (old(cell).value,), r),
        final(cell).value == r,
{
    let cs = cpu.enter_critical();
    let v = cell.read(&cs);
    let next = f(v);
    cell.write(&cs, next);
    cpu.exit_critical(cs);
    next
}

} // verus!
