//! The main control loop's per-iteration work: snapshot the shared tick
//! counter, report it through the logging facade, and toggle the green LED.
//! The busy-wait delay between iterations and the loop itself live with the
//! startup glue outside the library; everything the iteration decides and
//! writes is here, with a contract.

use vstd::prelude::*;
use crate::board::Board;
use crate::board::spec_set_green;
use crate::logger::Level;
use crate::logger::UartLogger;
use crate::logger::spec_enabled;
use crate::logger::spec_line;

verus! {

/// The decimal digits of `n`, most significant first, as ASCII bytes; a
/// single `0` for zero.
pub open spec fn spec_decimal(n: nat) -> Seq<u8>
    decreases n,
{
    if n < 10 {
        seq![(48 + n) as u8]
    } else {
        spec_decimal(n / 10).push((48 + n % 10) as u8)
    }
}

/// Appends the decimal digits of `n` to `v`.
fn push_decimal(n: u32, v: &mut Vec<u8>)
    ensures
        final(v)@ == old(v)@ + spec_decimal(n as nat),
    decreases n,
{
    if n < 10 {
        v.push(48 + n as u8);
        proof {
            assert(v@ =~= old(v)@ + spec_decimal(n as nat));
        }
    } else {
        push_decimal(n / 10, v);
        v.push(48 + (n % 10) as u8);
        proof {
            assert(v@ =~= old(v)@ + spec_decimal(n as nat));
        }
    }
}

/// The decimal digits of `n` as ASCII bytes.
pub fn format_decimal(n: u32) -> (v: Vec<u8>)
    ensures
        v@ == spec_decimal(n as nat),
{
    let mut v: Vec<u8> = Vec::new();
    push_decimal(n, &mut v);
    proof {
        assert(v@ =~= spec_decimal(n as nat));
    }
    v
}

/// The message the main loop reports each round: the greeting followed by
/// the tick count read under the critical section.
pub open spec fn spec_ticks_message(n: u32) -> Seq<u8> {
    // "Hello World! ticks = " then the decimal digits
    seq![
        72u8,
        101u8,
        108u8,
        108u8,
        111u8,
        32u8,
        87u8,
        111u8,
        114u8,
        108u8,
        100u8,
        33u8,
        32u8,
        116u8,
        105u8,
        99u8,
        107u8,
        115u8,
        32u8,
        61u8,
        32u8,
    ] + spec_decimal(n as nat)
}

/// Builds the main loop's report message for a tick count.
pub fn ticks_message(n: u32) -> (v: Vec<u8>)
    ensures
        v@ == spec_ticks_message(n),
{
    let mut v: Vec<u8> = Vec::new();
    v.push(72u8);
    v.push(101u8);
    v.push(108u8);
    v.push(108u8);
    v.push(111u8);
    v.push(32u8);
    v.push(87u8);
    v.push(111u8);
    v.push(114u8);
    v.push(108u8);
    v.push(100u8);
    v.push(33u8);
    v.push(32u8);
    v.push(116u8);
    v.push(105u8);
    v.push(99u8);
    v.push(107u8);
    v.push(115u8);
    v.push(32u8);
    v.push(61u8);
    v.push(32u8);
    push_decimal(n, &mut v);
    proof {
        assert(v@ =~= spec_ticks_message(n));
    }
    v
}

/// One round of the main control loop, between delays: takes a consistent
/// snapshot of the tick counter, reports it at `Info` through the logging
/// facade, drives the green LED to `!state`, and hands back the flipped
/// state for the next round. The board is untouched but for the green pin;
/// with a sink installed, the facade's output grows by exactly the one
/// report line.
pub fn main_iteration(board: &mut Board, logger: &mut UartLogger, state: bool) -> (next: bool)
    requires
        old(logger).wf(),
    ensures
        next == !state,
        *final(board) == spec_set_green(*old(board), !state),
        final(logger).wf(),
        final(logger).has_sink() == old(logger).has_sink(),
        !old(logger).has_sink() ==> *final(logger) == *old(logger),
        old(logger).has_sink() ==> final(logger).spec_output() == old(logger).spec_output()
            + spec_line(Level::Info, spec_ticks_message(old(board).ticks.value)),
{
    let ticks = board.read_ticks();
    let msg = ticks_message(ticks);
    logger.log_bytes(Level::Info, msg.as_slice());
    board.set_green_led(!state);
    proof {
        assert(spec_enabled(Level::Info));
    }
    !state
}

} // verus!
