//! Leveled logging facade: a sink that is empty until a transmit handle is
//! installed, a minimum-severity filter, and byte-by-byte output of
//! `"<level> - <message>\n"` lines through the blocking transmit path.

use vstd::prelude::*;
use vstd::string::StringSliceAdditionalSpecFns;
use crate::uart::Tx;

verus! {

/// Message severity, most severe first.
#[derive(Clone, Copy, PartialEq, Eq, Structural, Debug)]
pub enum Level {
    Error,
    Warn,
    Info,
    Debug,
    Trace,
}

/// Severity rank used by the minimum-severity filter; lower is more severe.
pub open spec fn level_rank(level: Level) -> int {
    match level {
        Level::Error => 1,
        Level::Warn => 2,
        Level::Info => 3,
        Level::Debug => 4,
        Level::Trace => 5,
    }
}

/// The filter applied before any formatting: everything at least as severe
/// as `Debug` passes; only `Trace` is suppressed.
pub open spec fn spec_enabled(level: Level) -> bool {
    level_rank(level) <= level_rank(Level::Debug)
}

/// The label that opens a log line for a given level.
pub open spec fn spec_label(level: Level) -> Seq<u8> {
    match level {
        Level::Error => seq![69u8, 82u8, 82u8, 79u8, 82u8],
        Level::Warn => seq![87u8, 65u8, 82u8, 78u8],
        Level::Info => seq![73u8, 78u8, 70u8, 79u8],
        Level::Debug => seq![68u8, 69u8, 66u8, 85u8, 71u8],
        Level::Trace => seq![84u8, 82u8, 65u8, 67u8, 69u8],
    }
}

/// A full log line: `"<level> - <message>"` followed by a newline.
pub open spec fn spec_line(level: Level, msg: Seq<u8>) -> Seq<u8> {
    spec_label(level) + seq![32u8, 45u8, 32u8] + msg + seq![10u8]
}

/// The level's label as bytes.
pub fn level_label(level: Level) -> (v: Vec<u8>)
    ensures
        v@ == spec_label(level),
{
    let mut v: Vec<u8> = Vec::new();
    match level {
        Level::Error => {
            v.push(69u8);
            v.push(82u8);
            v.push(82u8);
            v.push(79u8);
            v.push(82u8);
            proof {
                assert(v@ =~= spec_label(Level::Error));
            }
        }
        Level::Warn => {
            v.push(87u8);
            v.push(65u8);
            v.push(82u8);
            v.push(78u8);
            proof {
                assert(v@ =~= spec_label(Level::Warn));
            }
        }
        Level::Info => {
            v.push(73u8);
            v.push(78u8);
            v.push(70u8);
            v.push(79u8);
            proof {
                assert(v@ =~= spec_label(Level::Info));
            }
        }
        Level::Debug => {
            v.push(68u8);
            v.push(69u8);
            v.push(66u8);
            v.push(85u8);
            v.push(71u8);
            proof {
                assert(v@ =~= spec_label(Level::Debug));
            }
        }
        Level::Trace => {
            v.push(84u8);
            v.push(82u8);
            v.push(65u8);
            v.push(67u8);
            v.push(69u8);
            proof {
                assert(v@ =~= spec_label(Level::Trace));
            }
        }
    }
    v
}

/// Formats one log line, label through trailing newline, as the bytes that
/// will go on the wire.
pub fn format_line(level: Level, msg: &[u8]) -> (v: Vec<u8>)
    ensures
        v@ == spec_line(level, msg@),
{
    let mut v = level_label(level);
    v.push(32u8);
    v.push(45u8);
    v.push(32u8);
    let mut m = vstd::slice::slice_to_vec(msg);
    v.append(&mut m);
    v.push(10u8);
    proof {
        assert(v@ =~= spec_line(level, msg@));
    }
    v
}

/// Adapter that writes text byte-by-byte through the blocking transmit path.
/// It holds the transmit handle exclusively while writing.
pub struct TxWriter {
    /// The transmit handle being written through.
    pub tx: Tx,
}

impl TxWriter {
    /// Wraps a transmit handle for writing.
    pub fn new(tx: Tx) -> (w: TxWriter)
        ensures
            w.tx == tx,
    {
        TxWriter { tx }
    }

    /// Hands the transmit handle back once writing is done.
    pub fn into_tx(self) -> (tx: Tx)
        ensures
            tx == self.tx,
    {
        self.tx
    }

    /// Writes every byte of the slice, in order, blocking on each.
    pub fn write_bytes(&mut self, bytes: &[u8])
        requires
            old(self).tx.wf(),
        ensures
            final(self).tx.wf(),
            final(self).tx.spec_output() == old(self).tx.spec_output() + bytes@,
    {
        let mut i: usize = 0;
        while i < bytes.len()
            invariant
                i <= bytes@.len(),
                self.tx.wf(),
                self.tx.spec_output() == old(self).tx.spec_output() + bytes@.subrange(0, i as int),
            decreases bytes@.len() - i,
        {
            let b = bytes[i];
            self.tx.write_byte(b);
            i = i + 1;
            proof {
                assert(self.tx.spec_output() =~= old(self).tx.spec_output() + bytes@.subrange(
                    0,
                    i as int,
                ));
            }
        }
        proof {
            assert(bytes@.subrange(0, bytes@.len() as int) =~= bytes@);
        }
    }

    /// Writes every byte of the string's UTF-8 encoding, in order.
    pub fn write_str(&mut self, s: &str)
        requires
            old(self).tx.wf(),
        ensures
            final(self).tx.wf(),
            final(self).tx.spec_output() == old(self).tx.spec_output() + s.spec_bytes(),
    {
        self.write_bytes(s.as_bytes());
    }
}

/// The process-wide log sink: empty until a transmit handle is installed,
/// then the one route every log line takes to the wire.
pub struct UartLogger {
    /// The installed transmit handle, if any.
    pub tx: Option<Tx>,
}

impl UartLogger {
    /// Whether a transmit handle has been installed.
    pub open spec fn has_sink(self) -> bool {
        self.tx is Some
    }

    /// The installed handle's FIFO stays within the hardware depth.
    pub open spec fn wf(self) -> bool {
        match self.tx {
            Some(tx) => tx.wf(),
            None => true,
        }
    }

    /// Every byte this sink has handed to the transmitter, in order; empty
    /// while no handle is installed.
    pub open spec fn spec_output(self) -> Seq<u8> {
        match self.tx {
            Some(tx) => tx.spec_output(),
            None => Seq::<u8>::empty(),
        }
    }

    /// An empty sink, as the facade starts at process start.
    pub fn new() -> (logger: UartLogger)
        ensures
            !logger.has_sink(),
            logger.wf(),
    {
        UartLogger { tx: None }
    }

    /// Installs the transmit handle; done exactly once, during startup.
    pub fn set_tx(&mut self, tx: Tx)
        ensures
            final(self).tx == Some(tx),
    {
        self.tx = Some(tx);
    }

    /// The minimum-severity filter, applied before any formatting.
    pub fn enabled(&self, level: Level) -> (e: bool)
        ensures
            e == spec_enabled(level),
    {
        match level {
            Level::Trace => false,
            _ => true,
        }
    }

    /// Logs one line of raw message bytes.
    ///
    /// With a handle installed and the level passing the filter, the line
    /// `"<level> - <message>\n"` goes out byte-by-byte through the blocking
    /// write path. Before `set_tx`, or for a filtered level, the call leaves
    /// every piece of state exactly as it was — a silent no-op, never a
    /// fault.
    pub fn log_bytes(&mut self, level: Level, msg: &[u8])
        requires
            old(self).wf(),
        ensures
            final(self).wf(),
            final(self).has_sink() == old(self).has_sink(),
            !old(self).has_sink() ==> *final(self) == *old(self),
            !spec_enabled(level) ==> *final(self) == *old(self),
            old(self).has_sink() && spec_enabled(level) ==> final(self).spec_output() == old(
                self,
            ).spec_output() + spec_line(level, msg@),
    {
        if self.enabled(level) {
            match self.tx.take() {
                Some(tx) => {
                    let line = format_line(level, msg);
                    let mut w = TxWriter::new(tx);
                    w.write_bytes(line.as_slice());
                    self.tx = Some(w.into_tx());
                }
                None => {},
            }
        }
    }

    /// Logs one line with a string message, encoded as its UTF-8 bytes.
    pub fn log(&mut self, level: Level, msg: &str)
        requires
            old(self).wf(),
        ensures
            final(self).wf(),
            final(self).has_sink() == old(self).has_sink(),
            !old(self).has_sink() ==> *final(self) == *old(self),
            !spec_enabled(level) ==> *final(self) == *old(self),
            old(self).has_sink() && spec_enabled(level) ==> final(self).spec_output() == old(
                self,
            ).spec_output() + spec_line(level, msg.spec_bytes()),
    {
        self.log_bytes(level, msg.as_bytes());
    }

    /// Nothing is buffered by the facade itself, so there is nothing to
    /// flush.
    pub fn flush(&self) {
    }
}

} // verus!
