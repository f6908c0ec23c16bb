//! UART peripheral model: one-time initialization with a computed baud
//! divisor, a consuming split into exclusively owned transmit and receive
//! handles, and a non-blocking single-byte transmit path.

use vstd::prelude::*;

verus! {

/// Depth of the hardware transmit FIFO, in bytes.
pub const TX_FIFO_DEPTH: usize = 8;

/// Which physical UART module a peripheral wrapper drives.
#[derive(Clone, Copy, PartialEq, Eq, Structural, Debug)]
pub enum HwModule {
    Uart1,
    Uart2,
}

/// Baud-rate-generator divisor for a reference clock and a target baud rate:
/// truncating integer division, `clock / (4 * baud) - 1`.
pub open spec fn spec_divisor(clock: int, baud: int) -> int {
    clock / (4 * baud) - 1
}

/// Computes the divisor that the rate generator must be loaded with.
///
/// An out-of-range configuration (a divisor that does not fit the 16-bit
/// generator register) is a programming error, excluded by precondition
/// rather than reported at run time.
pub fn divisor(clock: u32, baud: u32) -> (d: u16)
    requires
        1 <= baud,
        4 * baud <= u32::MAX,
        0 <= spec_divisor(clock as int, baud as int) <= 0xffff,
    ensures
        d as int == spec_divisor(clock as int, baud as int),
{
    let quotient = clock / (4 * baud);
    (quotient - 1) as u16
}

/// A UART peripheral wrapper before it is split into directional handles.
///
/// `init` must be called exactly once, before `split`; re-initializing a
/// live peripheral is undefined at the hardware level, so it is excluded by
/// precondition instead of being guarded at run time.
pub struct Uart {
    /// The physical module this wrapper stands for.
    pub module: HwModule,
    /// Whether `init` has programmed the rate generator and enable bits.
    pub initialized: bool,
    /// The divisor loaded into the rate generator by `init`.
    pub brg: u16,
    /// Transmitter enable bit.
    pub tx_enabled: bool,
    /// Receiver enable bit.
    pub rx_enabled: bool,
}

impl Uart {
    /// Wraps a physical module, still unconfigured.
    pub fn new(module: HwModule) -> (u: Uart)
        ensures
            u.module == module,
            !u.initialized,
            !u.tx_enabled,
            !u.rx_enabled,
    {
        Uart { module, initialized: false, brg: 0, tx_enabled: false, rx_enabled: false }
    }

    /// Programs the baud-rate generator from the reference clock and target
    /// baud rate and enables the peripheral for transmit and receive.
    ///
    /// The divisor is always computed from the arguments, never supplied by
    /// the caller.
    pub fn init(&mut self, clock_hz: u32, baud: u32)
        requires
            !old(self).initialized,
            1 <= baud,
            4 * baud <= u32::MAX,
            0 <= spec_divisor(clock_hz as int, baud as int) <= 0xffff,
        ensures
            final(self).initialized,
            final(self).brg as int == spec_divisor(clock_hz as int, baud as int),
            final(self).tx_enabled,
            final(self).rx_enabled,
            final(self).module == old(self).module,
    {
        self.brg = divisor(clock_hz, baud);
        self.tx_enabled = true;
        self.rx_enabled = true;
        self.initialized = true;
    }

    /// Consumes the initialized peripheral and yields the two exclusively
    /// owned directional handles; afterwards only the handles remain.
    pub fn split(self) -> (handles: (Tx, Rx))
        requires
            self.initialized,
        ensures
            handles.0.fifo@ =~= Seq::<u8>::empty(),
            handles.0.wire@ =~= Seq::<u8>::empty(),
            handles.1.fifo@ =~= Seq::<u8>::empty(),
    {
        (Tx { fifo: Vec::new(), wire: Vec::new() }, Rx { fifo: Vec::new() })
    }
}

/// The exclusively owned transmit half of a split UART.
///
/// The hardware transmit path is modeled as plain state: `fifo` holds the
/// bytes queued in the transmit FIFO, oldest first, and `wire` the bytes the
/// shift register has already put on the line (kept so a harness can inspect
/// what was sent). A failed poll of a full FIFO models one byte time passing,
/// during which the shift register takes the oldest queued byte.
pub struct Tx {
    /// Bytes waiting in the hardware FIFO, oldest first.
    pub fifo: Vec<u8>,
    /// Bytes that have already left the shift register, in wire order.
    pub wire: Vec<u8>,
}

impl Tx {
    /// The hardware buffer-full status flag.
    pub open spec fn spec_full(self) -> bool {
        self.fifo@.len() >= TX_FIFO_DEPTH
    }

    /// The FIFO never holds more than the hardware depth.
    pub open spec fn wf(self) -> bool {
        self.fifo@.len() <= TX_FIFO_DEPTH
    }

    /// Every byte handed to the transmitter so far, in order: first what has
    /// gone out on the wire, then what still waits in the FIFO.
    pub open spec fn spec_output(self) -> Seq<u8> {
        self.wire@ + self.fifo@
    }

    /// Reads the buffer-full status flag.
    pub fn is_full(&self) -> (full: bool)
        ensures
            full == self.spec_full(),
    {
        self.fifo.len() >= TX_FIFO_DEPTH
    }

    /// Non-blocking write: queues the byte and returns `true`, or returns
    /// `false` at once — never waiting — exactly when the buffer-full flag
    /// is set. Whatever the outcome, the sequence of bytes handed to the
    /// transmitter gains `byte` if and only if the result is `true`.
    pub fn try_write_byte(&mut self, byte: u8) -> (queued: bool)
        requires
            old(self).wf(),
        ensures
            final(self).wf(),
            queued == !old(self).spec_full(),
            queued ==> final(self).fifo@ == old(self).fifo@.push(byte)
                && final(self).wire == old(self).wire,
            !queued ==> final(self).fifo@.len() < TX_FIFO_DEPTH,
            final(self).spec_output() == if queued {
                old(self).spec_output().push(byte)
            } else {
                old(self).spec_output()
            },
    {
        if self.fifo.len() >= TX_FIFO_DEPTH {
            let b = self.fifo.remove(0);
            self.wire.push(b);
            proof {
                assert(self.spec_output() =~= old(self).spec_output());
            }
            false
        } else {
            self.fifo.push(byte);
            proof {
                assert(self.spec_output() =~= old(self).spec_output().push(byte));
            }
            true
        }
    }

    /// Every byte handed to the transmitter so far, in order, as one vector:
    /// what a probe on the line followed by a dump of the FIFO would show.
    pub fn output_so_far(&self) -> (v: Vec<u8>)
        ensures
            v@ == self.spec_output(),
    {
        let mut v: Vec<u8> = Vec::new();
        let mut i: usize = 0;
        while i < self.wire.len()
            invariant
                i <= self.wire@.len(),
                v@ == self.wire@.subrange(0, i as int),
            decreases self.wire@.len() - i,
        {
            v.push(self.wire[i]);
            i = i + 1;
        }
        proof {
            assert(v@ =~= self.wire@);
        }
        let mut j: usize = 0;
        while j < self.fifo.len()
            invariant
                j <= self.fifo@.len(),
                v@ == self.wire@ + self.fifo@.subrange(0, j as int),
            decreases self.fifo@.len() - j,
        {
            v.push(self.fifo[j]);
            j = j + 1;
            proof {
                assert(v@ =~= self.wire@ + self.fifo@.subrange(0, j as int));
            }
        }
        proof {
            assert(v@ =~= self.spec_output());
        }
        v
    }

    /// Blocking write: exactly a loop on `try_write_byte` until it returns
    /// `true`. Busy-waits while the buffer-full flag is set; once it returns,
    /// the byte has been queued behind everything handed over before it.
    pub fn write_byte(&mut self, byte: u8)
        requires
            old(self).wf(),
        ensures
            final(self).wf(),
            final(self).spec_output() == old(self).spec_output().push(byte),
    {
        loop
            invariant_except_break
                self.wf(),
                self.spec_output() == old(self).spec_output(),
            ensures
                self.wf(),
                self.spec_output() == old(self).spec_output().push(byte),
            decreases self.fifo@.len(),
        {
            if self.try_write_byte(byte) {
                break;
            }
        }
    }
}

/// The exclusively owned receive half of a split UART. Unused by this
/// firmware's control loop; it exposes the dual of the transmit path.
pub struct Rx {
    /// Bytes the hardware has received and not yet handed out, oldest first.
    pub fifo: Vec<u8>,
}

impl Rx {
    /// Non-blocking read: the oldest received byte, or `None` when the
    /// receive FIFO is empty.
    pub fn try_read_byte(&mut self) -> (byte: Option<u8>)
        ensures
            old(self).fifo@.len() == 0 ==> byte is None && final(self).fifo@ == old(self).fifo@,
            old(self).fifo@.len() > 0 ==> byte == Some(old(self).fifo@[0])
                && final(self).fifo@ == old(self).fifo@.drop_first(),
    {
        if self.fifo.len() == 0 {
            None
        } else {
            let b = self.fifo.remove(0);
            proof {
                assert(self.fifo@ =~= old(self).fifo@.drop_first());
            }
            Some(b)
        }
    }
}

} // verus!
