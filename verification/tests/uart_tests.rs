use ticklog::uart::divisor;
use ticklog::uart::HwModule;
use ticklog::uart::Rx;
use ticklog::uart::Tx;
use ticklog::uart::Uart;
use ticklog::uart::TX_FIFO_DEPTH;

#[test]
fn divisor_115200_at_96mhz() {
    // 96_000_000 / (4 * 115_200) - 1 = 207.33... truncated to 207
    assert_eq!(divisor(96_000_000, 115_200), 207);
}

#[test]
fn divisor_truncates() {
    assert_eq!(divisor(96_000_000, 9_600), 2_499);
    assert_eq!(divisor(8_000_000, 115_200), 16);
}

#[test]
fn divisor_fills_register() {
    assert_eq!(divisor(262_144, 1), 0xffff);
    assert_eq!(divisor(4, 1), 0);
}

#[test]
fn init_computes_divisor_and_enables() {
    let mut u = Uart::new(HwModule::Uart2);
    assert!(!u.initialized);
    u.init(96_000_000, 115_200);
    assert!(u.initialized);
    assert_eq!(u.brg, 207);
    assert!(u.tx_enabled);
    assert!(u.rx_enabled);
    assert_eq!(u.module, HwModule::Uart2);
}

#[test]
fn split_gives_empty_handles() {
    let mut u = Uart::new(HwModule::Uart2);
    u.init(96_000_000, 115_200);
    let (tx, rx) = u.split();
    assert!(tx.fifo.is_empty());
    assert!(tx.wire.is_empty());
    assert!(rx.fifo.is_empty());
}

#[test]
fn try_write_queues_until_full() {
    let mut u = Uart::new(HwModule::Uart2);
    u.init(96_000_000, 115_200);
    let (mut tx, _) = u.split();
    for i in 0..TX_FIFO_DEPTH {
        assert!(!tx.is_full());
        assert!(tx.try_write_byte(i as u8));
    }
    assert!(tx.is_full());
    assert_eq!(tx.fifo, (0..TX_FIFO_DEPTH as u8).collect::<Vec<u8>>());
    assert!(tx.wire.is_empty());
}

#[test]
fn try_write_full_returns_false() {
    let mut tx = Tx { fifo: vec![1, 2, 3, 4, 5, 6, 7, 8], wire: Vec::new() };
    assert!(tx.is_full());
    assert!(!tx.try_write_byte(9));
    // the byte was not queued; the poll only let the oldest byte leave
    assert_eq!(tx.output_so_far(), vec![1, 2, 3, 4, 5, 6, 7, 8]);
    assert!(!tx.is_full());
}

#[test]
fn write_byte_busy_waits_then_queues() {
    let mut tx = Tx { fifo: vec![1, 2, 3, 4, 5, 6, 7, 8], wire: Vec::new() };
    tx.write_byte(9);
    assert_eq!(tx.output_so_far(), vec![1, 2, 3, 4, 5, 6, 7, 8, 9]);
    assert_eq!(tx.wire, vec![1]);
    assert_eq!(tx.fifo, vec![2, 3, 4, 5, 6, 7, 8, 9]);
}

#[test]
fn write_byte_matches_try_write_loop() {
    let mut a = Tx { fifo: vec![1, 2, 3, 4, 5, 6, 7, 8], wire: Vec::new() };
    let mut b = Tx { fifo: vec![1, 2, 3, 4, 5, 6, 7, 8], wire: Vec::new() };
    a.write_byte(42);
    while !b.try_write_byte(42) {}
    assert_eq!(a.fifo, b.fifo);
    assert_eq!(a.wire, b.wire);
}

#[test]
fn rx_reads_oldest_first() {
    let mut rx = Rx { fifo: vec![10, 20] };
    assert_eq!(rx.try_read_byte(), Some(10));
    assert_eq!(rx.try_read_byte(), Some(20));
    assert_eq!(rx.try_read_byte(), None);
}
