use ticklog::board::Board;
use ticklog::interrupt::Cpu;
use ticklog::logger::Level;
use ticklog::logger::UartLogger;
use ticklog::mainloop::format_decimal;
use ticklog::mainloop::main_iteration;
use ticklog::mainloop::ticks_message;
use ticklog::uart::HwModule;
use ticklog::uart::Uart;

fn output_of(logger: &UartLogger) -> Vec<u8> {
    match &logger.tx {
        Some(tx) => tx.output_so_far(),
        None => Vec::new(),
    }
}

#[test]
fn critical_section_restores_interrupt_state() {
    let mut cpu = Cpu::new();
    assert!(!cpu.irq_enabled);
    cpu.enable_interrupts();
    assert!(cpu.irq_enabled);
    let cs = cpu.enter_critical();
    assert!(!cpu.irq_enabled);
    cpu.exit_critical(cs);
    assert!(cpu.irq_enabled);
}

#[test]
fn timer_init_configures_and_arms() {
    let mut b = Board::new();
    b.intc.timer_pending = true;
    b.timer_init();
    assert!(b.timer.on);
    assert_eq!(b.timer.period, 0xffff);
    assert_eq!(b.timer.prescale, 3);
    assert!(!b.intc.timer_pending);
    assert!(b.intc.timer_enabled);
    assert_eq!(b.intc.timer_priority, 1);
    assert_eq!(b.ticks.value, 0);
}

#[test]
fn isr_counts_and_toggles_led() {
    let mut b = Board::new();
    b.timer_init();
    b.intc.timer_pending = true;
    b.timer_isr();
    assert_eq!(b.ticks.value, 1);
    assert!(b.yellow.high); // tick 1 is odd: LED on
    assert!(b.yellow.analog_disabled && b.yellow.output);
    assert!(!b.intc.timer_pending);
    b.intc.timer_pending = true;
    b.timer_isr();
    assert_eq!(b.ticks.value, 2);
    assert!(!b.yellow.high); // tick 2 is even: LED off
    b.intc.timer_pending = true;
    b.timer_isr();
    assert_eq!(b.ticks.value, 3);
    assert!(b.yellow.high);
}

#[test]
fn counter_reflects_every_overflow() {
    // overflows firing at arbitrary points relative to main-loop reads
    let mut b = Board::new();
    b.timer_init();
    let before = b.read_ticks();
    let mut fired = 0u32;
    let pattern = [0usize, 3, 1, 0, 2, 4, 0, 1];
    for burst in pattern {
        for _ in 0..burst {
            b.timer_isr();
            fired += 1;
        }
        let seen = b.read_ticks();
        assert_eq!(seen, before + fired); // nothing lost, nothing doubled
    }
    assert_eq!(b.read_ticks(), 11);
}

#[test]
fn read_ticks_leaves_board_as_it_was() {
    let mut b = Board::new();
    b.timer_init();
    b.cpu.irq_enabled = true;
    let snapshot = b;
    let _ = b.read_ticks();
    let _ = b.read_ticks();
    assert_eq!(b, snapshot);
}

#[test]
fn clearing_pending_twice_is_idempotent() {
    let mut b = Board::new();
    b.intc.timer_pending = true;
    b.clear_timer_pending();
    assert!(!b.intc.timer_pending);
    let once = b;
    b.clear_timer_pending();
    assert!(!b.intc.timer_pending);
    assert_eq!(b, once); // the second clear changed nothing at all
}

#[test]
fn decimal_digits_are_exact() {
    assert_eq!(format_decimal(0), b"0".to_vec());
    assert_eq!(format_decimal(7), b"7".to_vec());
    assert_eq!(format_decimal(42), b"42".to_vec());
    assert_eq!(format_decimal(207), b"207".to_vec());
    assert_eq!(format_decimal(u32::MAX), b"4294967295".to_vec());
}

#[test]
fn ticks_message_spells_greeting_and_count() {
    assert_eq!(ticks_message(0), b"Hello World! ticks = 0".to_vec());
    assert_eq!(ticks_message(1000000), b"Hello World! ticks = 1000000".to_vec());
}

#[test]
fn main_iteration_reports_and_toggles_green() {
    let mut b = Board::new();
    b.timer_init();
    let mut u = Uart::new(HwModule::Uart2);
    u.init(96_000_000, 115_200);
    let (tx, _) = u.split();
    let mut logger = UartLogger::new();
    logger.set_tx(tx);

    let state = main_iteration(&mut b, &mut logger, false);
    assert!(state);
    assert!(b.green.high);
    assert_eq!(output_of(&logger), b"INFO - Hello World! ticks = 0\n".to_vec());

    b.timer_isr();
    b.timer_isr();
    b.timer_isr();
    let state = main_iteration(&mut b, &mut logger, state);
    assert!(!state);
    assert!(!b.green.high);
    assert_eq!(
        output_of(&logger),
        b"INFO - Hello World! ticks = 0\nINFO - Hello World! ticks = 3\n".to_vec()
    );
}

#[test]
fn main_iteration_without_sink_stays_silent() {
    let mut b = Board::new();
    let mut logger = UartLogger::new();
    let state = main_iteration(&mut b, &mut logger, true);
    assert!(!state);
    assert!(logger.tx.is_none());
    assert!(!b.green.high);
}

#[test]
fn logging_direct_from_logger_matches_level_filter() {
    let mut logger = UartLogger::new();
    logger.log_bytes(Level::Trace, b"dropped");
    logger.log_bytes(Level::Info, b"dropped too: no sink");
    assert!(logger.tx.is_none());
}
