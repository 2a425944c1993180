use yomi_kernel::interrupts::pic::ChainedPics;
use yomi_kernel::interrupts::port::PortWrite;
use yomi_kernel::interrupts::timer::{
    ticks, timer_interrupt_handler, uptime_ms, uptime_seconds, TickCounter, TIMER_FREQUENCY,
};

#[test]
fn test_timer_ticks() {
    let counter = TickCounter::new();
    let initial_ticks = ticks(&counter);

    for i in 0..1000000 {
        std::hint::black_box(i);
    }

    let final_ticks = ticks(&counter);
    assert!(final_ticks >= initial_ticks);
}

#[test]
fn test_uptime_calculation() {
    let counter = TickCounter::with_ticks(100);
    assert_eq!(uptime_ms(&counter), 1000); // 100 ticks at 100 Hz = 1000 ms
    assert_eq!(uptime_seconds(&counter), 1);
}

#[test]
fn uptime_after_n_interrupts() {
    assert_eq!(TIMER_FREQUENCY, 100);
    let mut counter = TickCounter::new();
    let mut pics = ChainedPics::new(32, 40);
    for n in 1..=250u64 {
        let ack = timer_interrupt_handler(&mut counter, &mut pics);
        assert_eq!(ack, vec![PortWrite { port: 0x20, width: 1, value: 0x20 }]);
        assert_eq!(ticks(&counter), n);
        assert_eq!(uptime_ms(&counter), n * 10);
    }
    assert_eq!(uptime_seconds(&counter), 2);
}

#[test]
fn uptime_at_the_largest_count_that_fits() {
    let counter = TickCounter::with_ticks(u64::MAX / 10);
    assert_eq!(uptime_ms(&counter), u64::MAX / 10 * 10);
    assert_eq!(uptime_seconds(&counter), u64::MAX / 10 / 100);
}

#[test]
fn tick_counter_wraps() {
    let mut counter = TickCounter::with_ticks(u64::MAX);
    counter.tick();
    assert_eq!(ticks(&counter), 0);
}
