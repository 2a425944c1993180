use yomi_kernel::interrupts::timer::TickCounter;
use yomi_kernel::time::{ticks, uptime_ms, uptime_seconds, Duration, Timestamp};

#[test]
fn test_duration_from_millis() {
    let duration = Duration::from_millis(5000);
    assert_eq!(duration.as_millis(), 5000);
    assert_eq!(duration.as_secs(), 5);
}

#[test]
fn test_duration_from_secs() {
    let duration = Duration::from_secs(10);
    assert_eq!(duration.as_millis(), 10000);
    assert_eq!(duration.as_secs(), 10);
}

#[test]
fn test_timestamp_ordering() {
    let counter = TickCounter::new();
    let ts = Timestamp::now(&counter);
    let elapsed = ts.elapsed(&counter);
    assert_eq!(elapsed.as_millis(), 0);
}

#[test]
fn timestamp_elapsed_follows_the_counter() {
    let mut counter = TickCounter::with_ticks(150);
    let ts = Timestamp::now(&counter);
    assert_eq!(ts.as_millis(), 1500);
    for _ in 0..25 {
        counter.tick();
    }
    assert_eq!(ts.elapsed(&counter).as_millis(), 250);
    assert_eq!(ticks(&counter), 175);
    assert_eq!(uptime_ms(&counter), 1750);
    assert_eq!(uptime_seconds(&counter), 1);
    let earlier = TickCounter::with_ticks(100);
    assert_eq!(ts.elapsed(&earlier).as_millis(), 0);
    assert!(Timestamp::now(&earlier) < ts);
    assert!(Duration::from_millis(999) < Duration::from_secs(1));
    assert_eq!(Duration::from_millis(1999).as_secs(), 1);
}
