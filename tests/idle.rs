use netcp::error::NetError;
use netcp::idle::{is_idle_exceeded, Stamp, Step, Transfer, IDLE_TIMEOUT_MS};

fn at(sec: i64, nsec: i32) -> Stamp {
    Stamp { sec, nsec }
}

#[test]
fn idle_window_is_800_ms() {
    assert_eq!(IDLE_TIMEOUT_MS, 800);
    assert!(!is_idle_exceeded(at(10, 0), at(10, 800_000_000)));
    assert!(is_idle_exceeded(at(10, 0), at(10, 800_000_001)));
    assert!(is_idle_exceeded(at(10, 500_000_000), at(11, 300_000_001)));
    assert!(!is_idle_exceeded(at(10, 500_000_000), at(11, 300_000_000)));
    assert!(!is_idle_exceeded(at(10, 0), at(9, 0)));
}

#[test]
fn stalled_stream_times_out_with_bytes_missing() {
    let mut t = Transfer::begin_at(1300, at(100, 0));
    assert_eq!(t.record_at(512, at(100, 100_000_000)), Step::Continue);
    assert_eq!(t.record_at(0, at(100, 500_000_000)), Step::Continue);
    assert_eq!(t.record_at(0, at(100, 900_000_000)), Step::Continue);
    assert_eq!(t.record_at(0, at(101, 0)), Step::TimedOut);
    assert!(t.done < t.total);
    assert_eq!(t.done, 512);
    assert_eq!(Step::TimedOut.into_result(), Err(NetError::Timeout));
}

#[test]
fn slow_but_steady_transfer_never_times_out() {
    let mut t = Transfer::begin_at(10, at(0, 0));
    let ms = |total: i64| at(total / 1000, ((total % 1000) * 1_000_000) as i32);
    for k in 0..9i64 {
        assert_eq!(t.record_at(0, ms(k * 700 + 500)), Step::Continue);
        assert_eq!(t.record_at(1, ms(k * 700 + 700)), Step::Continue);
        assert_eq!(t.last_progress, ms(k * 700 + 700));
    }
    assert_eq!(t.remaining(), 1);
    assert_eq!(t.record_at(1, at(60, 0)), Step::Complete);
    assert!(t.is_complete());
    assert_eq!(Step::Complete.into_result(), Ok(true));
    assert_eq!(Step::Continue.into_result(), Ok(false));
}

#[test]
fn empty_transfer_completes_on_first_attempt() {
    let mut t = Transfer::begin(0);
    assert!(t.is_complete());
    assert_eq!(t.record(0), Step::Complete);
}

#[test]
fn clock_reading_is_well_formed() {
    let mut t = Transfer::begin(4);
    assert!(t.last_progress.nsec >= 0 && t.last_progress.nsec < 1_000_000_000);
    assert!(t.last_progress.sec > 1_600_000_000);
    assert_eq!(t.record(3), Step::Continue);
    assert_eq!(t.record(1), Step::Complete);
}
