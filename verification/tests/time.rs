use monotime::time::Instant;
use std::cmp::Ordering;
use std::time::Duration;

#[test]
fn test_instance_duration_interplay() {
    let dur = Duration::from_nanos(200);
    let ts1 = Instant::from_nanos(100);
    let ts2 = Instant::from_nanos(300);

    assert_eq!(dur, ts2.duration_since(ts1));
    assert_eq!(dur, ts2.sub_instant(ts1));
    assert_eq!(ts2, ts1.add(dur));

    let mut ts = ts1;
    ts.add_assign(dur);
    assert_eq!(ts2, ts);

    let mut ts = ts2;
    ts.sub_assign(dur);
    assert_eq!(ts1, ts);
}

#[test]
fn test_instance_properties() {
    let ts1 = Instant::from_nanos(100);
    let ts2 = Instant::from_nanos(300);

    assert_eq!(ts1, ts1);
    assert_eq!(ts1, ts1.clone());
    assert!(ts2 > ts1);
    assert!(ts2 >= ts1);
    assert_eq!(Ordering::Equal, ts1.cmp(&ts1));
    assert_eq!(Ordering::Greater, ts2.cmp(&ts1));
    assert_eq!(Ordering::Less, ts1.cmp(&ts2));
}

#[test]
fn test_sub_duration() {
    let dur = Duration::from_nanos(200);
    let ts1 = Instant::from_nanos(100);
    let ts2 = Instant::from_nanos(300);

    assert_eq!(ts1, ts2.sub(dur));
}

#[test]
fn test_round_trip() {
    let dur = Duration::from_nanos(7_000);
    let ts = Instant::from_nanos(50_000);

    assert_eq!(ts, ts.add(dur).sub(dur));
    assert_eq!(ts, ts.sub(dur).add(dur));
}

#[test]
fn test_sub_forms_agree() {
    let ts1 = Instant::from_nanos(1_234);
    let ts2 = Instant::from_nanos(9_876);

    assert_eq!(ts2.duration_since(ts1), ts2.sub_instant(ts1));
}

#[test]
fn test_arith_strictly_ordered() {
    let dur = Duration::from_nanos(1);
    let ts = Instant::from_nanos(500);

    assert!(ts.add(dur) > ts);
    assert!(ts.sub(dur) < ts);
}

#[test]
fn test_duration_since_of_self_is_zero() {
    let ts = Instant::from_nanos(777);

    assert_eq!(Duration::from_nanos(0), ts.duration_since(ts));
}

#[test]
fn test_duration_since_narrows_to_64_bits() {
    let epoch = Instant::from_nanos(0);
    let far = Instant::from_nanos((1u128 << 64) + 5);

    assert_eq!(Duration::from_nanos(5), far.duration_since(epoch));
}

#[test]
fn test_into_inner() {
    assert_eq!(42, Instant::from_nanos(42).into_inner());
    assert_eq!(0, Instant::from_nanos(0).into_inner());
}

#[test]
fn test_checked_duration_since() {
    let ts1 = Instant::from_nanos(100);
    let ts2 = Instant::from_nanos(300);

    assert_eq!(Some(Duration::from_nanos(200)), ts2.checked_duration_since(ts1));
    assert_eq!(Some(Duration::from_nanos(0)), ts1.checked_duration_since(ts1));
    assert_eq!(None, ts1.checked_duration_since(ts2));
}

#[test]
fn test_checked_add() {
    let ts = Instant::from_nanos(100);

    assert_eq!(Some(Instant::from_nanos(250)), ts.checked_add(Duration::from_nanos(150)));
    assert_eq!(None, Instant::from_nanos(u128::MAX).checked_add(Duration::from_nanos(1)));
}

#[test]
fn test_checked_sub() {
    let ts = Instant::from_nanos(100);

    assert_eq!(Some(Instant::from_nanos(40)), ts.checked_sub(Duration::from_nanos(60)));
    assert_eq!(None, ts.checked_sub(Duration::from_nanos(101)));
}

#[test]
fn test_sub_whole_counter_is_epoch() {
    let ts = Instant::from_nanos(100);

    assert_eq!(Instant::from_nanos(0), ts.sub(Duration::from_nanos(100)));
    assert_eq!(0, ts.sub(Duration::from_nanos(100)).into_inner());
}
