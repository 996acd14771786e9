use android_event_loop::time::{min_timeout, Duration, Instant};

fn ns(nanos: u128) -> Option<Duration> {
    Some(Duration { nanos })
}

#[test]
fn none_is_an_infinite_timeout() {
    assert_eq!(min_timeout(None, None), None);
    assert_eq!(min_timeout(ns(5), None), ns(5));
    assert_eq!(min_timeout(None, ns(7)), ns(7));
}

#[test]
fn smaller_timeout_wins_in_either_order() {
    assert_eq!(min_timeout(ns(5), ns(7)), ns(5));
    assert_eq!(min_timeout(ns(7), ns(5)), ns(5));
    assert_eq!(min_timeout(ns(4), ns(4)), ns(4));
    assert_eq!(min_timeout(ns(0), ns(u128::MAX)), ns(0));
}

#[test]
fn grouping_of_timeouts_does_not_matter() {
    let choices = [None, ns(0), ns(3), ns(9)];
    for a in choices {
        for b in choices {
            for c in choices {
                assert_eq!(
                    min_timeout(min_timeout(a, b), c),
                    min_timeout(a, min_timeout(b, c))
                );
            }
        }
    }
}

#[test]
fn zero_is_the_empty_span() {
    assert_eq!(Duration::zero(), Duration { nanos: 0 });
}

#[test]
fn span_since_an_earlier_point() {
    let at = |nanos: i128| Instant { nanos };
    assert_eq!(at(10).saturating_duration_since(at(4)).nanos, 6);
    assert_eq!(at(4).saturating_duration_since(at(10)).nanos, 0);
    assert_eq!(at(4).saturating_duration_since(at(4)).nanos, 0);
    assert_eq!(at(5).saturating_duration_since(at(-3)).nanos, 8);
    assert_eq!(at(-3).saturating_duration_since(at(-10)).nanos, 7);
}

#[test]
fn span_between_the_extreme_points_fits() {
    let span = Instant { nanos: i128::MAX }.saturating_duration_since(Instant { nanos: i128::MIN });
    assert_eq!(span.nanos, u128::MAX);
}

#[test]
fn order_of_points() {
    assert!(Instant { nanos: -1 }.is_before(Instant { nanos: 0 }));
    assert!(!Instant { nanos: 0 }.is_before(Instant { nanos: 0 }));
    assert!(!Instant { nanos: 1 }.is_before(Instant { nanos: 0 }));
}
