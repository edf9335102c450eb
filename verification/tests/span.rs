use std::time::Duration;
use vera_serve::span::Span;

#[test]
fn spans_hold_seconds_and_nanoseconds() {
    let span = Span::new(3, 250);
    assert_eq!((span.as_secs(), span.subsec_nanos()), (3, 250));
    let carried = Span::new(3, 2_000_000_001);
    assert_eq!((carried.as_secs(), carried.subsec_nanos()), (5, 1));
    assert_eq!(Span::from_secs(7), Span::new(7, 0));
}

#[test]
fn longest_span_is_that_of_the_standard_library() {
    let span = Span::max_value();
    assert_eq!(Duration::new(span.as_secs(), span.subsec_nanos()), Duration::MAX);
    assert!(span.is_max());
    assert!(!Span::new(u64::MAX, 999_999_998).is_max());
    assert!(!Span::from_secs(u64::MAX).is_max());
}

#[test]
fn spans_compare_by_length() {
    assert!(Span::new(1, 5).at_least(&Span::new(1, 5)));
    assert!(Span::new(1, 6).at_least(&Span::new(1, 5)));
    assert!(!Span::new(1, 5).at_least(&Span::new(1, 6)));
    assert!(Span::new(2, 0).at_least(&Span::new(1, 999_999_999)));
    assert_eq!(Span::new(2, 0).longer(Span::new(1, 9)), Span::new(2, 0));
    assert_eq!(Span::new(0, 3).longer(Span::new(1, 9)), Span::new(1, 9));
}

#[test]
fn quarter_agrees_with_the_standard_library() {
    for (secs, nanos) in [(0, 0), (0, 7), (1, 0), (3, 999_999_999), (10, 2), (u64::MAX, 999_999_999)] {
        let quarter = Span::new(secs, nanos).quarter();
        assert_eq!(
            Duration::new(quarter.as_secs(), quarter.subsec_nanos()),
            Duration::new(secs, nanos) / 4
        );
    }
    assert_eq!(Span::new(3, 2).quarter(), Span::new(0, 750_000_000));
}

#[test]
fn difference_stops_at_nothing() {
    assert_eq!(Span::new(5, 3).saturating_sub(&Span::new(2, 1)), Span::new(3, 2));
    assert_eq!(Span::new(5, 1).saturating_sub(&Span::new(2, 3)), Span::new(2, 999_999_998));
    assert_eq!(Span::new(2, 1).saturating_sub(&Span::new(5, 3)), Span::new(0, 0));
}
