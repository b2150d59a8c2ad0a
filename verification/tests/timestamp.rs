use mall::domain::model::timestamp::Timestamp;
use mall::domain::model::timestamp::NANOS_PER_SECOND;
use mall::domain::model::timestamp::SECONDS_PER_DAY;

#[test]
fn timestamp_holds_its_parts() {
    let instant = Timestamp::new(-5, 7);

    assert_eq!(instant.secs, -5);
    assert_eq!(instant.nanos, 7);
    assert_eq!(instant, Timestamp { secs: -5, nanos: 7 });
}

#[test]
fn units_of_time() {
    assert_eq!(NANOS_PER_SECOND, 1_000_000_000);
    assert_eq!(SECONDS_PER_DAY, 24 * 60 * 60);
}

#[test]
fn instants_are_ordered_by_seconds_then_nanoseconds() {
    let early = Timestamp::new(10, 999_999_999);
    let late = Timestamp::new(11, 0);
    let later = Timestamp::new(11, 1);

    assert!(early.not_after(&late));
    assert!(!late.not_after(&early));
    assert!(late.not_after(&later));
    assert!(!later.not_after(&late));
    assert!(late.not_after(&late));
    assert!(Timestamp::new(-1, 5).not_after(&Timestamp::new(0, 0)));
}

#[test]
fn order_agrees_with_the_comparison_operators() {
    let instants = [
        Timestamp::new(-3, 0),
        Timestamp::new(10, 999_999_999),
        Timestamp::new(11, 0),
        Timestamp::new(11, 1),
    ];

    for left in instants.iter() {
        for right in instants.iter() {
            assert_eq!(left.not_after(right), left <= right);
        }
    }
}

#[test]
fn later_of_two_instants() {
    let early = Timestamp::new(10, 5);
    let late = Timestamp::new(10, 6);

    assert_eq!(early.later_of(late), late);
    assert_eq!(late.later_of(early), late);
    assert_eq!(late.later_of(late), late);
}
