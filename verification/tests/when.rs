//! Availability windows built from a start and a duration.

use sens_o_matic::when::Availability;

#[test]
fn test_availability_creation() {
    let start = chrono::Utc::now().timestamp_millis();
    let duration = chrono::Duration::hours(2).num_milliseconds();
    let availability = Availability::new(start, duration);

    assert_eq!(availability.start, start);
    assert_eq!(availability.end, start + duration);
}

#[test]
fn test_negative_duration_becomes_positive() {
    let start = chrono::Utc::now().timestamp_millis();
    let negative_duration = chrono::Duration::hours(-3).num_milliseconds();
    let availability = Availability::new(start, negative_duration);

    // Should use the magnitude of the duration.
    assert_eq!(availability.start, start);
    assert_eq!(
        availability.end,
        start + chrono::Duration::hours(3).num_milliseconds()
    );
    assert!(availability.end > availability.start);
}

#[test]
fn test_overlapping_availabilities() {
    let now = chrono::Utc::now().timestamp_millis();
    let hour = chrono::Duration::hours(1).num_milliseconds();
    let avail1 = Availability::new(now, 2 * hour);
    let avail2 = Availability::new(now + hour, 2 * hour);
    let avail3 = Availability::new(now + 3 * hour, hour);

    assert!(avail1.overlaps_with(&avail2));
    assert!(avail2.overlaps_with(&avail1));
    assert!(!avail1.overlaps_with(&avail3));
    assert!(!avail3.overlaps_with(&avail1));
}
