//! The matching engine over concrete response lists.

use sens_o_matic::matching::MatchingEngine;
use sens_o_matic::models::ping::{Ping, PingLifecycle};
use sens_o_matic::models::response::{Availability, Response};
use sens_o_matic::Id;

fn parse_millis(s: &str) -> i64 {
    s.parse::<chrono::DateTime<chrono::Utc>>()
        .unwrap()
        .timestamp_millis()
}

fn create_test_response(user_id: Id, earliest: &str, latest: &str) -> Response {
    Response {
        id: uuid::Uuid::new_v4().as_u128(),
        user: user_id,
        answer: true,
        availability: Some(Availability {
            earliest: parse_millis(earliest),
            latest: parse_millis(latest),
        }),
        preferences: None,
        updated_at: chrono::Utc::now().timestamp_millis(),
    }
}

fn create_test_ping() -> Ping {
    Ping {
        id: uuid::Uuid::new_v4().as_u128(),
        initiator: uuid::Uuid::new_v4().as_u128(),
        group: uuid::Uuid::new_v4().as_u128(),
        activity_type: "drinks".to_string(),
        rough_timing: "tonight".to_string(),
        vibe: None,
        lifecycle: PingLifecycle::Gathering { responses: vec![] },
        created_at: chrono::Utc::now().timestamp_millis(),
    }
}

#[test]
fn test_overlapping_times() {
    let mut ping = create_test_ping();

    // User 1: 17:00 - 21:00
    let response1 = create_test_response(
        uuid::Uuid::new_v4().as_u128(),
        "2024-12-15T17:00:00Z",
        "2024-12-15T21:00:00Z",
    );

    // User 2: 18:00 - 22:00
    let response2 = create_test_response(
        uuid::Uuid::new_v4().as_u128(),
        "2024-12-15T18:00:00Z",
        "2024-12-15T22:00:00Z",
    );

    if let PingLifecycle::Gathering { responses } = &mut ping.lifecycle {
        responses.push(response1);
        responses.push(response2);
    }

    let result = MatchingEngine::calculate_match(&ping);
    assert!(result.has_match);
    assert!(result.overlap.is_some());

    let overlap = result.overlap.unwrap();
    // Overlap should be 18:00 - 21:00.
    assert_eq!(overlap.start, parse_millis("2024-12-15T18:00:00Z"));
    assert_eq!(overlap.end, parse_millis("2024-12-15T21:00:00Z"));
    assert_eq!(overlap.attendee_count, 2);
}

#[test]
fn test_no_overlap() {
    let mut ping = create_test_ping();

    // User 1: 16:00 - 18:00
    let response1 = create_test_response(
        uuid::Uuid::new_v4().as_u128(),
        "2024-12-15T16:00:00Z",
        "2024-12-15T18:00:00Z",
    );

    // User 2: 19:00 - 23:00 (no overlap)
    let response2 = create_test_response(
        uuid::Uuid::new_v4().as_u128(),
        "2024-12-15T19:00:00Z",
        "2024-12-15T23:00:00Z",
    );

    if let PingLifecycle::Gathering { responses } = &mut ping.lifecycle {
        responses.push(response1);
        responses.push(response2);
    }

    let result = MatchingEngine::calculate_match(&ping);
    assert!(!result.has_match);
    assert!(result.overlap.is_none());
}

#[test]
fn test_no_contributing_responses() {
    // One positive answer without availability, one negative answer: the
    // filtered set is empty, so there is no match.
    let mut ping = create_test_ping();

    let yes_without_window = Response {
        id: uuid::Uuid::new_v4().as_u128(),
        user: uuid::Uuid::new_v4().as_u128(),
        answer: true,
        availability: None,
        preferences: None,
        updated_at: chrono::Utc::now().timestamp_millis(),
    };
    let no_with_window = Response {
        answer: false,
        ..create_test_response(
            uuid::Uuid::new_v4().as_u128(),
            "2024-12-15T17:00:00Z",
            "2024-12-15T21:00:00Z",
        )
    };

    if let PingLifecycle::Gathering { responses } = &mut ping.lifecycle {
        responses.push(yes_without_window);
        responses.push(no_with_window);
    }

    let result = MatchingEngine::calculate_match(&ping);
    assert!(!result.has_match);
    assert!(result.overlap.is_none());
}

#[test]
fn test_single_window_is_its_own_overlap() {
    let mut ping = create_test_ping();
    let response = create_test_response(
        uuid::Uuid::new_v4().as_u128(),
        "2024-12-15T17:00:00Z",
        "2024-12-15T21:00:00Z",
    );
    if let PingLifecycle::Gathering { responses } = &mut ping.lifecycle {
        responses.push(response);
    }

    let result = MatchingEngine::calculate_match(&ping);
    assert!(result.has_match);
    let overlap = result.overlap.unwrap();
    assert_eq!(overlap.start, parse_millis("2024-12-15T17:00:00Z"));
    assert_eq!(overlap.end, parse_millis("2024-12-15T21:00:00Z"));
    assert_eq!(overlap.attendee_count, 1);
}

#[test]
fn test_matching_is_order_insensitive() {
    let user1 = uuid::Uuid::new_v4().as_u128();
    let user2 = uuid::Uuid::new_v4().as_u128();
    let user3 = uuid::Uuid::new_v4().as_u128();
    let r1 = create_test_response(user1, "2024-12-15T17:00:00Z", "2024-12-15T21:00:00Z");
    let r2 = create_test_response(user2, "2024-12-15T18:00:00Z", "2024-12-15T22:00:00Z");
    let r3 = create_test_response(user3, "2024-12-15T16:30:00Z", "2024-12-15T20:00:00Z");

    let mut forward = create_test_ping();
    let mut backward = create_test_ping();
    backward.id = forward.id;
    if let PingLifecycle::Gathering { responses } = &mut forward.lifecycle {
        responses.push(r1.clone());
        responses.push(r2.clone());
        responses.push(r3.clone());
    }
    if let PingLifecycle::Gathering { responses } = &mut backward.lifecycle {
        responses.push(r3);
        responses.push(r2);
        responses.push(r1);
    }

    let a = MatchingEngine::calculate_match(&forward);
    let b = MatchingEngine::calculate_match(&backward);
    assert_eq!(a.has_match, b.has_match);
    assert_eq!(a.overlap, b.overlap);
    assert!(a.has_match);
    assert_eq!(a.overlap.unwrap().start, parse_millis("2024-12-15T18:00:00Z"));
    assert_eq!(a.overlap.unwrap().end, parse_millis("2024-12-15T20:00:00Z"));
    assert_eq!(a.overlap.unwrap().attendee_count, 3);
}

#[test]
fn test_matching_twice_yields_identical_results() {
    let mut ping = create_test_ping();
    let response1 = create_test_response(
        uuid::Uuid::new_v4().as_u128(),
        "2024-12-15T17:00:00Z",
        "2024-12-15T21:00:00Z",
    );
    let response2 = create_test_response(
        uuid::Uuid::new_v4().as_u128(),
        "2024-12-15T18:00:00Z",
        "2024-12-15T22:00:00Z",
    );
    if let PingLifecycle::Gathering { responses } = &mut ping.lifecycle {
        responses.push(response1);
        responses.push(response2);
    }

    let first = MatchingEngine::calculate_match(&ping);
    let second = MatchingEngine::calculate_match(&ping);
    assert_eq!(first, second);
}
