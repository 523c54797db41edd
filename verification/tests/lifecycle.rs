//! The lifecycle state machine: guard verdicts, transition data carry-over,
//! and attendee status bookkeeping.

use sens_o_matic::models::error::AppError;
use sens_o_matic::models::hangout::{
    AttendeeStatus, HangoutData, MatchResults, TimeOverlap, Timeline,
};
use sens_o_matic::models::ping::{Ping, PingLifecycle, PingState};
use sens_o_matic::models::response::{Availability, CreateResponseRequest, Response};
use sens_o_matic::state_machine::StateMachine;
use sens_o_matic::Id;

fn make_ping(initiator: Id, lifecycle: PingLifecycle) -> Ping {
    Ping {
        id: 1,
        initiator,
        group: 2,
        activity_type: "drinks".to_string(),
        rough_timing: "tonight".to_string(),
        vibe: None,
        lifecycle,
        created_at: 0,
    }
}

fn yes_response(user: Id, earliest: i64, latest: i64) -> Response {
    Response {
        id: user + 1000,
        user,
        answer: true,
        availability: Some(Availability { earliest, latest }),
        preferences: None,
        updated_at: 0,
    }
}

#[test]
fn trigger_match_by_non_initiator_is_forbidden_not_conflict() {
    // Even though the gathering phase would allow matching, authorization is
    // checked first.
    let ping = make_ping(
        7,
        PingLifecycle::Gathering {
            responses: vec![yes_response(8, 100, 200)],
        },
    );
    let verdict = StateMachine::can_trigger_match(&ping, 9);
    assert!(matches!(verdict, Err(AppError::Forbidden(_))));
}

#[test]
fn cancel_from_terminal_state_is_conflict() {
    // A ping that found no match is terminal; even the initiator cannot
    // cancel it.
    let ping = make_ping(7, PingLifecycle::NoMatch { responses: vec![] });
    let verdict = StateMachine::can_cancel(&ping, 7);
    assert!(matches!(verdict, Err(AppError::Conflict(_))));
}

#[test]
fn cancel_by_non_initiator_is_forbidden() {
    let ping = make_ping(7, PingLifecycle::Gathering { responses: vec![] });
    let verdict = StateMachine::can_cancel(&ping, 8);
    assert!(matches!(verdict, Err(AppError::Forbidden(_))));
    let allowed = StateMachine::can_cancel(&ping, 7);
    assert!(allowed.is_ok());
}

#[test]
fn transition_to_matching_forks_on_has_match() {
    let responses = vec![yes_response(8, 100, 200), yes_response(9, 150, 250)];
    let results = MatchResults {
        ping_id: 1,
        overlap: Some(TimeOverlap {
            start: 150,
            end: 200,
            attendee_count: 2,
        }),
        has_match: true,
    };

    let mut matched = make_ping(
        7,
        PingLifecycle::Gathering {
            responses: responses.clone(),
        },
    );
    StateMachine::transition_to_matching(&mut matched, results);
    match &matched.lifecycle {
        PingLifecycle::Matching {
            responses: kept,
            match_results,
        } => {
            assert_eq!(kept.len(), 2);
            assert_eq!(kept[0].user, 8);
            assert_eq!(kept[1].user, 9);
            assert!(match_results.has_match);
        }
        other => panic!("expected matching, got {:?}", other.state_name()),
    }

    let no_results = MatchResults {
        ping_id: 1,
        overlap: None,
        has_match: false,
    };
    let mut unmatched = make_ping(7, PingLifecycle::Gathering { responses });
    StateMachine::transition_to_matching(&mut unmatched, no_results);
    match &unmatched.lifecycle {
        PingLifecycle::NoMatch { responses: kept } => {
            assert_eq!(kept.len(), 2);
            assert_eq!(kept[0].user, 8);
        }
        other => panic!("expected no_match, got {:?}", other.state_name()),
    }
}

#[test]
fn cancelled_keeps_responses_and_drops_the_rest() {
    let responses = vec![yes_response(8, 100, 200)];
    let results = MatchResults {
        ping_id: 1,
        overlap: Some(TimeOverlap {
            start: 100,
            end: 200,
            attendee_count: 1,
        }),
        has_match: true,
    };
    let mut ping = make_ping(
        7,
        PingLifecycle::Matching {
            responses,
            match_results: results,
        },
    );
    StateMachine::transition_to_cancelled(&mut ping);
    match &ping.lifecycle {
        PingLifecycle::Cancelled { responses } => {
            assert_eq!(responses.len(), 1);
            assert_eq!(responses[0].user, 8);
        }
        other => panic!("expected cancelled, got {:?}", other.state_name()),
    }
    assert!(ping.lifecycle.match_results().is_none());
    assert!(ping.lifecycle.hangout().is_none());
}

#[test]
fn full_happy_path_through_the_lifecycle() {
    let mut ping = make_ping(7, PingLifecycle::PingSent);
    assert_eq!(ping.lifecycle.state(), PingState::PingSent);
    assert!(ping.lifecycle.can_add_response());

    ping.add_response(yes_response(8, 100, 200));
    assert_eq!(ping.lifecycle.state(), PingState::Gathering);
    ping.add_response(yes_response(9, 150, 250));
    assert_eq!(ping.responses().len(), 2);
    assert!(ping.has_user_responded(8));
    assert!(!ping.has_user_responded(10));

    let results = MatchResults {
        ping_id: ping.id,
        overlap: Some(TimeOverlap {
            start: 150,
            end: 200,
            attendee_count: 2,
        }),
        has_match: true,
    };
    StateMachine::transition_to_matching(&mut ping, results);
    assert_eq!(ping.lifecycle.state(), PingState::Matching);

    let timeline = Timeline { start: 150, end: 200 };
    let hangout = StateMachine::create_hangout_data(&ping, timeline);
    assert_eq!(hangout.confirmed_attendees, vec![8, 9]);
    StateMachine::transition_to_venue_confirmed(&mut ping, hangout);
    assert_eq!(ping.lifecycle.state(), PingState::VenueConfirmed);

    StateMachine::transition_to_active(&mut ping);
    assert_eq!(ping.lifecycle.state(), PingState::ActiveHangout);

    StateMachine::transition_to_complete(&mut ping);
    assert_eq!(ping.lifecycle.state(), PingState::Complete);
    assert!(ping.lifecycle.is_terminal());
    assert!(!ping.lifecycle.can_cancel());

    let hangout = ping.lifecycle.hangout().unwrap();
    assert_eq!(hangout.timeline, timeline);
    assert_eq!(
        hangout.attendee_statuses,
        vec![(8, AttendeeStatus::Pending), (9, AttendeeStatus::Pending)]
    );
}

#[test]
fn attendee_status_updates_in_embedded_hangout() {
    let mut data = HangoutData::new(vec![8, 9], Timeline { start: 150, end: 200 });
    assert!(data.is_attendee(8));
    assert!(!data.is_attendee(10));

    data.update_attendee_status(8, AttendeeStatus::Enroute);
    assert_eq!(
        data.attendee_statuses,
        vec![(8, AttendeeStatus::Enroute), (9, AttendeeStatus::Pending)]
    );
    data.update_attendee_status(8, AttendeeStatus::Arrived);
    assert_eq!(
        data.attendee_statuses,
        vec![(8, AttendeeStatus::Arrived), (9, AttendeeStatus::Pending)]
    );
}

#[test]
fn response_validation_rejects_bad_input() {
    let negative_distance = CreateResponseRequest {
        user: 8,
        answer: true,
        availability: None,
        preferences: Some(sens_o_matic::models::response::ResponsePreferences {
            max_distance: Some(-5),
            preferred_areas: None,
            excluded_areas: None,
        }),
    };
    assert!(matches!(
        negative_distance.validate_preferences(),
        Err(AppError::BadRequest(_))
    ));

    let inverted_window = CreateResponseRequest {
        user: 8,
        answer: true,
        availability: Some(Availability {
            earliest: 200,
            latest: 100,
        }),
        preferences: None,
    };
    assert!(matches!(
        inverted_window.validate_preferences(),
        Err(AppError::BadRequest(_))
    ));

    let fine = CreateResponseRequest {
        user: 8,
        answer: true,
        availability: Some(Availability {
            earliest: 100,
            latest: 200,
        }),
        preferences: None,
    };
    assert!(fine.validate_preferences().is_ok());
}
