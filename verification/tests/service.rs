//! The service layer over the concurrent store: an end-to-end flow and the
//! error taxonomy at the edges.

use sens_o_matic::handlers::{groups, hangouts, pings, responses, users};
use sens_o_matic::models::error::{ApiError, AppError};
use sens_o_matic::models::group::{is_valid_invite_code, CreateGroupRequest, JoinGroupRequest};
use sens_o_matic::models::hangout::{AttendeeStatus, Hangout, HangoutStatus, Timeline, UpdateAttendeeStatusRequest};
use sens_o_matic::models::hangout::ConfirmHangoutRequest;
use sens_o_matic::models::ping::{CancelPingRequest, CreatePingRequest, PingState, TriggerMatchRequest};
use sens_o_matic::models::response::{Availability, CreateResponseRequest, UpdateResponseRequest};
use sens_o_matic::models::user::CreateUserRequest;
use sens_o_matic::state::AppState;
use sens_o_matic::Id;

fn new_user(state: &AppState, name: &str) -> Id {
    users::create_user(
        state,
        CreateUserRequest {
            name: name.to_string(),
            avatar: None,
            preferences: None,
        },
    )
    .unwrap()
    .id
}

fn hour(h: i64) -> i64 {
    // An instant on an arbitrary evening, given as whole hours.
    h * 3_600_000
}

#[test]
fn end_to_end_flow_to_completion() {
    let state = AppState::new();
    let alice = new_user(&state, "Alice");
    let bob = new_user(&state, "Bob");
    let carol = new_user(&state, "Carol");

    // Alice founds a group; Bob and Carol join by invite code.
    let group = groups::create_group(
        &state,
        CreateGroupRequest {
            name: "Thursday people".to_string(),
            creator_id: alice,
        },
    )
    .unwrap();
    assert!(is_valid_invite_code(&group.invite_code));
    for user in [bob, carol] {
        let joined = groups::join_group(
            &state,
            JoinGroupRequest {
                user_id: user,
                invite_code: group.invite_code.clone(),
            },
        )
        .unwrap();
        assert!(joined.members.contains(&user));
    }

    // Alice pings the group.
    let ping = pings::create_ping(
        &state,
        CreatePingRequest {
            initiator: alice,
            group: group.id,
            activity_type: "drinks".to_string(),
            rough_timing: "tonight".to_string(),
            vibe: None,
        },
    )
    .unwrap();

    // Bob is free 17:00-21:00, Carol 18:00-22:00.
    responses::create_response(
        &state,
        ping.id,
        CreateResponseRequest {
            user: bob,
            answer: true,
            availability: Some(Availability {
                earliest: hour(17),
                latest: hour(21),
            }),
            preferences: None,
        },
    )
    .unwrap();
    responses::create_response(
        &state,
        ping.id,
        CreateResponseRequest {
            user: carol,
            answer: true,
            availability: Some(Availability {
                earliest: hour(18),
                latest: hour(22),
            }),
            preferences: None,
        },
    )
    .unwrap();

    // Alice triggers matching: the overlap is 18:00-21:00 for two attendees.
    let matched = pings::trigger_match(&state, ping.id, TriggerMatchRequest { user_id: alice })
        .unwrap();
    assert_eq!(matched.lifecycle.state(), PingState::Matching);
    let results = pings::get_match_results(&state, ping.id).unwrap();
    assert!(results.has_match);
    let overlap = results.overlap.unwrap();
    assert_eq!(overlap.start, hour(18));
    assert_eq!(overlap.end, hour(21));
    assert_eq!(overlap.attendee_count, 2);

    // Alice confirms a venue over part of the overlap.
    let confirmed = pings::confirm_hangout(
        &state,
        ping.id,
        ConfirmHangoutRequest {
            user_id: alice,
            timeline: Timeline {
                start: hour(19),
                end: hour(21),
            },
        },
    )
    .unwrap();
    assert_eq!(confirmed.lifecycle.state(), PingState::VenueConfirmed);

    // Bob reports he is on his way once the hangout is active.
    let active = pings::activate_ping(&state, ping.id).unwrap();
    assert_eq!(active.lifecycle.state(), PingState::ActiveHangout);
    let updated = pings::update_attendee_status(
        &state,
        ping.id,
        bob,
        UpdateAttendeeStatusRequest {
            status: AttendeeStatus::Enroute,
        },
    )
    .unwrap();
    let hangout = updated.lifecycle.hangout().unwrap();
    assert!(hangout
        .attendee_statuses
        .contains(&(bob, AttendeeStatus::Enroute)));

    // The evening ends.
    let complete = pings::complete_ping(&state, ping.id).unwrap();
    assert_eq!(complete.lifecycle.state(), PingState::Complete);

    // The group listing shows one completed ping.
    let listing = groups::list_group_pings(
        &state,
        group.id,
        groups::ListPingsQuery {
            state: Some(PingState::Complete),
        },
    )
    .unwrap();
    assert_eq!(listing.len(), 1);
    assert_eq!(listing[0].id, ping.id);
}

#[test]
fn non_initiator_trigger_match_is_forbidden_via_service() {
    let state = AppState::new();
    let alice = new_user(&state, "Alice");
    let bob = new_user(&state, "Bob");
    let group = groups::create_group(
        &state,
        CreateGroupRequest {
            name: "pair".to_string(),
            creator_id: alice,
        },
    )
    .unwrap();
    groups::join_group(
        &state,
        JoinGroupRequest {
            user_id: bob,
            invite_code: group.invite_code.clone(),
        },
    )
    .unwrap();
    let ping = pings::create_ping(
        &state,
        CreatePingRequest {
            initiator: alice,
            group: group.id,
            activity_type: "coffee".to_string(),
            rough_timing: "soon".to_string(),
            vibe: None,
        },
    )
    .unwrap();
    responses::create_response(
        &state,
        ping.id,
        CreateResponseRequest {
            user: bob,
            answer: true,
            availability: Some(Availability {
                earliest: hour(17),
                latest: hour(21),
            }),
            preferences: None,
        },
    )
    .unwrap();

    // The ping is gathering, so only authorization can fail here.
    let verdict = pings::trigger_match(&state, ping.id, TriggerMatchRequest { user_id: bob });
    assert!(matches!(verdict, Err(AppError::Forbidden(_))));
}

#[test]
fn cancel_in_no_match_is_conflict_via_service() {
    let state = AppState::new();
    let alice = new_user(&state, "Alice");
    let bob = new_user(&state, "Bob");
    let group = groups::create_group(
        &state,
        CreateGroupRequest {
            name: "pair".to_string(),
            creator_id: alice,
        },
    )
    .unwrap();
    groups::join_group(
        &state,
        JoinGroupRequest {
            user_id: bob,
            invite_code: group.invite_code.clone(),
        },
    )
    .unwrap();
    let ping = pings::create_ping(
        &state,
        CreatePingRequest {
            initiator: alice,
            group: group.id,
            activity_type: "coffee".to_string(),
            rough_timing: "soon".to_string(),
            vibe: None,
        },
    )
    .unwrap();
    // Bob is interested but gives no availability: matching finds nothing and
    // the ping lands in the terminal no-match phase.
    responses::create_response(
        &state,
        ping.id,
        CreateResponseRequest {
            user: bob,
            answer: true,
            availability: None,
            preferences: None,
        },
    )
    .unwrap();
    let after = pings::trigger_match(&state, ping.id, TriggerMatchRequest { user_id: alice })
        .unwrap();
    assert_eq!(after.lifecycle.state(), PingState::NoMatch);

    let verdict = pings::cancel_ping(&state, ping.id, CancelPingRequest { user_id: alice });
    assert!(matches!(verdict, Err(AppError::Conflict(_))));
}

#[test]
fn error_taxonomy_at_the_service_edges() {
    let state = AppState::new();
    let alice = new_user(&state, "Alice");

    // NotFound: nothing stored under an unknown id.
    assert!(matches!(
        users::get_user(&state, 424242),
        Err(AppError::NotFound(_))
    ));

    // Validation: an empty user name violates the length bound.
    assert!(matches!(
        users::create_user(
            &state,
            CreateUserRequest {
                name: "".to_string(),
                avatar: None,
                preferences: None,
            }
        ),
        Err(AppError::Validation(_))
    ));

    // Validation: a malformed invite code is rejected before any lookup.
    assert!(matches!(
        groups::join_group(
            &state,
            JoinGroupRequest {
                user_id: alice,
                invite_code: "no-t@ok".to_string(),
            }
        ),
        Err(AppError::Validation(_))
    ));

    let group = groups::create_group(
        &state,
        CreateGroupRequest {
            name: "club".to_string(),
            creator_id: alice,
        },
    )
    .unwrap();

    // Forbidden: a non-member cannot open a ping in the group.
    let outsider = new_user(&state, "Mallory");
    assert!(matches!(
        pings::create_ping(
            &state,
            CreatePingRequest {
                initiator: outsider,
                group: group.id,
                activity_type: "drinks".to_string(),
                rough_timing: "tonight".to_string(),
                vibe: None,
            }
        ),
        Err(AppError::Forbidden(_))
    ));

    let ping = pings::create_ping(
        &state,
        CreatePingRequest {
            initiator: alice,
            group: group.id,
            activity_type: "drinks".to_string(),
            rough_timing: "tonight".to_string(),
            vibe: None,
        },
    )
    .unwrap();

    // Conflict: the same user cannot answer twice.
    responses::create_response(
        &state,
        ping.id,
        CreateResponseRequest {
            user: alice,
            answer: true,
            availability: None,
            preferences: None,
        },
    )
    .unwrap();
    assert!(matches!(
        responses::create_response(
            &state,
            ping.id,
            CreateResponseRequest {
                user: alice,
                answer: false,
                availability: None,
                preferences: None,
            }
        ),
        Err(AppError::Conflict(_))
    ));

    // BadRequest: an inverted availability window.
    assert!(matches!(
        responses::create_response(
            &state,
            ping.id,
            CreateResponseRequest {
                user: alice,
                answer: true,
                availability: Some(Availability {
                    earliest: hour(21),
                    latest: hour(17),
                }),
                preferences: None,
            }
        ),
        Err(AppError::BadRequest(_))
    ));
}

#[test]
fn response_updates_are_owner_only() {
    let state = AppState::new();
    let alice = new_user(&state, "Alice");
    let bob = new_user(&state, "Bob");
    let group = groups::create_group(
        &state,
        CreateGroupRequest {
            name: "pair".to_string(),
            creator_id: alice,
        },
    )
    .unwrap();
    groups::join_group(
        &state,
        JoinGroupRequest {
            user_id: bob,
            invite_code: group.invite_code.clone(),
        },
    )
    .unwrap();
    let ping = pings::create_ping(
        &state,
        CreatePingRequest {
            initiator: alice,
            group: group.id,
            activity_type: "coffee".to_string(),
            rough_timing: "soon".to_string(),
            vibe: None,
        },
    )
    .unwrap();
    let response = responses::create_response(
        &state,
        ping.id,
        CreateResponseRequest {
            user: bob,
            answer: false,
            availability: None,
            preferences: None,
        },
    )
    .unwrap();

    // Alice cannot flip Bob's answer.
    assert!(matches!(
        responses::update_response(
            &state,
            ping.id,
            response.id,
            UpdateResponseRequest {
                user: alice,
                answer: Some(true),
                availability: None,
                preferences: None,
            }
        ),
        Err(AppError::Forbidden(_))
    ));

    // Bob can.
    let updated = responses::update_response(
        &state,
        ping.id,
        response.id,
        UpdateResponseRequest {
            user: bob,
            answer: Some(true),
            availability: Some(Availability {
                earliest: hour(17),
                latest: hour(21),
            }),
            preferences: None,
        },
    )
    .unwrap();
    assert_eq!(updated.id, response.id);
    assert!(updated.answer);
    assert_eq!(
        updated.availability,
        Some(Availability {
            earliest: hour(17),
            latest: hour(21),
        })
    );
}

#[test]
fn separate_hangout_entities_sync_the_owning_ping() {
    let state = AppState::new();
    let alice = new_user(&state, "Alice");
    let group = groups::create_group(
        &state,
        CreateGroupRequest {
            name: "solo".to_string(),
            creator_id: alice,
        },
    )
    .unwrap();
    let ping = pings::create_ping(
        &state,
        CreatePingRequest {
            initiator: alice,
            group: group.id,
            activity_type: "drinks".to_string(),
            rough_timing: "tonight".to_string(),
            vibe: None,
        },
    )
    .unwrap();
    responses::create_response(
        &state,
        ping.id,
        CreateResponseRequest {
            user: alice,
            answer: true,
            availability: Some(Availability {
                earliest: hour(17),
                latest: hour(21),
            }),
            preferences: None,
        },
    )
    .unwrap();
    pings::trigger_match(&state, ping.id, TriggerMatchRequest { user_id: alice }).unwrap();
    pings::confirm_hangout(
        &state,
        ping.id,
        ConfirmHangoutRequest {
            user_id: alice,
            timeline: Timeline {
                start: hour(18),
                end: hour(20),
            },
        },
    )
    .unwrap();

    // Record the hangout as its own entity, then advance it; each change
    // propagates into the owning ping's lifecycle.
    let hangout = Hangout::new(
        ping.id,
        vec![alice],
        Timeline {
            start: hour(18),
            end: hour(20),
        },
    );
    let hangout_id = hangout.id;
    state.hangouts.insert(hangout_id, hangout);

    let activated = hangouts::activate_hangout(&state, hangout_id).unwrap();
    assert_eq!(
        activated.status,
        HangoutStatus::Active
    );
    let ping_now = pings::get_ping(&state, ping.id).unwrap();
    assert_eq!(ping_now.lifecycle.state(), PingState::ActiveHangout);

    let completed = hangouts::complete_hangout(&state, hangout_id).unwrap();
    assert_eq!(
        completed.status,
        HangoutStatus::Complete
    );
    let ping_now = pings::get_ping(&state, ping.id).unwrap();
    assert_eq!(ping_now.lifecycle.state(), PingState::Complete);

    let touched = hangouts::update_attendee_status(
        &state,
        hangout_id,
        alice,
        UpdateAttendeeStatusRequest {
            status: AttendeeStatus::Arrived,
        },
    )
    .unwrap();
    assert!(touched
        .attendee_statuses
        .contains(&(alice, AttendeeStatus::Arrived)));
}

#[test]
fn store_operations_round_trip() {
    let state = AppState::new();
    let alice = new_user(&state, "Alice");
    let found = users::get_user(&state, alice).unwrap();
    assert_eq!(found.id, alice);
    assert_eq!(found.name, "Alice");

    // Groups are listed per member.
    let group = groups::create_group(
        &state,
        CreateGroupRequest {
            name: "club".to_string(),
            creator_id: alice,
        },
    )
    .unwrap();
    let listed = users::list_user_groups(&state, alice).unwrap();
    assert_eq!(listed.len(), 1);
    assert_eq!(listed[0].id, group.id);

    // Leaving empties the membership.
    groups::leave_group(
        &state,
        group.id,
        sens_o_matic::models::group::LeaveGroupRequest { user_id: alice },
    )
    .unwrap();
    let listed = users::list_user_groups(&state, alice).unwrap();
    assert!(listed.is_empty());

    // Removal makes the user unknown.
    users::delete_user(&state, alice).unwrap();
    assert!(matches!(
        users::get_user(&state, alice),
        Err(AppError::NotFound(_))
    ));
}

#[test]
fn invite_codes_regenerate_to_the_accepted_shape() {
    let state = AppState::new();
    let alice = new_user(&state, "Alice");
    let group = groups::create_group(
        &state,
        CreateGroupRequest {
            name: "club".to_string(),
            creator_id: alice,
        },
    )
    .unwrap();
    assert_eq!(group.invite_code.chars().count(), 8);
    assert!(is_valid_invite_code(&group.invite_code));

    let renewed = groups::regenerate_invite_code(
        &state,
        group.id,
        sens_o_matic::models::group::RegenerateInviteRequest { user_id: alice },
    )
    .unwrap();
    assert_eq!(renewed.invite_code.chars().count(), 8);
    assert!(is_valid_invite_code(&renewed.invite_code));

    // Join validation accepts shorter codes than generation produces.
    assert!(is_valid_invite_code("abc123"));
    assert!(!is_valid_invite_code("abc12"));
    assert!(!is_valid_invite_code("abc123456"));
    assert!(!is_valid_invite_code("abc-12"));
}

#[test]
fn decimal_rendering_matches_formatting() {
    assert_eq!(sens_o_matic::text::u64_to_string(0), "0");
    assert_eq!(sens_o_matic::text::u64_to_string(7), "7");
    assert_eq!(sens_o_matic::text::u64_to_string(42), "42");
    assert_eq!(sens_o_matic::text::u64_to_string(1234), "1234");
    assert_eq!(sens_o_matic::text::u64_to_string(u64::MAX), format!("{}", u64::MAX));
}

#[test]
fn store_scans_and_atomic_updates() {
    let state = AppState::new();
    let alice = new_user(&state, "Alice");
    let bob = new_user(&state, "Bob");

    assert!(state.users.contains(alice));
    assert!(!state.users.contains(999));

    // A linear scan with a predicate finds a stored value.
    let found = state.users.find(|u: &sens_o_matic::models::user::User| u.name == "Bob");
    assert_eq!(found.unwrap().id, bob);
    let none = state
        .users
        .find(|u: &sens_o_matic::models::user::User| u.name == "Nobody");
    assert!(none.is_none());

    // Filtering returns every match.
    let all = state
        .users
        .filter(|u: &sens_o_matic::models::user::User| !u.name.is_empty());
    assert_eq!(all.len(), 2);

    // The mutator observes the latest stored value and its result is
    // returned.
    let renamed = state.users.update(alice, |mut u| {
        u.name = "Alicia".to_string();
        u
    });
    assert_eq!(renamed.unwrap().name, "Alicia");
    assert_eq!(state.users.get(alice).unwrap().name, "Alicia");
    assert!(state.users.update(999, |u| u).is_none());

    // Removal empties the slot.
    let removed = state.users.remove(alice);
    assert_eq!(removed.unwrap().id, alice);
    assert!(state.users.get(alice).is_none());
}

#[test]
fn error_wire_shapes_carry_kind_and_message() {
    let e = ApiError::not_found("Ping");
    assert_eq!(e.error, "not_found");
    assert_eq!(e.message, "Ping not found");
    assert_eq!(ApiError::bad_request("nope").error, "bad_request");
    assert_eq!(ApiError::forbidden("nope").error, "forbidden");
    assert_eq!(ApiError::conflict("nope").error, "conflict");
    assert_eq!(ApiError::new("kind", "text").message, "text");

    let err = AppError::Conflict("busy".to_string());
    assert_eq!(err.kind(), "conflict");
    assert_eq!(err.message(), "busy");
}
