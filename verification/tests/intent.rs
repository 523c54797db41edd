//! The intent flow: typestate transitions, proposal defaults, and gathering
//! of yes/no answers.

use sens_o_matic::intent::Intent;
use sens_o_matic::what::{Activity, GroupSize, Mood, What};
use sens_o_matic::when::Availability;
use sens_o_matic::intent::{Voting, Wanting};
use sens_o_matic::who::Participant;

#[test]
fn test_intent_state_transitions() {
    // Create an intent in the wanting state.
    let intent_wanting = Intent::new("Zara's Hangout");

    // Transition to the pinging state.
    let what = What::new()
        .with_activity(Activity::Drinks)
        .with_mood(Mood::Chill)
        .with_group_size(GroupSize::Small);
    let recipients = vec![];
    let intent_pinging = intent_wanting.start_pinging(what.clone(), recipients);
    assert_eq!(intent_pinging.state.what, what);

    // Transition to the scheduling state with specific availability.
    let now = chrono::Utc::now().timestamp_millis();
    let start = now + chrono::Duration::hours(2).num_milliseconds();
    let availability = Availability::new(start, chrono::Duration::hours(3).num_milliseconds());
    let intent_scheduling = intent_pinging.schedule(vec![availability]);
    assert_eq!(intent_scheduling.state.availabilities.len(), 1);
}

#[test]
fn test_scheduling_with_flexible_availability() {
    let intent_wanting = Intent::new("Bob's Gathering");
    let what = What::new()
        .with_activity(Activity::Coffee)
        .with_mood(Mood::Quick)
        .with_group_size(GroupSize::OneOnOne);
    let intent_pinging = intent_wanting.start_pinging(what, vec![]);

    // Scheduling with an empty vec means flexible/anytime.
    let intent_scheduling = intent_pinging.schedule(vec![]);
    assert!(intent_scheduling.state.availabilities.is_empty());
    assert_eq!(
        intent_scheduling.state.itinerary(),
        "Scheduling with flexible availability."
    );
}

#[test]
fn test_scheduling_with_multiple_windows() {
    let intent_wanting = Intent::new("Weekend Plans");
    let what = What::new()
        .with_activity(Activity::Dinner)
        .with_mood(Mood::Energetic)
        .with_group_size(GroupSize::Large);
    let intent_pinging = intent_wanting.start_pinging(what, vec![]);

    let now = chrono::Utc::now().timestamp_millis();
    let avail1 = Availability::new(
        now + chrono::Duration::hours(2).num_milliseconds(),
        chrono::Duration::hours(2).num_milliseconds(),
    );
    let avail2 = Availability::new(
        now + chrono::Duration::days(1).num_milliseconds(),
        chrono::Duration::hours(3).num_milliseconds(),
    );

    let intent_scheduling = intent_pinging.schedule(vec![avail1, avail2]);
    assert_eq!(intent_scheduling.state.availabilities.len(), 2);
    assert_eq!(
        intent_scheduling.state.itinerary(),
        "Scheduling with 2 availability windows."
    );
}

#[test]
fn test_what_with_no_preferences() {
    let intent_wanting = Intent::new("Spontaneous Hangout");
    let what = What::new(); // All None - totally flexible
    let intent_pinging = intent_wanting.start_pinging(what, vec![]);

    assert_eq!(intent_pinging.state.what.activity, None);
    assert_eq!(intent_pinging.state.what.mood, None);
    assert_eq!(intent_pinging.state.what.group_size, None);
    assert_eq!(
        intent_pinging.state.itinerary(),
        "Pinging friends about any activity with a any mood, preferring any size group."
    );
}

#[test]
fn test_what_with_partial_preferences() {
    let intent_wanting = Intent::new("Lunch Plans");
    let what = What::new().with_activity(Activity::Lunch); // Only activity specified
    let intent_pinging = intent_wanting.start_pinging(what, vec![]);

    assert_eq!(intent_pinging.state.what.activity, Some(Activity::Lunch));
    assert_eq!(intent_pinging.state.what.mood, None);
    assert_eq!(intent_pinging.state.what.group_size, None);
}

#[test]
fn test_gathering_recipient_responses() {
    let alice = Participant::new("Alice", "alice@example.com");
    let bob = Participant::new("Bob", "bob@example.com");
    let carol = Participant::new("Carol", "carol@example.com");
    let dave = Participant::new("Dave", "dave@example.com");
    let recipients = vec![alice.clone(), bob.clone(), carol.clone(), dave.clone()];

    // Must go through the typestate pattern.
    let intent_wanting = Intent::new("Test Responses");
    let intent_pinging = intent_wanting.start_pinging(What::new(), recipients);
    let mut intent_gathering = intent_pinging.start_gathering();

    // Alice and Bob are interested.
    intent_gathering.add_interested(alice.clone());
    intent_gathering.add_interested(bob.clone());

    // Carol is unavailable.
    intent_gathering.mark_unavailable(carol.clone());

    // Dave doesn't respond (still in pending).

    assert_eq!(intent_gathering.interested(), vec![alice, bob]);
    assert_eq!(intent_gathering.unavailable(), vec![carol]);
    assert!(intent_gathering.pending().contains(&dave));
}

#[test]
fn test_gathering_timeout_behavior() {
    let alice = Participant::new("Alice", "alice@example.com");
    let bob = Participant::new("Bob", "bob@example.com");
    let carol = Participant::new("Carol", "carol@example.com");
    let recipients = vec![alice.clone(), bob.clone(), carol.clone()];

    let intent_wanting = Intent::new("Test Timeout");
    let intent_pinging = intent_wanting.start_pinging(What::new(), recipients);
    let mut intent_gathering = intent_pinging.start_gathering();

    intent_gathering.add_interested(alice.clone());
    // Bob and Carol don't respond.

    // Apply timeout - pending participants become unavailable.
    intent_gathering.apply_timeout();

    assert_eq!(intent_gathering.interested(), vec![alice]);
    assert_eq!(intent_gathering.unavailable().len(), 2);
    assert!(intent_gathering.unavailable().contains(&bob));
    assert!(intent_gathering.unavailable().contains(&carol));
    assert_eq!(intent_gathering.pending().len(), 0); // No one left pending
}

#[test]
fn test_gathering_no_one_interested() {
    let alice = Participant::new("Alice", "alice@example.com");
    let bob = Participant::new("Bob", "bob@example.com");
    let recipients = vec![alice.clone(), bob.clone()];

    let intent_wanting = Intent::new("Test No Interest");
    let intent_pinging = intent_wanting.start_pinging(What::new(), recipients);
    let mut intent_gathering = intent_pinging.start_gathering();

    intent_gathering.mark_unavailable(alice);
    intent_gathering.mark_unavailable(bob);

    // Should indicate intent failure when no one is interested.
    assert!(!intent_gathering.has_interested_participants());
    assert!(intent_gathering.should_fail_intent());
}

#[test]
fn test_gathering_incremental_responses() {
    // Responses can trickle in over time.
    let alice = Participant::new("Alice", "alice@example.com");
    let bob = Participant::new("Bob", "bob@example.com");
    let carol = Participant::new("Carol", "carol@example.com");
    let recipients = vec![alice.clone(), bob.clone(), carol.clone()];

    let intent_wanting = Intent::new("Test Incremental");
    let intent_pinging = intent_wanting.start_pinging(What::new(), recipients);
    let mut intent_gathering = intent_pinging.start_gathering();

    // Initially all pending.
    assert_eq!(intent_gathering.pending().len(), 3);

    // Alice responds first.
    intent_gathering.add_interested(alice.clone());
    assert_eq!(intent_gathering.pending().len(), 2);
    assert_eq!(intent_gathering.interested().len(), 1);

    // Bob responds later.
    intent_gathering.mark_unavailable(bob.clone());
    assert_eq!(intent_gathering.pending().len(), 1);
    assert_eq!(intent_gathering.unavailable().len(), 1);

    // Carol still pending.
    assert!(intent_gathering.pending().contains(&carol));
}

#[test]
fn test_gathering_all_respond_early() {
    // We can proceed before timeout if everyone responds.
    let alice = Participant::new("Alice", "alice@example.com");
    let bob = Participant::new("Bob", "bob@example.com");
    let recipients = vec![alice.clone(), bob.clone()];

    let intent_wanting = Intent::new("Test Early Response");
    let intent_pinging = intent_wanting.start_pinging(What::new(), recipients);
    let mut intent_gathering = intent_pinging.start_gathering();

    intent_gathering.add_interested(alice);
    intent_gathering.mark_unavailable(bob);

    // All have responded, none pending.
    assert_eq!(intent_gathering.pending().len(), 0);
    assert!(intent_gathering.all_responded());
}

#[test]
fn itineraries_of_the_remaining_phases() {
    assert_eq!(Wanting.itinerary(), "Currently wanting to start an intent.");
    assert_eq!(Voting { passed: true }.itinerary(), "Voting has passed.");
    assert_eq!(Voting { passed: false }.itinerary(), "Voting has failed.");

    let alice = Participant::new("Alice", "alice@example.com");
    let intent = Intent::new("Counts")
        .start_pinging(What::new(), vec![alice.clone()]);
    let mut gathering = intent.start_gathering();
    assert_eq!(
        gathering.state.itinerary(),
        "Gathering responses: 0 interested, 1 pending, 0 unavailable"
    );
    gathering.add_interested(alice);
    assert_eq!(
        gathering.state.itinerary(),
        "Gathering responses: 1 interested, 0 pending, 0 unavailable"
    );
}

#[test]
fn pinging_itinerary_shows_chosen_preferences() {
    let intent = Intent::new("Chosen")
        .start_pinging(
            What::new()
                .with_activity(Activity::Drinks)
                .with_mood(Mood::Chill)
                .with_group_size(GroupSize::Small),
            vec![],
        );
    assert_eq!(
        intent.state.itinerary(),
        "Pinging friends about Drinks with a Chill mood, preferring Small group."
    );
}
