use protocol_rs::DatasetLoadError;
use protocol_rs::GatewayActor;
use protocol_rs::GatewayMessage;
use protocol_rs::GatewayReply;

fn records(items: &[&str]) -> Vec<String> {
    items.iter().map(|s| s.to_string()).collect()
}

fn actor_with(items: &[&str]) -> GatewayActor {
    GatewayActor::new(records(items), items.len()).expect("dataset should load")
}

#[test]
fn load_with_matching_count_succeeds() {
    let actor = actor_with(&["a", "b", "c"]);
    assert_eq!(actor.subscriber_count(), 0);
    assert_eq!(actor.snapshot(), records(&["a", "b", "c"]));
}

#[test]
fn load_with_wrong_count_fails() {
    let result = GatewayActor::new(records(&["a", "b"]), 3);
    match result {
        Err(DatasetLoadError::WrongCount { expected, actual }) => {
            assert_eq!(expected, 3);
            assert_eq!(actual, 2);
        }
        _ => panic!("construction should fail with WrongCount"),
    }
}

#[test]
fn load_of_empty_dataset_succeeds_when_none_expected() {
    let actor = actor_with(&[]);
    assert_eq!(actor.snapshot(), Vec::<String>::new());
    assert_eq!(actor.subscriber_count(), 0);
}

#[test]
fn read_returns_dataset_as_loaded() {
    let mut actor = actor_with(&["a", "b", "c"]);
    match actor.handle_message(GatewayMessage::Read) {
        GatewayReply::Data(d) => assert_eq!(d, records(&["a", "b", "c"])),
        _ => panic!("Read must be answered with Data"),
    }
}

#[test]
fn read_twice_yields_identical_results() {
    let mut actor = actor_with(&["x", "y"]);
    let first = match actor.handle_message(GatewayMessage::Read) {
        GatewayReply::Data(d) => d,
        _ => panic!("Read must be answered with Data"),
    };
    let second = match actor.handle_message(GatewayMessage::Read) {
        GatewayReply::Data(d) => d,
        _ => panic!("Read must be answered with Data"),
    };
    assert_eq!(first, second);
    assert_eq!(first, records(&["x", "y"]));
}

#[test]
fn many_readers_see_the_same_snapshot() {
    // However many callers ask, and however their reads interleave with
    // other traffic, every reply carries the same snapshot.
    let mut actor = actor_with(&["a", "b", "c"]);
    let mut snapshots = Vec::new();
    for round in 0..10usize {
        match actor.handle_message(GatewayMessage::Read) {
            GatewayReply::Data(d) => snapshots.push(d),
            _ => panic!("Read must be answered with Data"),
        }
        actor.handle_message(GatewayMessage::SubscribeSse);
        if round % 3 == 0 {
            let flags = vec![true; actor.subscriber_count()];
            actor.apply_tick(&flags);
        }
    }
    for snapshot in &snapshots {
        assert_eq!(snapshot, &records(&["a", "b", "c"]));
    }
}

#[test]
fn no_operation_mutates_the_dataset() {
    let mut actor = actor_with(&["a", "b", "c"]);
    actor.handle_message(GatewayMessage::SubscribeSse);
    actor.handle_message(GatewayMessage::GetSseCount);
    actor.apply_tick(&vec![true]);
    actor.handle_message(GatewayMessage::SubscribeSse);
    actor.apply_tick(&vec![false, false]);
    assert_eq!(actor.snapshot(), records(&["a", "b", "c"]));
}

#[test]
fn subscriber_count_equals_number_of_subscribes() {
    let mut actor = actor_with(&["a"]);
    for expected in 1..=5usize {
        match actor.handle_message(GatewayMessage::SubscribeSse) {
            GatewayReply::Subscribed(_) => {}
            _ => panic!("SubscribeSse must be answered with Subscribed"),
        }
        match actor.handle_message(GatewayMessage::GetSseCount) {
            GatewayReply::Count(n) => assert_eq!(n, expected),
            _ => panic!("GetSseCount must be answered with Count"),
        }
    }
}

#[test]
fn subscribe_hands_out_fresh_identifiers_in_order() {
    let mut actor = actor_with(&["a"]);
    for expected_id in 0..4u64 {
        match actor.handle_message(GatewayMessage::SubscribeSse) {
            GatewayReply::Subscribed(id) => assert_eq!(id, expected_id),
            _ => panic!("SubscribeSse must be answered with Subscribed"),
        }
    }
    assert_eq!(actor.current_subscribers(), vec![0, 1, 2, 3]);
}

#[test]
fn tick_retains_successful_deliveries_in_order() {
    let mut actor = actor_with(&["a"]);
    for _ in 0..4 {
        actor.handle_message(GatewayMessage::SubscribeSse);
    }
    actor.apply_tick(&vec![true, false, true, false]);
    assert_eq!(actor.current_subscribers(), vec![0, 2]);
    assert_eq!(actor.subscriber_count(), 2);
}

#[test]
fn dropped_identifiers_are_never_reused() {
    let mut actor = actor_with(&["a"]);
    actor.handle_message(GatewayMessage::SubscribeSse);
    actor.apply_tick(&vec![false]);
    match actor.handle_message(GatewayMessage::SubscribeSse) {
        GatewayReply::Subscribed(id) => assert_eq!(id, 1),
        _ => panic!("SubscribeSse must be answered with Subscribed"),
    }
}

#[test]
fn subscribe_then_close_shrinks_only_at_the_tick() {
    let mut actor = actor_with(&["a"]);
    actor.handle_message(GatewayMessage::SubscribeSse);
    actor.handle_message(GatewayMessage::SubscribeSse);
    // The second subscriber disconnects at once; nothing changes before the
    // tick.
    assert_eq!(actor.subscriber_count(), 2);
    // At the tick its delivery fails while the first subscriber's succeeds.
    actor.apply_tick(&vec![true, false]);
    assert_eq!(actor.subscriber_count(), 1);
    assert_eq!(actor.current_subscribers(), vec![0]);
}

#[test]
fn tick_with_all_deliveries_ok_keeps_everyone() {
    let mut actor = actor_with(&["a"]);
    for _ in 0..3 {
        actor.handle_message(GatewayMessage::SubscribeSse);
    }
    actor.apply_tick(&vec![true, true, true]);
    assert_eq!(actor.current_subscribers(), vec![0, 1, 2]);
}

#[test]
fn has_id_capacity_on_fresh_actor() {
    let actor = actor_with(&["a"]);
    assert!(actor.has_id_capacity());
}

#[test]
fn end_to_end_three_records() {
    let mut actor = actor_with(&["a", "b", "c"]);

    // A point-in-time read sees the dataset as loaded.
    match actor.handle_message(GatewayMessage::Read) {
        GatewayReply::Data(d) => assert_eq!(d, records(&["a", "b", "c"])),
        _ => panic!("Read must be answered with Data"),
    }

    // One subscriber registers; the first tick pushes the dataset to it.
    actor.handle_message(GatewayMessage::SubscribeSse);
    let pushed = actor.snapshot();
    assert_eq!(pushed, records(&["a", "b", "c"]));
    actor.apply_tick(&vec![true]);
    assert_eq!(actor.subscriber_count(), 1);

    // The subscriber disconnects; the next tick's delivery fails and the
    // registry empties.
    actor.apply_tick(&vec![false]);
    match actor.handle_message(GatewayMessage::GetSseCount) {
        GatewayReply::Count(n) => assert_eq!(n, 0),
        _ => panic!("GetSseCount must be answered with Count"),
    }
}
