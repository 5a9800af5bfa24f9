use spaceapi_matrix_bot::cache::StatusCache;
use spaceapi_matrix_bot::dispatch::{DeliveryOutcome, Dispatch, DispatchAction};
use spaceapi_matrix_bot::event_loop::{Bridge, LoopAction, LoopEvent};
use spaceapi_matrix_bot::failure::Failure;
use spaceapi_matrix_bot::feed::{handle_decoded, handle_spaceapi_message, FeedEvent, FeedOutcome};
use spaceapi_matrix_bot::status::{State, Status};

fn payload(space: &str, state: Option<&str>) -> Vec<u8> {
    let mut text = String::new();
    text.push_str("{\"api\":\"0.13\",\"space\":\"");
    text.push_str(space);
    text.push_str("\",\"logo\":\"https://example.org/logo.png\",\"url\":\"https://example.org\",");
    text.push_str("\"location\":{\"lat\":51.5,\"lon\":-0.1},\"contact\":{},");
    text.push_str("\"issue_report_channels\":[]");
    if let Some(state) = state {
        text.push_str(",\"state\":");
        text.push_str(state);
    }
    text.push('}');
    text.into_bytes()
}

fn rooms() -> Vec<String> {
    vec!["!one:example.org".to_string(), "!two:example.org".to_string()]
}

fn closed_cache() -> StatusCache {
    StatusCache::new(State { open: Some(false), message: None })
}

fn deliveries(mut dispatch: Dispatch) -> Vec<(String, String)> {
    let mut seen = Vec::new();
    let mut action = dispatch.next();
    loop {
        match action {
            DispatchAction::Deliver { destination, message } => {
                seen.push((destination, message.body))
            }
            DispatchAction::Finished => break,
        }
        action = dispatch.settle(DeliveryOutcome::Delivered);
    }
    seen
}

#[test]
fn changed_state_is_announced_once_to_all_destinations() {
    let mut cache = closed_cache();
    let event = FeedEvent::Rx(payload("HQ", Some("{\"open\":true}")));
    let outcome = handle_spaceapi_message(event, &mut cache, &rooms());
    match outcome {
        FeedOutcome::Notify(dispatch) => assert_eq!(
            deliveries(dispatch),
            vec![
                ("!one:example.org".to_string(), "HQ is **open**".to_string()),
                ("!two:example.org".to_string(), "HQ is **open**".to_string()),
            ]
        ),
        other => panic!("expected a notification, got {:?}", other),
    }
    assert_eq!(cache.last().open, Some(true));

    let repeat = FeedEvent::Rx(payload("HQ", Some("{\"open\":true}")));
    let outcome = handle_spaceapi_message(repeat, &mut cache, &rooms());
    assert!(matches!(outcome, FeedOutcome::Unchanged));
    assert_eq!(cache.last().open, Some(true));
}

#[test]
fn message_of_the_state_is_decoded_and_rendered() {
    let mut cache = closed_cache();
    let event =
        FeedEvent::Rx(payload("HQ", Some("{\"open\":false,\"message\":\"under construction\"}")));
    match handle_spaceapi_message(event, &mut cache, &rooms()) {
        FeedOutcome::Notify(dispatch) => {
            let seen = deliveries(dispatch);
            assert_eq!(seen.len(), 2);
            assert_eq!(seen[0].1, "HQ is **closed** (under construction)");
        }
        other => panic!("expected a notification, got {:?}", other),
    }
    assert_eq!(cache.last().message.as_deref(), Some("under construction"));
}

#[test]
fn fields_that_are_not_part_of_the_state_do_not_count_as_a_change() {
    let mut cache = closed_cache();
    let event = FeedEvent::Rx(payload("HQ", Some("{\"open\":false,\"lastchange\":1700000000}")));
    assert!(matches!(
        handle_spaceapi_message(event, &mut cache, &rooms()),
        FeedOutcome::Unchanged
    ));
}

#[test]
fn malformed_payload_is_dropped() {
    let mut cache = closed_cache();
    let event = FeedEvent::Rx(b"{\"space\": \"HQ\", ".to_vec());
    assert!(matches!(
        handle_spaceapi_message(event, &mut cache, &rooms()),
        FeedOutcome::Malformed(_)
    ));
    assert_eq!(cache.last().open, Some(false));

    let not_a_status = FeedEvent::Rx(b"[1, 2, 3]".to_vec());
    assert!(matches!(
        handle_spaceapi_message(not_a_status, &mut cache, &rooms()),
        FeedOutcome::Malformed(_)
    ));
}

#[test]
fn payload_without_state_is_dropped() {
    let mut cache = closed_cache();
    let event = FeedEvent::Rx(payload("HQ", None));
    assert!(matches!(handle_spaceapi_message(event, &mut cache, &rooms()), FeedOutcome::NoState));
    assert_eq!(cache.last().open, Some(false));
}

#[test]
fn state_without_open_is_rejected_after_the_cache_took_it() {
    let mut cache = closed_cache();
    let event = FeedEvent::Rx(payload("HQ", Some("{\"message\":\"hm\"}")));
    match handle_spaceapi_message(event, &mut cache, &rooms()) {
        FeedOutcome::Rejected(failure) => assert!(matches!(failure, Failure::OpenMissing)),
        other => panic!("expected a rejection, got {:?}", other),
    }
    assert_eq!(cache.last().open, None);
    assert_eq!(cache.last().message.as_deref(), Some("hm"));
}

#[test]
fn other_feed_events_are_ignored() {
    let mut cache = closed_cache();
    assert!(matches!(
        handle_spaceapi_message(FeedEvent::Other, &mut cache, &rooms()),
        FeedOutcome::Ignored
    ));
    assert_eq!(cache.last().open, Some(false));
}

#[test]
fn handle_decoded_takes_each_branch() {
    let mut cache = closed_cache();
    let broken = serde_json::from_slice::<serde_json::Value>(b"nope").unwrap_err();
    assert!(matches!(
        handle_decoded(Err(broken), &mut cache, &rooms()),
        FeedOutcome::Malformed(_)
    ));
    let without = Status { name: "HQ".to_string(), state: None };
    assert!(matches!(handle_decoded(Ok(without), &mut cache, &rooms()), FeedOutcome::NoState));
    let same =
        Status { name: "HQ".to_string(), state: Some(State { open: Some(false), message: None }) };
    assert!(matches!(handle_decoded(Ok(same), &mut cache, &rooms()), FeedOutcome::Unchanged));
    let opened =
        Status { name: "HQ".to_string(), state: Some(State { open: Some(true), message: None }) };
    match handle_decoded(Ok(opened), &mut cache, &Vec::new()) {
        FeedOutcome::Notify(dispatch) => assert!(dispatch.is_finished()),
        other => panic!("expected a notification, got {:?}", other),
    }
    assert_eq!(cache.last().open, Some(true));
}

#[test]
fn bridge_needs_a_state_to_start() {
    let fetched = Ok(Status { name: "HQ".to_string(), state: None });
    assert!(matches!(Bridge::start(fetched, rooms()), Err(Failure::StateMissing)));
    let failed = Err(Failure::HttpError("no route to host".to_string()));
    match Bridge::start(failed, rooms()) {
        Err(Failure::HttpError(detail)) => assert_eq!(detail, "no route to host"),
        other => panic!("expected the fetch error, got {:?}", other),
    }
}

#[test]
fn bridge_is_seeded_by_the_startup_fetch() {
    let fetched = Ok(Status {
        name: "HQ".to_string(),
        state: Some(State { open: Some(true), message: Some("hi".to_string()) }),
    });
    let bridge = Bridge::start(fetched, rooms()).unwrap();
    assert!(bridge.is_running());
    assert_eq!(bridge.cache().last().open, Some(true));
    assert_eq!(bridge.cache().last().message.as_deref(), Some("hi"));
    assert_eq!(bridge.destinations(), &rooms());
}

#[test]
fn bridge_announces_changes_in_arrival_order() {
    let seed = Ok(Status {
        name: "HQ".to_string(),
        state: Some(State { open: Some(false), message: None }),
    });
    let mut bridge = Bridge::start(seed, rooms()).unwrap();
    let mut announced = Vec::new();
    for state in ["{\"open\":true}", "{\"open\":true}", "{\"open\":false}", "{\"open\":true}"] {
        let event = LoopEvent::Feed(FeedEvent::Rx(payload("HQ", Some(state))));
        match bridge.on_event(event) {
            LoopAction::Continue(FeedOutcome::Notify(dispatch)) => {
                announced.push(deliveries(dispatch)[0].1.clone())
            }
            LoopAction::Continue(FeedOutcome::Unchanged) => {}
            other => panic!("unexpected action {:?}", other),
        }
    }
    assert_eq!(announced, vec!["HQ is **open**", "HQ is **closed**", "HQ is **open**"]);
}

#[test]
fn shutdown_stops_the_bridge_without_draining() {
    let seed = Ok(Status {
        name: "HQ".to_string(),
        state: Some(State { open: Some(false), message: None }),
    });
    let mut bridge = Bridge::start(seed, rooms()).unwrap();
    assert!(matches!(bridge.on_event(LoopEvent::Shutdown), LoopAction::Stop));
    assert!(!bridge.is_running());
    let event = LoopEvent::Feed(FeedEvent::Rx(payload("HQ", Some("{\"open\":true}"))));
    assert!(matches!(bridge.on_event(event), LoopAction::Stop));
    assert_eq!(bridge.cache().last().open, Some(false));
    assert!(matches!(bridge.on_event(LoopEvent::Shutdown), LoopAction::Stop));
}
