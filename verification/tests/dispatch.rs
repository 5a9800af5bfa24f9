use spaceapi_matrix_bot::dispatch::{DeliveryOutcome, Dispatch, DispatchAction};
use spaceapi_matrix_bot::message::Message;

fn rooms(ids: &[&str]) -> Vec<String> {
    ids.iter().map(|id| id.to_string()).collect()
}

fn delivery(action: DispatchAction) -> (String, String) {
    match action {
        DispatchAction::Deliver { destination, message } => (destination, message.body),
        DispatchAction::Finished => panic!("expected a delivery"),
    }
}

#[test]
fn failure_in_the_middle_does_not_stop_the_fan_out() {
    let message = Message::text_markdown("HQ is **open**".to_string());
    let mut dispatch = Dispatch::begin(message, rooms(&["!a:x", "!b:x", "!c:x"]));
    let mut received = Vec::new();

    let (destination, body) = delivery(dispatch.next());
    received.push((destination, body));
    let (destination, _) = delivery(dispatch.settle(DeliveryOutcome::Delivered));
    assert_eq!(destination, "!b:x");
    let (destination, body) = delivery(dispatch.settle(DeliveryOutcome::SendFailed));
    received.push((destination, body));
    assert!(matches!(dispatch.settle(DeliveryOutcome::Delivered), DispatchAction::Finished));

    assert_eq!(
        received,
        vec![
            ("!a:x".to_string(), "HQ is **open**".to_string()),
            ("!c:x".to_string(), "HQ is **open**".to_string()),
        ]
    );
    assert_eq!(
        dispatch.outcomes(),
        &vec![DeliveryOutcome::Delivered, DeliveryOutcome::SendFailed, DeliveryOutcome::Delivered]
    );
    assert!(dispatch.is_finished());
}

#[test]
fn every_destination_is_attempted_even_if_all_fail() {
    let message = Message::text_plain("hello".to_string());
    let mut dispatch = Dispatch::begin(message, rooms(&["!a:x", "!b:x"]));
    assert_eq!(delivery(dispatch.next()).0, "!a:x");
    assert_eq!(delivery(dispatch.settle(DeliveryOutcome::NotJoined)).0, "!b:x");
    assert!(matches!(dispatch.settle(DeliveryOutcome::SendFailed), DispatchAction::Finished));
    assert_eq!(
        dispatch.outcomes(),
        &vec![DeliveryOutcome::NotJoined, DeliveryOutcome::SendFailed]
    );
}

#[test]
fn no_destinations_is_finished_at_once() {
    let dispatch = Dispatch::begin(Message::text_plain("hello".to_string()), Vec::new());
    assert!(dispatch.is_finished());
    assert!(matches!(dispatch.next(), DispatchAction::Finished));
}

#[test]
fn outcomes_after_the_end_are_not_recorded() {
    let mut dispatch = Dispatch::begin(Message::text_plain("hello".to_string()), rooms(&["!a:x"]));
    assert!(!dispatch.is_finished());
    assert!(matches!(dispatch.settle(DeliveryOutcome::Delivered), DispatchAction::Finished));
    assert!(matches!(dispatch.settle(DeliveryOutcome::SendFailed), DispatchAction::Finished));
    assert_eq!(dispatch.outcomes(), &vec![DeliveryOutcome::Delivered]);
}

#[test]
fn next_does_not_advance() {
    let dispatch = Dispatch::begin(Message::text_plain("hello".to_string()), rooms(&["!a:x"]));
    assert_eq!(delivery(dispatch.next()).0, "!a:x");
    assert_eq!(delivery(dispatch.next()).0, "!a:x");
    assert!(dispatch.outcomes().is_empty());
}

#[test]
fn formatted_message_reaches_every_destination_unchanged() {
    let message = Message::text_markdown("HQ is **closed**".to_string());
    let mut dispatch = Dispatch::begin(message, rooms(&["!a:x", "!b:x"]));
    let mut action = dispatch.next();
    let mut seen = 0;
    loop {
        match action {
            DispatchAction::Deliver { message, .. } => {
                assert_eq!(message.body, "HQ is **closed**");
                assert_eq!(message.html.as_deref(), Some("<p>HQ is <strong>closed</strong></p>\n"));
                seen += 1;
            }
            DispatchAction::Finished => break,
        }
        action = dispatch.settle(DeliveryOutcome::Delivered);
    }
    assert_eq!(seen, 2);
}
