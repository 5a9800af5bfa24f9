use spaceapi_matrix_bot::cache::StatusCache;
use spaceapi_matrix_bot::status::State;

fn state(open: Option<bool>, message: Option<&str>) -> State {
    State { open, message: message.map(|text| text.to_string()) }
}

#[test]
fn evaluate_same_state_twice_reports_change_then_none() {
    let mut cache = StatusCache::new(state(Some(false), None));
    let incoming = state(Some(true), None);
    assert!(cache.evaluate(&incoming));
    assert!(!cache.evaluate(&incoming));
    assert_eq!(cache.last().open, Some(true));
}

#[test]
fn evaluate_state_already_held_reports_no_change() {
    let mut cache = StatusCache::new(state(Some(true), Some("party")));
    assert!(!cache.evaluate(&state(Some(true), Some("party"))));
    assert_eq!(cache.last().message.as_deref(), Some("party"));
}

#[test]
fn evaluate_distinct_states_both_report_change() {
    let a = state(Some(true), None);
    let b = state(Some(true), Some("come in"));
    let mut cache = StatusCache::new(state(Some(false), None));
    assert!(cache.evaluate(&a));
    assert!(cache.evaluate(&b));
    assert_eq!(cache.last().message.as_deref(), Some("come in"));
}

#[test]
fn evaluate_distinct_states_in_the_other_order() {
    let a = state(Some(true), None);
    let b = state(Some(true), Some("come in"));
    let mut cache = StatusCache::new(state(Some(false), None));
    assert!(cache.evaluate(&b));
    assert!(cache.evaluate(&a));
    assert_eq!(cache.last().message, None);
}

#[test]
fn evaluate_tells_unknown_from_closed() {
    let mut cache = StatusCache::new(state(Some(false), None));
    assert!(cache.evaluate(&state(None, None)));
    assert_eq!(cache.last().open, None);
    assert!(cache.evaluate(&state(Some(false), None)));
}

#[test]
fn evaluate_compares_the_message_too() {
    let mut cache = StatusCache::new(state(Some(true), Some("a")));
    assert!(cache.evaluate(&state(Some(true), Some("b"))));
    assert!(cache.evaluate(&state(Some(true), None)));
    assert!(!cache.evaluate(&state(Some(true), None)));
}

#[test]
fn state_equality_is_structural() {
    assert!(state(Some(true), Some("x")) == state(Some(true), Some("x")));
    assert!(state(Some(true), Some("x")) != state(Some(true), Some("y")));
    assert!(state(Some(true), None) != state(Some(true), Some("")));
    assert!(state(None, None) != state(Some(false), None));
    assert!(state(None, None) == state(None, None));
}

#[test]
fn state_clone_keeps_both_fields() {
    let first = state(Some(false), Some("under construction"));
    let copy = first.clone();
    assert!(copy == first);
    assert_eq!(copy.message.as_deref(), Some("under construction"));
}
