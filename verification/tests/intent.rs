use easytier_gui::connection_intent::ConnectionIntent;

#[test]
fn stop_and_restart_do_not_revive_old_work() {
    let mut intent = ConnectionIntent::default();
    assert!(!intent.enabled());
    intent.set_enabled(true);
    let first = intent.token();
    assert!(intent.allows(first));
    intent.set_enabled(false);
    assert!(!intent.allows(first));
    intent.set_enabled(true);
    assert!(intent.enabled());
    assert!(!intent.allows(first));
    assert!(intent.allows(intent.token()));
}

#[test]
fn tokens_number_the_decisions() {
    let mut intent = ConnectionIntent::default();
    assert_eq!(intent.token(), 0);
    intent.set_enabled(true);
    assert_eq!(intent.token(), 3);
    intent.set_enabled(true);
    assert_eq!(intent.token(), 5);
    intent.set_enabled(false);
    assert_eq!(intent.token(), 6);
    intent.set_enabled(false);
    assert_eq!(intent.token(), 8);
}

#[test]
fn a_stopped_intent_allows_no_token_not_even_its_own() {
    let mut intent = ConnectionIntent::default();
    assert!(!intent.allows(intent.token()));
    intent.set_enabled(true);
    intent.set_enabled(false);
    assert!(!intent.allows(intent.token()));
    for token in 0..10 {
        assert!(!intent.allows(token));
    }
}

#[test]
fn confirming_a_decision_outdates_work_too() {
    let mut intent = ConnectionIntent::default();
    intent.set_enabled(true);
    let first = intent.token();
    intent.set_enabled(true);
    assert!(intent.enabled());
    assert!(!intent.allows(first));
}
