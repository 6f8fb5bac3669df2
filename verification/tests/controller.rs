use cogno::AssertionModifier;
use cogno::AssertionType;
use cogno::CognoError;
use cogno::RawReporter;
use cogno::SpecModifier;
use cogno::TestController;
use cogno::TestModifier;
use cogno::TestOutcome;

fn controller(modifiers: Vec<SpecModifier>) -> TestController<RawReporter> {
    TestController::new(vec!["1234".to_string()], modifiers, RawReporter::new())
}

fn override_table(
    spec_id: &str,
    test_id: &str,
    assertion_id: &str,
    kind: AssertionType,
) -> SpecModifier {
    SpecModifier {
        spec_id: spec_id.to_string(),
        test_modifiers: vec![TestModifier {
            test_id: test_id.to_string(),
            assertion_modifiers: vec![AssertionModifier {
                assertion_id: assertion_id.to_string(),
                assertion_type: kind,
            }],
        }],
    }
}

#[test]
fn spec_gate_is_set_membership() {
    let c = controller(Vec::new());
    assert!(c.is_spec_enabled("1234"));
    assert!(!c.is_spec_enabled("9999"));
    assert!(!c.is_spec_enabled(""));
}

#[test]
fn register_appends_a_fresh_record() {
    let mut c = controller(Vec::new());
    c.register("t1", "1234");
    let records = c.records();
    assert_eq!(records.len(), 1);
    assert_eq!(records[0].name, "t1");
    assert_eq!(records[0].spec_id, "1234");
    assert_eq!(records[0].panic_info, None);
    assert!(!records[0].completed);
    assert!(records[0].assertions.is_empty());
}

#[test]
fn ledger_keeps_registration_order() {
    let mut c = controller(Vec::new());
    for name in ["t1", "t2", "t3"] {
        c.register(name, "1234");
        c.complete();
    }
    let records = c.records();
    assert_eq!(records.len(), 3);
    assert_eq!(records[0].name, "t1");
    assert_eq!(records[1].name, "t2");
    assert_eq!(records[2].name, "t3");
    assert!(records.iter().all(|r| r.completed));

    let reported = c.reporter().snapshots();
    assert_eq!(reported.len(), 3);
    assert_eq!(reported[0].name, "t1");
    assert_eq!(reported[1].name, "t2");
    assert_eq!(reported[2].name, "t3");
}

#[test]
fn passing_assertion_gives_passed_outcome() {
    let mut c = controller(Vec::new());
    c.register("t", "1234");
    c.should_eq("a1", 'a', 'a').unwrap();
    c.complete();
    let record = &c.records()[0];
    assert_eq!(record.assertions.len(), 1);
    let a = &record.assertions[0];
    assert_eq!(a.id, "a1");
    assert_eq!(a.kind, AssertionType::Should);
    assert!(a.result);
    assert_eq!(a.error_message, None);
    assert!(record.completed);
    assert!(matches!(record.get_test_outcome(), TestOutcome::Passed));
}

#[test]
fn failing_must_records_exact_message() {
    let mut c = controller(Vec::new());
    c.register("t", "1234");
    c.must_eq("a1", 'a', 'b').unwrap();
    c.complete();
    let record = &c.records()[0];
    let a = &record.assertions[0];
    assert_eq!(a.id, "a1");
    assert_eq!(a.kind, AssertionType::Must);
    assert!(!a.result);
    assert_eq!(a.error_message.as_deref(), Some("expected ['a'] but was ['b']"));
    match record.get_test_outcome() {
        TestOutcome::AssertionsFailed(fails) => {
            assert_eq!(fails.len(), 1);
            assert_eq!(fails[0].id, "a1");
        }
        other => panic!("expected failing assertions, got {:?}", other),
    }
}

#[test]
fn failing_negated_kind_records_got_message() {
    let mut c = controller(Vec::new());
    c.register("t", "1234");
    c.must_not_eq("a1", 'a', 'a').unwrap();
    c.complete();
    let a = &c.records()[0].assertions[0];
    assert_eq!(a.kind, AssertionType::MustNot);
    assert!(a.result);
    assert_eq!(a.error_message.as_deref(), Some("got ['a']"));
}

#[test]
fn panic_info_gives_errored_outcome() {
    let mut c = controller(Vec::new());
    c.register("t", "1234");
    c.set_panic_info("boom".to_string());
    let record = &c.records()[0];
    assert_eq!(record.panic_info.as_deref(), Some("boom"));
    assert!(!record.completed);
    match record.get_test_outcome() {
        TestOutcome::Errored(msg) => assert_eq!(msg, "boom"),
        other => panic!("expected errored, got {:?}", other),
    }
    assert_eq!(c.reporter().snapshots().len(), 1);
}

#[test]
fn panic_wins_over_failing_assertions() {
    let mut c = controller(Vec::new());
    c.register("t", "1234");
    c.must_eq("a1", 'a', 'b').unwrap();
    c.set_panic_info("boom".to_string());
    let record = &c.records()[0];
    assert!(!record.assertions.is_empty());
    match record.get_test_outcome() {
        TestOutcome::Errored(msg) => assert_eq!(msg, "boom"),
        other => panic!("expected the panic to win, got {:?}", other),
    }
}

#[test]
fn incomplete_record_is_errored() {
    let mut c = controller(Vec::new());
    c.register("t", "1234");
    let record = &c.records()[0];
    match record.get_test_outcome() {
        TestOutcome::Errored(msg) => assert_eq!(msg, "Did not complete"),
        other => panic!("expected errored, got {:?}", other),
    }
}

#[test]
fn set_panic_info_on_empty_ledger_does_nothing() {
    let mut c = controller(Vec::new());
    c.set_panic_info("boom".to_string());
    assert!(c.records().is_empty());
    assert!(c.reporter().snapshots().is_empty());
}

#[test]
fn override_applies_per_call() {
    let modifiers = vec![override_table("s", "t", "a1", AssertionType::Must)];
    let mut c = TestController::new(vec!["s".to_string()], modifiers, RawReporter::new());
    c.register("t", "s");
    c.should_eq("a1", 'a', 'b').unwrap();
    c.complete();
    let a = &c.records()[0].assertions[0];
    assert_eq!(a.kind, AssertionType::Must);
    assert!(!a.result);
    assert_eq!(a.error_message.as_deref(), Some("expected ['a'] but was ['b']"));
    match c.records()[0].get_test_outcome() {
        TestOutcome::AssertionsFailed(fails) => {
            assert_eq!(fails[0].kind, AssertionType::Must);
        }
        other => panic!("expected failing assertions, got {:?}", other),
    }
}

#[test]
fn override_scoped_elsewhere_leaves_kind_alone() {
    let modifiers = vec![override_table("s", "other", "a1", AssertionType::Must)];
    let mut c = TestController::new(vec!["s".to_string()], modifiers, RawReporter::new());
    c.register("t", "s");
    c.should_eq("a1", 'a', 'b').unwrap();
    let a = &c.records()[0].assertions[0];
    assert_eq!(a.kind, AssertionType::Should);
}

#[test]
fn conflicting_overrides_fail_the_assertion_call() {
    let modifiers = vec![
        override_table("s", "t", "a1", AssertionType::Must),
        override_table("s", "t", "a1", AssertionType::ShouldNot),
    ];
    let mut c = TestController::new(vec!["s".to_string()], modifiers, RawReporter::new());
    c.register("t", "s");
    let r = c.should_eq("a1", 'a', 'a');
    match r {
        Err(CognoError::ConflictingModifiers(entries)) => assert_eq!(entries.len(), 2),
        other => panic!("expected a conflict, got {:?}", other),
    }
    // The conflict leaves the record untouched; the runner then fails the
    // test's worker, which is captured as that test's own error.
    assert!(c.records()[0].assertions.is_empty());
    c.set_panic_info("conflicting modifiers".to_string());
    match c.records()[0].get_test_outcome() {
        TestOutcome::Errored(msg) => assert_eq!(msg, "conflicting modifiers"),
        other => panic!("expected errored, got {:?}", other),
    }
}

#[test]
fn finalize_succeeds_for_batch_reporter() {
    let mut c = controller(Vec::new());
    c.register("t", "1234");
    c.complete();
    assert!(c.finalize().is_ok());
}
