use cogno::AssertionModifier;
use cogno::AssertionType;
use cogno::CognoError;
use cogno::SpecModifier;
use cogno::TestModifier;
use cogno::resolve;

fn table(spec_id: &str, test_id: &str, assertion_id: &str, kind: AssertionType) -> SpecModifier {
    SpecModifier {
        spec_id: spec_id.to_string(),
        test_modifiers: vec![TestModifier {
            test_id: test_id.to_string(),
            assertion_modifiers: vec![AssertionModifier {
                assertion_id: assertion_id.to_string(),
                assertion_type: kind,
            }],
        }],
    }
}

#[test]
fn no_match_keeps_original_kind() {
    let modifiers = vec![table("s", "t", "other", AssertionType::Must)];
    let r = resolve(&modifiers, "s", "t", "a1", AssertionType::Should);
    assert!(matches!(r, Ok(AssertionType::Should)));
}

#[test]
fn empty_table_keeps_original_kind() {
    let modifiers: Vec<SpecModifier> = Vec::new();
    let r = resolve(&modifiers, "s", "t", "a1", AssertionType::May);
    assert!(matches!(r, Ok(AssertionType::May)));
}

#[test]
fn single_match_replaces_kind() {
    let modifiers = vec![table("s", "t", "a1", AssertionType::Must)];
    let r = resolve(&modifiers, "s", "t", "a1", AssertionType::Should);
    assert!(matches!(r, Ok(AssertionType::Must)));
}

#[test]
fn match_is_scoped_by_spec_and_test() {
    let modifiers = vec![
        table("other_spec", "t", "a1", AssertionType::Must),
        table("s", "other_test", "a1", AssertionType::Must),
    ];
    let r = resolve(&modifiers, "s", "t", "a1", AssertionType::Should);
    assert!(matches!(r, Ok(AssertionType::Should)));
}

#[test]
fn duplicate_identical_entries_are_no_conflict() {
    let modifiers = vec![
        table("s", "t", "a1", AssertionType::Must),
        table("s", "t", "a1", AssertionType::Must),
    ];
    let r = resolve(&modifiers, "s", "t", "a1", AssertionType::Should);
    assert!(matches!(r, Ok(AssertionType::Must)));
}

#[test]
fn distinct_matches_conflict() {
    let modifiers = vec![
        table("s", "t", "a1", AssertionType::Must),
        table("s", "t", "a1", AssertionType::MustNot),
    ];
    let r = resolve(&modifiers, "s", "t", "a1", AssertionType::Should);
    match r {
        Err(CognoError::ConflictingModifiers(entries)) => {
            assert_eq!(entries.len(), 2);
            assert!(entries.iter().any(|e| e.assertion_type == AssertionType::Must));
            assert!(entries.iter().any(|e| e.assertion_type == AssertionType::MustNot));
            assert!(entries.iter().all(|e| e.assertion_id == "a1"));
        }
        other => panic!("expected a conflict, got {:?}", other),
    }
}
