use cogno::AssertionType;
use cogno::is_a_not_assertion;
use cogno::is_passed_assertion;
use cogno::kind_label;

#[test]
fn pass_rule_truth_table() {
    assert!(is_passed_assertion(&AssertionType::Must, true));
    assert!(!is_passed_assertion(&AssertionType::Must, false));
    assert!(!is_passed_assertion(&AssertionType::MustNot, true));
    assert!(is_passed_assertion(&AssertionType::MustNot, false));
    assert!(is_passed_assertion(&AssertionType::Should, true));
    assert!(!is_passed_assertion(&AssertionType::Should, false));
    assert!(!is_passed_assertion(&AssertionType::ShouldNot, true));
    assert!(is_passed_assertion(&AssertionType::ShouldNot, false));
    assert!(is_passed_assertion(&AssertionType::May, true));
    assert!(!is_passed_assertion(&AssertionType::May, false));
}

#[test]
fn negated_kinds() {
    assert!(!is_a_not_assertion(&AssertionType::Must));
    assert!(is_a_not_assertion(&AssertionType::MustNot));
    assert!(!is_a_not_assertion(&AssertionType::Should));
    assert!(is_a_not_assertion(&AssertionType::ShouldNot));
    assert!(!is_a_not_assertion(&AssertionType::May));
}

#[test]
fn may_equals_should_for_pass_fail() {
    for result in [true, false] {
        assert_eq!(
            is_passed_assertion(&AssertionType::May, result),
            is_passed_assertion(&AssertionType::Should, result),
        );
    }
}

#[test]
fn kind_labels() {
    assert_eq!(kind_label(&AssertionType::Must), "Must");
    assert_eq!(kind_label(&AssertionType::MustNot), "MustNot");
    assert_eq!(kind_label(&AssertionType::Should), "Should");
    assert_eq!(kind_label(&AssertionType::ShouldNot), "ShouldNot");
    assert_eq!(kind_label(&AssertionType::May), "May");
}
