//! The severity model and the per-test record: the five graded assertion
//! kinds, their pass rule, the assertion and test records, and the derivation
//! of a test's outcome.

use vstd::prelude::*;

verus! {

/// The five graded assertion strengths, in requirement-specification
/// language: MUST, MUST NOT, SHOULD, SHOULD NOT, MAY.
#[derive(Debug, Clone, Copy, PartialEq, Eq, Hash, Structural)]
pub enum AssertionType {
    Must,
    MustNot,
    Should,
    ShouldNot,
    May,
}

/// The pass rule: `Must`, `Should` and `May` pass exactly when the compared
/// values were equal; `MustNot` and `ShouldNot` pass exactly when they were
/// not.
pub open spec fn assertion_passes(kind: AssertionType, result: bool) -> bool {
    match kind {
        AssertionType::Must => result,
        AssertionType::MustNot => !result,
        AssertionType::Should => result,
        AssertionType::ShouldNot => !result,
        AssertionType::May => result,
    }
}

/// The negated kinds, used only for message phrasing, never for pass/fail.
pub open spec fn assertion_negated(kind: AssertionType) -> bool {
    kind == AssertionType::MustNot || kind == AssertionType::ShouldNot
}

/// Whether an assertion of the given kind passed, given whether the compared
/// values were equal.
pub fn is_passed_assertion(kind: &AssertionType, result: bool) -> (r: bool)
    ensures
        r == assertion_passes(*kind, result),
{
    match kind {
        AssertionType::Must => result,
        AssertionType::MustNot => !result,
        AssertionType::Should => result,
        AssertionType::ShouldNot => !result,
        AssertionType::May => result,
    }
}

/// Whether the kind is one of the negated ones (`MustNot`, `ShouldNot`).
pub fn is_a_not_assertion(kind: &AssertionType) -> (r: bool)
    ensures
        r == assertion_negated(*kind),
{
    match kind {
        AssertionType::MustNot | AssertionType::ShouldNot => true,
        _ => false,
    }
}

/// One recorded assertion: its author-supplied label, the severity it was
/// recorded under (after any override), whether the compared values were
/// equal, and the failure message, if the assertion failed under its
/// original severity.
#[derive(Debug, Clone, PartialEq)]
pub struct AssertionDef {
    pub id: String,
    pub kind: AssertionType,
    pub result: bool,
    pub error_message: Option<String>,
}

/// The mathematical value of an [`AssertionDef`].
#[verifier::ext_equal]
pub ghost struct AssertionView {
    pub id: Seq<char>,
    pub kind: AssertionType,
    pub result: bool,
    pub error_message: Option<Seq<char>>,
}

impl View for AssertionDef {
    type V = AssertionView;

    open spec fn view(&self) -> AssertionView {
        AssertionView {
            id: self.id@,
            kind: self.kind,
            result: self.result,
            error_message: match self.error_message {
                Some(m) => Some(m@),
                None => None,
            },
        }
    }
}

/// Whether a recorded assertion failed the pass rule of the severity it was
/// recorded under.
pub open spec fn assertion_failed(a: AssertionView) -> bool {
    !assertion_passes(a.kind, a.result)
}

impl AssertionDef {
    /// An owned copy with the same value.
    pub fn snapshot(&self) -> (r: AssertionDef)
        ensures
            r@ == self@,
    {
        let r = AssertionDef {
            id: self.id.clone(),
            kind: self.kind,
            result: self.result,
            error_message: match &self.error_message {
                Some(m) => Some(m.clone()),
                None => None,
            },
        };
        proof {
            assert(r@ =~= self@);
        }
        r
    }
}

/// One test's record: its name, the spec it belongs to, the panic message if
/// its body panicked, whether its body returned normally, and the assertions
/// it recorded, in evaluation order.
#[derive(Debug, Clone, PartialEq)]
pub struct TestDef {
    pub name: String,
    pub spec_id: String,
    pub panic_info: Option<String>,
    pub completed: bool,
    pub assertions: Vec<AssertionDef>,
}

/// The mathematical value of a [`TestDef`].
#[verifier::ext_equal]
pub ghost struct TestView {
    pub name: Seq<char>,
    pub spec_id: Seq<char>,
    pub panic_info: Option<Seq<char>>,
    pub completed: bool,
    pub assertions: Seq<AssertionView>,
}

impl View for TestDef {
    type V = TestView;

    open spec fn view(&self) -> TestView {
        TestView {
            name: self.name@,
            spec_id: self.spec_id@,
            panic_info: match self.panic_info {
                Some(m) => Some(m@),
                None => None,
            },
            completed: self.completed,
            assertions: self.assertions@.map_values(|a: AssertionDef| a@),
        }
    }
}

impl TestDef {
    /// An owned copy with the same value, taken when a terminal record is
    /// handed to a reporter.
    pub fn snapshot(&self) -> (r: TestDef)
        ensures
            r@ == self@,
    {
        let mut assertions: Vec<AssertionDef> = Vec::new();
        let mut i: usize = 0;
        while i < self.assertions.len()
            invariant
                i <= self.assertions.len(),
                assertions@.len() == i,
                forall|j: int| 0 <= j < i ==> (#[trigger] assertions@[j])@ == self.assertions@[j]@,
            decreases self.assertions.len() - i,
        {
            assertions.push(self.assertions[i].snapshot());
            i = i + 1;
        }
        proof {
            assert(assertions@.map_values(|a: AssertionDef| a@) =~= self.assertions@.map_values(
                |a: AssertionDef| a@,
            ));
        }
        let r = TestDef {
            name: self.name.clone(),
            spec_id: self.spec_id.clone(),
            panic_info: match &self.panic_info {
                Some(m) => Some(m.clone()),
                None => None,
            },
            completed: self.completed,
            assertions,
        };
        proof {
            assert(r@.assertions =~= self@.assertions);
            assert(r@ =~= self@);
        }
        r
    }
}

/// The subsequence of assertions that failed the pass rule of their recorded
/// severity, in their original order.
pub open spec fn failed_assertions_of(assertions: Seq<AssertionView>) -> Seq<AssertionView>
    decreases assertions.len(),
{
    if assertions.len() == 0 {
        Seq::empty()
    } else if assertion_failed(assertions.last()) {
        failed_assertions_of(assertions.drop_last()).push(assertions.last())
    } else {
        failed_assertions_of(assertions.drop_last())
    }
}

/// A test's derived outcome, in priority order: a panic (or a body that never
/// returned) makes it `Errored`; otherwise any failing assertion makes it
/// `AssertionsFailed`; otherwise it `Passed`.
#[derive(Debug)]
pub enum TestOutcome<'a> {
    Errored(String),
    AssertionsFailed(Vec<&'a AssertionDef>),
    Passed,
}

/// When a record reports `Errored`, and with which message: the panic
/// message when one was attached (whatever the assertions say), otherwise a
/// fixed note for a body that never completed.
pub open spec fn outcome_is_errored(t: TestView, msg: Seq<char>) -> bool {
    match t.panic_info {
        Some(p) => msg == p,
        None => !t.completed && msg == "Did not complete"@,
    }
}

impl TestDef {
    /// Derive the outcome of this record: `Errored` with the panic message if
    /// the body panicked, `Errored` if the body never completed, otherwise
    /// `AssertionsFailed` with exactly the failing assertions in order, and
    /// `Passed` only when every assertion passed.
    pub fn get_test_outcome(&self) -> (r: TestOutcome<'_>)
        ensures
            match r {
                TestOutcome::Errored(msg) => outcome_is_errored(self@, msg@),
                TestOutcome::AssertionsFailed(fails) => self@.panic_info is None
                    && self@.completed
                    && fails@.map_values(|a: &AssertionDef| a@) == failed_assertions_of(
                    self@.assertions,
                ) && fails@.len() > 0,
                TestOutcome::Passed => self@.panic_info is None && self@.completed
                    && failed_assertions_of(self@.assertions).len() == 0,
            },
    {
        if let Some(msg) = self.panic_info.clone() {
            return TestOutcome::Errored(msg);
        }

        if !self.completed {
            return TestOutcome::Errored("Did not complete".to_string());
        }

        let mut failed: Vec<&AssertionDef> = Vec::new();
        let mut i: usize = 0;
        while i < self.assertions.len()
            invariant
                i <= self.assertions.len(),
                failed@.map_values(|a: &AssertionDef| a@) == failed_assertions_of(
                    self@.assertions.take(i as int),
                ),
            decreases self.assertions.len() - i,
        {
            let a = &self.assertions[i];
            proof {
                assert(self@.assertions.take(i + 1).drop_last() =~= self@.assertions.take(
                    i as int,
                ));
                assert(self@.assertions.take(i + 1).last() == self@.assertions[i as int]);
            }
            if !is_passed_assertion(&a.kind, a.result) {
                failed.push(a);
                proof {
                    assert(failed@.map_values(|a: &AssertionDef| a@) =~= failed_assertions_of(
                        self@.assertions.take(i + 1),
                    ));
                }
            }
            i = i + 1;
        }
        proof {
            assert(self@.assertions.take(self.assertions@.len() as int) =~= self@.assertions);
        }

        if failed.len() > 0 {
            return TestOutcome::AssertionsFailed(failed);
        }

        TestOutcome::Passed
    }
}

} // verus!
