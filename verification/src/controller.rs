//! The test controller: owner of the enabled-spec set, the override table,
//! the reporter and the append-only ledger of test records. Registration,
//! assertion recording, panic attachment, completion and the final flush all
//! go through it.

use crate::error::CognoError;
use crate::model::AssertionDef;
use crate::model::AssertionType;
use crate::model::AssertionView;
use crate::model::TestDef;
use crate::model::TestView;
use crate::model::assertion_negated;
use crate::model::assertion_passes;
use crate::model::is_a_not_assertion;
use crate::model::is_passed_assertion;
use crate::modifier::SpecModifier;
use crate::modifier::SpecModifierView;
use crate::modifier::conflict_error_for;
use crate::modifier::has_conflict;
use crate::modifier::matching_modifiers;
use crate::modifier::resolve;
use crate::modifier::resolved_kind;
use crate::modifier::spec_modifier_views;
use crate::reporter::Reporter;
use crate::text::str_eq;
use vstd::prelude::*;
use vstd::string::StringExecFns;

verus! {

/// The failure message recorded beside an assertion, phrased by the severity
/// the author wrote: nothing on a pass, `got [<actual>]` for the negated
/// kinds, and `expected [<expected>] but was [<actual>]` otherwise.
pub open spec fn failure_message(
    kind: AssertionType,
    raw_equal: bool,
    expected: Seq<char>,
    actual: Seq<char>,
) -> Option<Seq<char>> {
    if assertion_passes(kind, raw_equal) {
        None
    } else if assertion_negated(kind) {
        Some("got ["@ + actual + "]"@)
    } else {
        Some("expected ["@ + expected + "] but was ["@ + actual + "]"@)
    }
}

/// The ledger after one assertion is appended to its last record.
pub open spec fn ledger_after_record(
    pre: Seq<TestView>,
    id: Seq<char>,
    kind: AssertionType,
    raw_equal: bool,
    error_message: Option<Seq<char>>,
) -> Seq<TestView> {
    let cur = pre.last();
    pre.update(
        pre.len() - 1,
        TestView {
            assertions: cur.assertions.push(
                AssertionView { id, kind, result: raw_equal, error_message },
            ),
            ..cur
        },
    )
}

/// Ledger ordering: recording an assertion neither adds nor removes records
/// nor reorders them. Every record but the last is untouched, and the last
/// keeps its name, spec, completion and panic state, gaining exactly the one
/// assertion at the end; so the ledger always lists records in registration
/// order.
pub proof fn lemma_record_keeps_ledger_order(
    pre: Seq<TestView>,
    id: Seq<char>,
    kind: AssertionType,
    raw_equal: bool,
    error_message: Option<Seq<char>>,
)
    requires
        pre.len() > 0,
    ensures
        ({
            let post = ledger_after_record(pre, id, kind, raw_equal, error_message);
            &&& post.len() == pre.len()
            &&& forall|i: int| 0 <= i < pre.len() - 1 ==> post[i] == pre[i]
            &&& post.last().name == pre.last().name
            &&& post.last().spec_id == pre.last().spec_id
            &&& post.last().completed == pre.last().completed
            &&& post.last().panic_info == pre.last().panic_info
            &&& post.last().assertions == pre.last().assertions.push(
                AssertionView { id, kind, result: raw_equal, error_message },
            )
        }),
{
}

/// Relies on PartialEq::eq of the compared type; the engine makes no claim
/// about what an arbitrary implementation returns.
#[verifier::external_body]
fn values_equal<T: PartialEq>(expected: &T, actual: &T) -> bool {
    expected == actual
}

/// Relies on the format macro with the Debug formatting of the compared
/// type; the engine makes no claim about the text an arbitrary
/// implementation renders.
#[verifier::external_body]
fn debug_repr<T: core::fmt::Debug>(value: &T) -> String {
    format!("{:?}", value)
}

/// The per-run owner of the ledger, the enabled specs, the override table
/// and the reporter. Records are appended in registration order and never
/// removed; every mutation touches at most the last record.
pub struct TestController<R: Reporter> {
    tests: Vec<TestDef>,
    specs: Vec<String>,
    modifiers: Vec<SpecModifier>,
    reporter: R,
}

impl<R: Reporter> TestController<R> {
    /// The ordered ledger of test records.
    pub closed spec fn ledger(&self) -> Seq<TestView> {
        self.tests@.map_values(|t: TestDef| t@)
    }

    /// The identifiers of the enabled specs.
    pub closed spec fn enabled_specs(&self) -> Seq<Seq<char>> {
        self.specs@.map_values(|s: String| s@)
    }

    /// The loaded override tables.
    pub closed spec fn modifier_table(&self) -> Seq<SpecModifierView> {
        spec_modifier_views(self.modifiers@)
    }

    /// The records the reporter has been handed so far.
    pub closed spec fn reported(&self) -> Seq<TestView> {
        self.reporter.reported()
    }

    /// Whether everything except the ledger and the reporter state is the
    /// same in `post` as in `pre`.
    pub open spec fn same_configuration(pre: Self, post: Self) -> bool {
        post.enabled_specs() == pre.enabled_specs() && post.modifier_table()
            == pre.modifier_table()
    }

    /// A controller over the given enabled specs, override tables and
    /// reporter, with an empty ledger.
    pub fn new(specs: Vec<String>, modifiers: Vec<SpecModifier>, reporter: R) -> (r: Self)
        ensures
            r.ledger() == Seq::<TestView>::empty(),
            r.enabled_specs() == specs@.map_values(|s: String| s@),
            r.modifier_table() == spec_modifier_views(modifiers@),
            r.reported() == reporter.reported(),
    {
        let r = TestController { tests: Vec::new(), specs, modifiers, reporter };
        proof {
            assert(r.ledger() =~= Seq::<TestView>::empty());
        }
        r
    }

    /// Whether the given spec id is enabled for this run.
    pub fn is_spec_enabled(&self, spec: &str) -> (r: bool)
        ensures
            r == self.enabled_specs().contains(spec@),
    {
        let mut i: usize = 0;
        while i < self.specs.len()
            invariant
                i <= self.specs.len(),
                forall|j: int| 0 <= j < i ==> self.enabled_specs()[j] != spec@,
            decreases self.specs.len() - i,
        {
            if str_eq(self.specs[i].as_str(), spec) {
                proof {
                    assert(self.enabled_specs()[i as int] == spec@);
                }
                return true;
            }
            i = i + 1;
        }
        proof {
            if self.enabled_specs().contains(spec@) {
                let j = choose|j: int|
                    0 <= j < self.enabled_specs().len() && self.enabled_specs()[j] == spec@;
            }
        }
        false
    }

    /// Append a fresh record for the named test: not completed, no panic, no
    /// assertions. Must be called before any assertion for that test.
    pub fn register(&mut self, name: &str, spec_id: &str)
        ensures
            final(self).ledger() == old(self).ledger().push(
                TestView {
                    name: name@,
                    spec_id: spec_id@,
                    panic_info: None,
                    completed: false,
                    assertions: Seq::empty(),
                },
            ),
            final(self).reported() == old(self).reported(),
            Self::same_configuration(*old(self), *final(self)),
    {
        self.tests.push(
            TestDef {
                name: name.to_string(),
                spec_id: spec_id.to_string(),
                panic_info: None,
                completed: false,
                assertions: Vec::new(),
            },
        );
        proof {
            assert(self.ledger() =~~= old(self).ledger().push(
                TestView {
                    name: name@,
                    spec_id: spec_id@,
                    panic_info: None,
                    completed: false,
                    assertions: Seq::empty(),
                },
            ));
        }
    }

    /// Attach a panic message to the last record, if there is one, and hand
    /// the record to the reporter; with an empty ledger nothing happens.
    pub fn set_panic_info(&mut self, info: String)
        ensures
            old(self).ledger().len() == 0 ==> final(self).ledger() == old(self).ledger()
                && final(self).reported() == old(self).reported(),
            old(self).ledger().len() > 0 ==> ({
                let updated = TestView {
                    panic_info: Some(info@),
                    ..old(self).ledger().last()
                };
                final(self).ledger() == old(self).ledger().update(
                    old(self).ledger().len() - 1,
                    updated,
                ) && final(self).reported() == old(self).reported().push(updated)
            }),
            Self::same_configuration(*old(self), *final(self)),
    {
        if self.tests.is_empty() {
            return ;
        }

        let mut current_test = self.tests.pop().unwrap();
        current_test.panic_info = Some(info);
        self.reporter.report(&current_test);
        self.tests.push(current_test);
        proof {
            let updated = TestView { panic_info: Some(info@), ..old(self).ledger().last() };
            assert(current_test@ =~= updated);
            assert(self.ledger() =~= old(self).ledger().update(
                old(self).ledger().len() - 1,
                updated,
            ));
        }
    }

    /// Mark the last record completed and hand it to the reporter.
    pub fn complete(&mut self)
        requires
            old(self).ledger().len() > 0,
        ensures
            ({
                let updated = TestView { completed: true, ..old(self).ledger().last() };
                final(self).ledger() == old(self).ledger().update(
                    old(self).ledger().len() - 1,
                    updated,
                ) && final(self).reported() == old(self).reported().push(updated)
            }),
            Self::same_configuration(*old(self), *final(self)),
    {
        let mut current_test = self.tests.pop().unwrap();
        current_test.completed = true;
        self.reporter.report(&current_test);
        self.tests.push(current_test);
        proof {
            let updated = TestView { completed: true, ..old(self).ledger().last() };
            assert(current_test@ =~= updated);
            assert(self.ledger() =~= old(self).ledger().update(
                old(self).ledger().len() - 1,
                updated,
            ));
        }
    }

    /// Flush the reporter, once, at the end of the run.
    pub fn finalize(&self) -> (r: Result<(), CognoError>) {
        self.reporter.finalize()
    }

    /// A borrow of the ledger's records, in registration order.
    pub fn records(&self) -> (r: &Vec<TestDef>)
        ensures
            r@.map_values(|t: TestDef| t@) == self.ledger(),
    {
        &self.tests
    }

    /// A borrow of the reporter, for reading what it accumulated.
    pub fn reporter(&self) -> (r: &R)
        ensures
            r.reported() == self.reported(),
    {
        &self.reporter
    }

    /// Record one assertion evaluation on the last record: the failure
    /// message is phrased by the severity the author wrote, the override
    /// resolver picks the severity stored with the record, and a resolver
    /// conflict leaves the controller unchanged.
    pub fn record_assertion(
        &mut self,
        id: &str,
        kind: AssertionType,
        raw_equal: bool,
        expected_repr: &str,
        actual_repr: &str,
    ) -> (r: Result<(), CognoError>)
        requires
            old(self).ledger().len() > 0,
        ensures
            ({
                let cur = old(self).ledger().last();
                let ms = matching_modifiers(
                    old(self).modifier_table(),
                    cur.spec_id,
                    cur.name,
                    id@,
                );
                match r {
                    Ok(_) => resolved_kind(ms, kind) matches Some(k) && final(self).ledger()
                        == ledger_after_record(
                        old(self).ledger(),
                        id@,
                        k,
                        raw_equal,
                        failure_message(kind, raw_equal, expected_repr@, actual_repr@),
                    ),
                    Err(e) => has_conflict(ms) && conflict_error_for(e, ms) && final(self).ledger()
                        == old(self).ledger(),
                }
            }),
            final(self).reported() == old(self).reported(),
            Self::same_configuration(*old(self), *final(self)),
    {
        let error_message: Option<String> = if is_passed_assertion(&kind, raw_equal) {
            None
        } else if is_a_not_assertion(&kind) {
            let mut m = String::new();
            m.append("got [");
            m.append(actual_repr);
            m.append("]");
            proof {
                assert(m@ =~= "got ["@ + actual_repr@ + "]"@);
            }
            Some(m)
        } else {
            let mut m = String::new();
            m.append("expected [");
            m.append(expected_repr);
            m.append("] but was [");
            m.append(actual_repr);
            m.append("]");
            proof {
                assert(m@ =~= "expected ["@ + expected_repr@ + "] but was ["@ + actual_repr@
                    + "]"@);
            }
            Some(m)
        };

        let last: usize = self.tests.len() - 1;
        let resolved = match resolve(
            &self.modifiers,
            self.tests[last].spec_id.as_str(),
            self.tests[last].name.as_str(),
            id,
            kind,
        ) {
            Ok(k) => k,
            Err(e) => {
                return Err(e);
            },
        };

        let def = AssertionDef {
            id: id.to_string(),
            kind: resolved,
            result: raw_equal,
            error_message,
        };
        let mut current_test = self.tests.pop().unwrap();
        current_test.assertions.push(def);
        self.tests.push(current_test);
        proof {
            let cur = old(self).ledger().last();
            let ms = matching_modifiers(old(self).modifier_table(), cur.spec_id, cur.name, id@);
            assert(self.ledger() =~~= ledger_after_record(
                old(self).ledger(),
                id@,
                resolved,
                raw_equal,
                failure_message(kind, raw_equal, expected_repr@, actual_repr@),
            ));
        }
        Ok(())
    }

    /// What the five graded assertion helpers guarantee: on success the
    /// ledger gained exactly one assertion with this id on its last record,
    /// under the severity the resolver picked, with the message phrased from
    /// some rendering of the two compared values; on a resolver conflict
    /// nothing changed. Reporting never happens here.
    pub open spec fn graded_assert_post(
        pre: Self,
        post: Self,
        r: Result<(), CognoError>,
        id: Seq<char>,
        kind: AssertionType,
    ) -> bool {
        let cur = pre.ledger().last();
        let ms = matching_modifiers(pre.modifier_table(), cur.spec_id, cur.name, id);
        &&& match r {
            Ok(_) => resolved_kind(ms, kind) matches Some(k) && exists|
                raw: bool,
                expected: Seq<char>,
                actual: Seq<char>,
            |
                post.ledger() == #[trigger] ledger_after_record(
                    pre.ledger(),
                    id,
                    k,
                    raw,
                    failure_message(kind, raw, expected, actual),
                ),
            Err(e) => has_conflict(ms) && conflict_error_for(e, ms) && post.ledger()
                == pre.ledger(),
        }
        &&& post.reported() == pre.reported()
        &&& Self::same_configuration(pre, post)
    }

    /// Compare the two values, render them, and record one assertion of the
    /// given kind on the last record.
    fn append_assert<T: PartialEq + core::fmt::Debug>(
        &mut self,
        id: &str,
        kind: AssertionType,
        expected: T,
        actual: T,
    ) -> (r: Result<(), CognoError>)
        requires
            old(self).ledger().len() > 0,
        ensures
            Self::graded_assert_post(*old(self), *final(self), r, id@, kind),
    {
        let raw_equal = values_equal(&expected, &actual);
        let expected_repr = debug_repr(&expected);
        let actual_repr = debug_repr(&actual);
        let r = self.record_assertion(
            id,
            kind,
            raw_equal,
            expected_repr.as_str(),
            actual_repr.as_str(),
        );
        proof {
            let cur = old(self).ledger().last();
            let ms = matching_modifiers(old(self).modifier_table(), cur.spec_id, cur.name, id@);
            if r is Ok {
                let k = resolved_kind(ms, kind)->Some_0;
                assert(self.ledger() == ledger_after_record(
                    old(self).ledger(),
                    id@,
                    k,
                    raw_equal,
                    failure_message(kind, raw_equal, expected_repr@, actual_repr@),
                ));
            }
        }
        r
    }

    /// Assert that the two values MUST be equal.
    pub fn must_eq<T: PartialEq + core::fmt::Debug>(
        &mut self,
        id: &str,
        expected: T,
        actual: T,
    ) -> (r: Result<(), CognoError>)
        requires
            old(self).ledger().len() > 0,
        ensures
            Self::graded_assert_post(*old(self), *final(self), r, id@, AssertionType::Must),
    {
        self.append_assert(id, AssertionType::Must, expected, actual)
    }

    /// Assert that the two values MUST NOT be equal.
    pub fn must_not_eq<T: PartialEq + core::fmt::Debug>(
        &mut self,
        id: &str,
        expected: T,
        actual: T,
    ) -> (r: Result<(), CognoError>)
        requires
            old(self).ledger().len() > 0,
        ensures
            Self::graded_assert_post(*old(self), *final(self), r, id@, AssertionType::MustNot),
    {
        self.append_assert(id, AssertionType::MustNot, expected, actual)
    }

    /// Assert that the two values SHOULD be equal.
    pub fn should_eq<T: PartialEq + core::fmt::Debug>(
        &mut self,
        id: &str,
        expected: T,
        actual: T,
    ) -> (r: Result<(), CognoError>)
        requires
            old(self).ledger().len() > 0,
        ensures
            Self::graded_assert_post(*old(self), *final(self), r, id@, AssertionType::Should),
    {
        self.append_assert(id, AssertionType::Should, expected, actual)
    }

    /// Assert that the two values SHOULD NOT be equal.
    pub fn should_not_eq<T: PartialEq + core::fmt::Debug>(
        &mut self,
        id: &str,
        expected: T,
        actual: T,
    ) -> (r: Result<(), CognoError>)
        requires
            old(self).ledger().len() > 0,
        ensures
            Self::graded_assert_post(*old(self), *final(self), r, id@, AssertionType::ShouldNot),
    {
        self.append_assert(id, AssertionType::ShouldNot, expected, actual)
    }

    /// Assert that the two values MAY be equal.
    pub fn may_eq<T: PartialEq + core::fmt::Debug>(
        &mut self,
        id: &str,
        expected: T,
        actual: T,
    ) -> (r: Result<(), CognoError>)
        requires
            old(self).ledger().len() > 0,
        ensures
            Self::graded_assert_post(*old(self), *final(self), r, id@, AssertionType::May),
    {
        self.append_assert(id, AssertionType::May, expected, actual)
    }
}

} // verus!
