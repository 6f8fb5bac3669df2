//! The declarative severity-override table and its resolver: overrides are
//! scoped by spec id, then test id, then assertion id, and resolution fails
//! when two distinct overrides match the same assertion.

use crate::error::CognoError;
use crate::model::AssertionType;
use crate::text::str_eq;
use vstd::prelude::*;
use vstd::seq_lib::group_seq_properties;
use vstd::seq_lib::lemma_seq_contains_after_push;

verus! {

/// One override: replaces the severity of the assertion with the given id.
#[derive(Debug, PartialEq)]
pub struct AssertionModifier {
    pub assertion_id: String,
    pub assertion_type: AssertionType,
}

/// The mathematical value of an [`AssertionModifier`].
#[verifier::ext_equal]
pub ghost struct AssertionModifierView {
    pub assertion_id: Seq<char>,
    pub assertion_type: AssertionType,
}

impl View for AssertionModifier {
    type V = AssertionModifierView;

    open spec fn view(&self) -> AssertionModifierView {
        AssertionModifierView { assertion_id: self.assertion_id@, assertion_type: self.assertion_type }
    }
}

/// The overrides declared for one test.
#[derive(Debug, PartialEq)]
pub struct TestModifier {
    pub test_id: String,
    pub assertion_modifiers: Vec<AssertionModifier>,
}

/// The mathematical value of a [`TestModifier`].
#[verifier::ext_equal]
pub ghost struct TestModifierView {
    pub test_id: Seq<char>,
    pub assertion_modifiers: Seq<AssertionModifierView>,
}

impl View for TestModifier {
    type V = TestModifierView;

    open spec fn view(&self) -> TestModifierView {
        TestModifierView {
            test_id: self.test_id@,
            assertion_modifiers: self.assertion_modifiers@.map_values(
                |am: AssertionModifier| am@,
            ),
        }
    }
}

/// The overrides declared for one spec.
#[derive(Debug, PartialEq)]
pub struct SpecModifier {
    pub spec_id: String,
    pub test_modifiers: Vec<TestModifier>,
}

/// The mathematical value of a [`SpecModifier`].
#[verifier::ext_equal]
pub ghost struct SpecModifierView {
    pub spec_id: Seq<char>,
    pub test_modifiers: Seq<TestModifierView>,
}

impl View for SpecModifier {
    type V = SpecModifierView;

    open spec fn view(&self) -> SpecModifierView {
        SpecModifierView {
            spec_id: self.spec_id@,
            test_modifiers: self.test_modifiers@.map_values(|tm: TestModifier| tm@),
        }
    }
}

/// The top-level shape of one override file: a list of spec-scoped tables.
#[derive(Debug, PartialEq)]
pub struct SpecModifiers {
    pub spec_modifiers: Vec<SpecModifier>,
}

/// The sequence of views of a vector of loaded spec-scoped tables.
pub open spec fn spec_modifier_views(v: Seq<SpecModifier>) -> Seq<SpecModifierView> {
    v.map_values(|sm: SpecModifier| sm@)
}

/// The sequence of views of a vector of assertion overrides.
pub open spec fn modifier_views(v: Seq<AssertionModifier>) -> Seq<AssertionModifierView> {
    v.map_values(|x: AssertionModifier| x@)
}

/// The overrides in `ams` whose assertion id equals `assertion_id`, in order.
pub open spec fn matching_in_assertions(
    ams: Seq<AssertionModifierView>,
    assertion_id: Seq<char>,
) -> Seq<AssertionModifierView>
    decreases ams.len(),
{
    if ams.len() == 0 {
        Seq::empty()
    } else if ams.last().assertion_id == assertion_id {
        matching_in_assertions(ams.drop_last(), assertion_id).push(ams.last())
    } else {
        matching_in_assertions(ams.drop_last(), assertion_id)
    }
}

/// The overrides in `tms` scoped to `test_id` whose assertion id equals
/// `assertion_id`, in order.
pub open spec fn matching_in_tests(
    tms: Seq<TestModifierView>,
    test_id: Seq<char>,
    assertion_id: Seq<char>,
) -> Seq<AssertionModifierView>
    decreases tms.len(),
{
    if tms.len() == 0 {
        Seq::empty()
    } else {
        matching_in_tests(tms.drop_last(), test_id, assertion_id) + (
        if tms.last().test_id == test_id {
            matching_in_assertions(tms.last().assertion_modifiers, assertion_id)
        } else {
            Seq::empty()
        })
    }
}

/// Every override in the loaded tables that matches the given
/// `(spec, test, assertion)` triple, in declaration order.
pub open spec fn matching_modifiers(
    sms: Seq<SpecModifierView>,
    spec_id: Seq<char>,
    test_id: Seq<char>,
    assertion_id: Seq<char>,
) -> Seq<AssertionModifierView>
    decreases sms.len(),
{
    if sms.len() == 0 {
        Seq::empty()
    } else {
        matching_modifiers(sms.drop_last(), spec_id, test_id, assertion_id) + (
        if sms.last().spec_id == spec_id {
            matching_in_tests(sms.last().test_modifiers, test_id, assertion_id)
        } else {
            Seq::empty()
        })
    }
}

/// Whether the matched overrides disagree: duplicate-but-identical entries
/// are no conflict, two distinct matched entries are.
pub open spec fn has_conflict(ms: Seq<AssertionModifierView>) -> bool {
    exists|i: int, j: int| 0 <= i < ms.len() && 0 <= j < ms.len() && ms[i] != ms[j]
}

/// What severity applies: with no match the original kind, with exactly one
/// distinct match the override's kind, and with disagreeing matches nothing.
pub open spec fn resolved_kind(
    ms: Seq<AssertionModifierView>,
    original: AssertionType,
) -> Option<AssertionType> {
    if has_conflict(ms) {
        None
    } else if ms.len() == 0 {
        Some(original)
    } else {
        Some(ms[0].assertion_type)
    }
}

/// Whether `e` is the conflict error carrying exactly the distinct entries
/// of the matched overrides `ms`.
pub open spec fn conflict_error_for(e: CognoError, ms: Seq<AssertionModifierView>) -> bool {
    match e {
        CognoError::ConflictingModifiers(entries) => modifier_views(entries@).no_duplicates()
            && forall|x: AssertionModifierView|
            #[trigger] modifier_views(entries@).contains(x) <==> ms.contains(x),
        _ => false,
    }
}

/// Whether `v` holds a modifier with the same value as `m`.
fn contains_modifier(v: &Vec<AssertionModifier>, m: &AssertionModifier) -> (r: bool)
    ensures
        r == modifier_views(v@).contains(m@),
{
    let ghost views = modifier_views(v@);
    let mut i: usize = 0;
    while i < v.len()
        invariant
            i <= v.len(),
            views == modifier_views(v@),
            forall|j: int| 0 <= j < i ==> views[j] != m@,
        decreases v.len() - i,
    {
        if v[i].assertion_id == m.assertion_id && v[i].assertion_type == m.assertion_type {
            proof {
                assert(views[i as int] =~= m@);
            }
            return true;
        }
        proof {
            assert(views[i as int] != m@);
        }
        i = i + 1;
    }
    proof {
        broadcast use group_seq_properties;

        assert(forall|j: int| 0 <= j < views.len() ==> views[j] != m@);
    }
    false
}

/// Append to `found`, without duplicating values already there, every
/// override in `ams` whose assertion id equals `assertion_id`.
fn collect_in_assertions(
    ams: &Vec<AssertionModifier>,
    assertion_id: &str,
    found: &mut Vec<AssertionModifier>,
)
    requires
        modifier_views(old(found)@).no_duplicates(),
    ensures
        modifier_views(final(found)@).no_duplicates(),
        forall|x: AssertionModifierView|
            #[trigger] modifier_views(final(found)@).contains(x) <==> (modifier_views(
                old(found)@,
            ).contains(x) || matching_in_assertions(
                modifier_views(ams@),
                assertion_id@,
            ).contains(x)),
{
    broadcast use group_seq_properties;

    let ghost am_views = modifier_views(ams@);
    let ghost found0 = modifier_views(old(found)@);
    let mut k: usize = 0;
    while k < ams.len()
        invariant
            k <= ams.len(),
            am_views == modifier_views(ams@),
            found0 == modifier_views(old(found)@),
            modifier_views(found@).no_duplicates(),
            forall|x: AssertionModifierView|
                #[trigger] modifier_views(found@).contains(x) <==> (found0.contains(x)
                    || matching_in_assertions(am_views.take(k as int), assertion_id@).contains(x)),
        decreases ams.len() - k,
    {
        let ghost pre = modifier_views(found@);
        let ghost mk = am_views[k as int];
        let ghost matched_pre = matching_in_assertions(am_views.take(k as int), assertion_id@);
        proof {
            assert(am_views.take(k + 1).drop_last() =~= am_views.take(k as int));
            assert(am_views.take(k + 1).last() == mk);
        }
        let m = &ams[k];
        if str_eq(m.assertion_id.as_str(), assertion_id) {
            proof {
                assert(mk.assertion_id == assertion_id@);
                assert(matching_in_assertions(am_views.take(k + 1), assertion_id@)
                    == matched_pre.push(mk));
            }
            if !contains_modifier(found, m) {
                let copy = AssertionModifier {
                    assertion_id: m.assertion_id.clone(),
                    assertion_type: m.assertion_type,
                };
                proof {
                    assert(copy@ =~= m@);
                }
                found.push(copy);
                proof {
                    let nv = modifier_views(found@);
                    assert(nv =~= pre.push(mk));
                    assert(!pre.contains(mk));
                    assert forall|i: int, j: int|
                        0 <= i < nv.len() && 0 <= j < nv.len() && i != j implies nv[i]
                        != nv[j] by {
                        if i == nv.len() - 1 && nv[j] == mk {
                            assert(pre[j] == mk);
                            assert(pre.contains(mk));
                        }
                        if j == nv.len() - 1 && nv[i] == mk {
                            assert(pre[i] == mk);
                            assert(pre.contains(mk));
                        }
                    }
                    assert(nv.no_duplicates());
                    assert forall|x: AssertionModifierView|
                        #[trigger] nv.contains(x) <==> (found0.contains(x)
                            || matching_in_assertions(
                            am_views.take(k + 1),
                            assertion_id@,
                        ).contains(x)) by {
                        lemma_seq_contains_after_push(pre, mk, x);
                        lemma_seq_contains_after_push(matched_pre, mk, x);
                    }
                }
            } else {
                proof {
                    assert forall|x: AssertionModifierView|
                        #[trigger] modifier_views(found@).contains(x) <==> (found0.contains(x)
                            || matching_in_assertions(
                            am_views.take(k + 1),
                            assertion_id@,
                        ).contains(x)) by {
                        lemma_seq_contains_after_push(matched_pre, mk, x);
                    }
                }
            }
        } else {
            proof {
                assert(mk.assertion_id != assertion_id@);
                assert(matching_in_assertions(am_views.take(k + 1), assertion_id@)
                    == matched_pre);
            }
        }
        k = k + 1;
    }
    proof {
        assert(am_views.take(ams@.len() as int) =~= am_views);
    }
}

/// Append to `found`, without duplicating values already there, every
/// override in `tms` that matches `test_id` and `assertion_id`.
fn collect_in_tests(
    tms: &Vec<TestModifier>,
    test_id: &str,
    assertion_id: &str,
    found: &mut Vec<AssertionModifier>,
)
    requires
        modifier_views(old(found)@).no_duplicates(),
    ensures
        modifier_views(final(found)@).no_duplicates(),
        forall|x: AssertionModifierView|
            #[trigger] modifier_views(final(found)@).contains(x) <==> (modifier_views(
                old(found)@,
            ).contains(x) || matching_in_tests(
                tms@.map_values(|tm: TestModifier| tm@),
                test_id@,
                assertion_id@,
            ).contains(x)),
{
    broadcast use group_seq_properties;

    let ghost tm_views = tms@.map_values(|tm: TestModifier| tm@);
    let ghost found0 = modifier_views(old(found)@);
    let mut j: usize = 0;
    while j < tms.len()
        invariant
            j <= tms.len(),
            tm_views == tms@.map_values(|tm: TestModifier| tm@),
            found0 == modifier_views(old(found)@),
            modifier_views(found@).no_duplicates(),
            forall|x: AssertionModifierView|
                #[trigger] modifier_views(found@).contains(x) <==> (found0.contains(x)
                    || matching_in_tests(tm_views.take(j as int), test_id@, assertion_id@).contains(
                    x,
                )),
        decreases tms.len() - j,
    {
        let ghost matched_pre = matching_in_tests(tm_views.take(j as int), test_id@, assertion_id@);
        proof {
            assert(tm_views.take(j + 1).drop_last() =~= tm_views.take(j as int));
            assert(tm_views.take(j + 1).last() == tm_views[j as int]);
        }
        let tm = &tms[j];
        if str_eq(tm.test_id.as_str(), test_id) {
            let ghost inner = matching_in_assertions(
                tm_views[j as int].assertion_modifiers,
                assertion_id@,
            );
            proof {
                assert(tm_views[j as int].test_id == test_id@);
                assert(matching_in_tests(tm_views.take(j + 1), test_id@, assertion_id@)
                    == matched_pre + inner);
            }
            collect_in_assertions(&tm.assertion_modifiers, assertion_id, found);
            proof {
                assert forall|x: AssertionModifierView|
                    #[trigger] modifier_views(found@).contains(x) <==> (found0.contains(x)
                        || matching_in_tests(
                        tm_views.take(j + 1),
                        test_id@,
                        assertion_id@,
                    ).contains(x)) by {
                    vstd::seq_lib::lemma_seq_concat_contains_all_elements(matched_pre, inner, x);
                }
            }
        } else {
            proof {
                assert(tm_views[j as int].test_id != test_id@);
                assert(matching_in_tests(tm_views.take(j + 1), test_id@, assertion_id@)
                    =~= matched_pre + Seq::<AssertionModifierView>::empty());
                assert(matched_pre + Seq::<AssertionModifierView>::empty() =~= matched_pre);
            }
        }
        j = j + 1;
    }
    proof {
        assert(tm_views.take(tms@.len() as int) =~= tm_views);
    }
}

/// Collect, without duplicates, every override in the loaded tables that
/// matches the given `(spec, test, assertion)` triple.
fn collect_matching(
    modifiers: &Vec<SpecModifier>,
    spec_id: &str,
    test_id: &str,
    assertion_id: &str,
) -> (found: Vec<AssertionModifier>)
    ensures
        modifier_views(found@).no_duplicates(),
        forall|x: AssertionModifierView|
            #[trigger] modifier_views(found@).contains(x) <==> matching_modifiers(
                spec_modifier_views(modifiers@),
                spec_id@,
                test_id@,
                assertion_id@,
            ).contains(x),
{
    broadcast use group_seq_properties;

    let ghost sm_views = spec_modifier_views(modifiers@);
    let mut found: Vec<AssertionModifier> = Vec::new();
    let mut i: usize = 0;
    while i < modifiers.len()
        invariant
            i <= modifiers.len(),
            sm_views == spec_modifier_views(modifiers@),
            modifier_views(found@).no_duplicates(),
            forall|x: AssertionModifierView|
                #[trigger] modifier_views(found@).contains(x) <==> matching_modifiers(
                    sm_views.take(i as int),
                    spec_id@,
                    test_id@,
                    assertion_id@,
                ).contains(x),
        decreases modifiers.len() - i,
    {
        let ghost matched_pre = matching_modifiers(
            sm_views.take(i as int),
            spec_id@,
            test_id@,
            assertion_id@,
        );
        proof {
            assert(sm_views.take(i + 1).drop_last() =~= sm_views.take(i as int));
            assert(sm_views.take(i + 1).last() == sm_views[i as int]);
        }
        let sm = &modifiers[i];
        if str_eq(sm.spec_id.as_str(), spec_id) {
            let ghost inner = matching_in_tests(
                sm_views[i as int].test_modifiers,
                test_id@,
                assertion_id@,
            );
            proof {
                assert(sm_views[i as int].spec_id == spec_id@);
                assert(matching_modifiers(sm_views.take(i + 1), spec_id@, test_id@, assertion_id@)
                    == matched_pre + inner);
            }
            collect_in_tests(&sm.test_modifiers, test_id, assertion_id, &mut found);
            proof {
                assert forall|x: AssertionModifierView|
                    #[trigger] modifier_views(found@).contains(x) <==> matching_modifiers(
                        sm_views.take(i + 1),
                        spec_id@,
                        test_id@,
                        assertion_id@,
                    ).contains(x) by {
                    vstd::seq_lib::lemma_seq_concat_contains_all_elements(matched_pre, inner, x);
                }
            }
        } else {
            proof {
                assert(sm_views[i as int].spec_id != spec_id@);
                assert(matching_modifiers(sm_views.take(i + 1), spec_id@, test_id@, assertion_id@)
                    =~= matched_pre + Seq::<AssertionModifierView>::empty());
                assert(matched_pre + Seq::<AssertionModifierView>::empty() =~= matched_pre);
            }
        }
        i = i + 1;
    }
    proof {
        assert(sm_views.take(modifiers@.len() as int) =~= sm_views);
    }
    found
}

/// Resolve which severity applies to one assertion evaluation: the original
/// kind when no override matches, the override's kind when exactly one
/// distinct override matches, and a conflict error carrying the distinct
/// matched entries when two or more disagree.
pub fn resolve(
    modifiers: &Vec<SpecModifier>,
    spec_id: &str,
    test_id: &str,
    assertion_id: &str,
    original: AssertionType,
) -> (r: Result<AssertionType, CognoError>)
    ensures
        ({
            let ms = matching_modifiers(
                spec_modifier_views(modifiers@),
                spec_id@,
                test_id@,
                assertion_id@,
            );
            match r {
                Ok(kind) => Some(kind) == resolved_kind(ms, original),
                Err(e) => has_conflict(ms) && conflict_error_for(e, ms),
            }
        }),
{
    broadcast use group_seq_properties;

    let ghost ms = matching_modifiers(
        spec_modifier_views(modifiers@),
        spec_id@,
        test_id@,
        assertion_id@,
    );
    let found = collect_matching(modifiers, spec_id, test_id, assertion_id);
    let ghost fv = modifier_views(found@);
    if found.len() > 1 {
        proof {
            assert(fv[0] != fv[1]);
            assert(fv.contains(fv[0]) && fv.contains(fv[1]));
            assert(ms.contains(fv[0]) && ms.contains(fv[1]));
            let i = choose|i: int| 0 <= i < ms.len() && ms[i] == fv[0];
            let j = choose|j: int| 0 <= j < ms.len() && ms[j] == fv[1];
            assert(ms[i] != ms[j]);
        }
        return Err(CognoError::ConflictingModifiers(found));
    }
    if found.len() == 1 {
        let kind = found[0].assertion_type;
        proof {
            assert(fv.contains(fv[0]));
            assert(ms.contains(fv[0]));
            assert(ms.len() > 0);
            assert(!has_conflict(ms)) by {
                assert forall|i: int, j: int|
                    0 <= i < ms.len() && 0 <= j < ms.len() implies ms[i] == ms[j] by {
                    assert(ms.contains(ms[i]));
                    assert(ms.contains(ms[j]));
                    assert(fv.contains(ms[i]));
                    assert(fv.contains(ms[j]));
                    assert(ms[i] == fv[0] && ms[j] == fv[0]);
                }
            }
            assert(ms.contains(ms[0]));
            assert(fv.contains(ms[0]));
            assert(ms[0] == fv[0]);
            assert(kind == ms[0].assertion_type);
        }
        return Ok(kind);
    }
    proof {
        assert(fv.len() == 0);
        assert(ms.len() == 0) by {
            if ms.len() > 0 {
                assert(ms.contains(ms[0]));
                assert(fv.contains(ms[0]));
            }
        }
    }
    Ok(original)
}

} // verus!
