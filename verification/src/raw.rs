//! The batch reporter: accumulates an immutable snapshot of every reported
//! record in arrival order, for one serialised write at the end of the run.

use crate::error::CognoError;
use crate::model::TestDef;
use crate::model::TestView;
use crate::reporter::Reporter;
use vstd::prelude::*;

verus! {

/// Accumulates every reported record, in arrival order.
///
/// Its accumulated sequence is exactly the sequence of `report` calls it
/// received, so the artifact written from it is determined by that sequence
/// alone. The write itself happens outside the engine, from [`Self::snapshots`].
#[derive(Debug)]
pub struct RawReporter {
    test_defs: Vec<TestDef>,
}

impl RawReporter {
    /// An empty batch reporter.
    pub fn new() -> (r: Self)
        ensures
            r.reported() == Seq::<TestView>::empty(),
    {
        let r = RawReporter { test_defs: Vec::new() };
        proof {
            assert(r.reported() =~= Seq::<TestView>::empty());
        }
        r
    }

    /// The accumulated records, in the order they were reported.
    pub fn snapshots(&self) -> (r: &Vec<TestDef>)
        ensures
            r@.map_values(|t: TestDef| t@) == self.reported(),
    {
        &self.test_defs
    }
}

/// Reporting is deterministic: a batch reporter's accumulated snapshots are
/// exactly the records it was handed, in order, so two batch reporters that
/// received the same sequence of `report` calls hold the same snapshots, and
/// the artifact serialised from [`RawReporter::snapshots`] is identical
/// whenever the report sequences were.
pub proof fn lemma_identical_reports_identical_output(a: RawReporter, b: RawReporter)
    requires
        a.reported() == b.reported(),
    ensures
        a.snapshot_views() == b.snapshot_views(),
{
}

impl RawReporter {
    /// The values of the accumulated snapshots, which is what the written
    /// artifact is rendered from.
    pub closed spec fn snapshot_views(&self) -> Seq<TestView> {
        self.test_defs@.map_values(|t: TestDef| t@)
    }
}

impl Reporter for RawReporter {
    closed spec fn reported(&self) -> Seq<TestView> {
        self.test_defs@.map_values(|t: TestDef| t@)
    }

    fn report(&mut self, test_def: &TestDef) {
        self.test_defs.push(test_def.snapshot());
        proof {
            assert(self.reported() =~= old(self).reported().push(test_def@));
        }
    }

    fn finalize(&self) -> (r: Result<(), CognoError>)
        ensures
            r is Ok,
    {
        Ok(())
    }
}

} // verus!
