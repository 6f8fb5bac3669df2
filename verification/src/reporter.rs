//! The reporting abstraction: a pluggable sink that receives one snapshot
//! per terminal test record and can flush once at the end of a run.

use crate::error::CognoError;
use crate::model::TestDef;
use crate::model::TestView;
use vstd::prelude::*;

verus! {

/// Which baseline reporter a run uses.
#[derive(Debug, Clone, Copy, PartialEq, Eq, Structural)]
pub enum ReporterKind {
    Console,
    Raw,
}

/// The reporter selection rule: the token `raw` picks the batch reporter,
/// and any other value falls back to the console reporter.
pub open spec fn reporter_kind_spec(name: Seq<char>) -> ReporterKind {
    if name == "raw"@ {
        ReporterKind::Raw
    } else {
        ReporterKind::Console
    }
}

/// Which reporter the given configuration value selects.
pub fn reporter_kind(name: &str) -> (r: ReporterKind)
    ensures
        r == reporter_kind_spec(name@),
{
    if crate::text::str_eq(name, "raw") {
        ReporterKind::Raw
    } else {
        ReporterKind::Console
    }
}

/// A sink for per-test outcome snapshots.
///
/// A reporter's observable state is the sequence of records it has been
/// handed, in arrival order; `report` appends exactly the given record to
/// it, so identical report sequences leave any two reporters of one kind
/// with identical accumulated state.
pub trait Reporter: Sized {
    /// The records this reporter has been handed so far, in arrival order.
    spec fn reported(&self) -> Seq<TestView>;

    /// Receive one terminal test record.
    fn report(&mut self, test_def: &TestDef)
        ensures
            final(self).reported() == old(self).reported().push(test_def@),
    ;

    /// Flush once at the end of the run; failure is fatal to the run.
    fn finalize(&self) -> (r: Result<(), CognoError>);
}

} // verus!
