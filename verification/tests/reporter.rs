use cogno::AssertionDef;
use cogno::AssertionType;
use cogno::ConsoleReporter;
use cogno::RawReporter;
use cogno::Reporter;
use cogno::ReporterKind;
use cogno::TestDef;
use cogno::reporter_kind;

fn record(name: &str, completed: bool) -> TestDef {
    TestDef {
        name: name.to_string(),
        spec_id: "s".to_string(),
        panic_info: None,
        completed,
        assertions: vec![AssertionDef {
            id: "a1".to_string(),
            kind: AssertionType::Must,
            result: completed,
            error_message: if completed { None } else { Some("expected [1] but was [2]".to_string()) },
        }],
    }
}

#[test]
fn batch_reporter_accumulates_in_order() {
    let mut r = RawReporter::new();
    assert!(r.snapshots().is_empty());
    r.report(&record("t1", true));
    r.report(&record("t2", false));
    let seen = r.snapshots();
    assert_eq!(seen.len(), 2);
    assert_eq!(seen[0].name, "t1");
    assert_eq!(seen[1].name, "t2");
    assert_eq!(seen[1].assertions[0].error_message.as_deref(), Some("expected [1] but was [2]"));
}

#[test]
fn identical_report_sequences_accumulate_identically() {
    let mut a = RawReporter::new();
    let mut b = RawReporter::new();
    for name in ["t1", "t2", "t3"] {
        a.report(&record(name, true));
        b.report(&record(name, true));
    }
    assert_eq!(a.snapshots(), b.snapshots());
}

#[test]
fn batch_finalize_is_ok() {
    let r = RawReporter::new();
    assert!(r.finalize().is_ok());
}

#[test]
fn console_reporter_reports_and_finalizes() {
    let mut r = ConsoleReporter::new();
    r.report(&record("passing", true));
    r.report(&record("failing", false));
    let mut errored = record("boom", false);
    errored.panic_info = Some("boom".to_string());
    r.report(&errored);
    assert!(r.finalize().is_ok());
}

#[test]
fn reporter_selection_falls_back_to_console() {
    assert_eq!(reporter_kind("raw"), ReporterKind::Raw);
    assert_eq!(reporter_kind("console"), ReporterKind::Console);
    assert_eq!(reporter_kind(""), ReporterKind::Console);
    assert_eq!(reporter_kind("unknown"), ReporterKind::Console);
}
