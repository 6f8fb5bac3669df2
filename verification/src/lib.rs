//! A conformance-test execution engine: graded assertions (MUST / MUST NOT /
//! SHOULD / SHOULD NOT / MAY) are recorded against a ledger of test records,
//! severity overrides are resolved from declarative modifier tables with
//! conflict detection, and per-test outcomes are driven through a pluggable
//! reporter.

mod console;
mod controller;
mod error;
mod model;
mod modifier;
mod module_ref;
mod raw;
mod reporter;
mod text;

pub use console::ConsoleReporter;
pub use console::kind_label;
pub use console::kind_label_spec;

pub use controller::TestController;
pub use controller::failure_message;
pub use controller::ledger_after_record;
pub use controller::lemma_record_keeps_ledger_order;

pub use error::CognoError;

pub use model::AssertionDef;
pub use model::AssertionType;
pub use model::AssertionView;
pub use model::TestDef;
pub use model::TestOutcome;
pub use model::TestView;
pub use model::assertion_failed;
pub use model::assertion_negated;
pub use model::assertion_passes;
pub use model::failed_assertions_of;
pub use model::is_a_not_assertion;
pub use model::is_passed_assertion;
pub use model::outcome_is_errored;

pub use modifier::AssertionModifier;
pub use modifier::AssertionModifierView;
pub use modifier::SpecModifier;
pub use modifier::SpecModifierView;
pub use modifier::SpecModifiers;
pub use modifier::TestModifier;
pub use modifier::TestModifierView;
pub use modifier::conflict_error_for;
pub use modifier::has_conflict;
pub use modifier::matching_in_assertions;
pub use modifier::matching_in_tests;
pub use modifier::matching_modifiers;
pub use modifier::modifier_views;
pub use modifier::resolve;
pub use modifier::resolved_kind;
pub use modifier::spec_modifier_views;

pub use module_ref::ModuleRef;
pub use module_ref::ModuleRefView;
pub use module_ref::call_lines;
pub use module_ref::has_dot_after_first;
pub use module_ref::import_prefix;
pub use module_ref::module_components;
pub use module_ref::module_source;
pub use module_ref::stem_of;

pub use raw::RawReporter;
pub use raw::lemma_identical_reports_identical_output;

pub use reporter::Reporter;
pub use reporter::ReporterKind;
pub use reporter::reporter_kind;
pub use reporter::reporter_kind_spec;

pub use text::joined;
pub use text::split_char;
pub use text::str_eq;
pub use text::string_views;
