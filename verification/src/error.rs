//! The engine's error taxonomy: fatal load and serialisation failures carried
//! as messages, and the per-assertion override conflict carrying the distinct
//! entries that disagreed.

use crate::modifier::AssertionModifier;
use vstd::prelude::*;

verus! {

/// Everything that can go wrong inside the engine or at its loading edges.
#[derive(Debug)]
pub enum CognoError {
    /// An override file could not be read.
    SpecModifierLoadError(String),
    /// An override file could not be parsed.
    SpecModifierFormatError(String),
    /// Two or more distinct overrides matched one assertion.
    ConflictingModifiers(Vec<AssertionModifier>),
    /// A report artifact could not be serialised.
    SerialisationError(String),
}

} // verus!
