//! Stable, machine-readable diagnostic kind identifiers.

use vstd::prelude::*;

verus! {

/// The published identifier of one diagnostic kind. External tooling keys on
/// it — suppression lists, documentation links — so each kind keeps one code,
/// no two kinds share one, and a published code never changes.
#[derive(Clone, Copy, Debug)]
pub struct DiagnosticCode {
    pub text: &'static str,
}

impl DiagnosticCode {
    /// The identifier as text.
    pub fn as_str(&self) -> (r: &'static str)
        ensures
            r@ == self.text@,
    {
        self.text
    }
}

} // verus!
