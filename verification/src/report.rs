//! Error reports raised by the engine's own checks.

use vstd::prelude::*;

verus! {

/// What went wrong, with the data needed to pin it down.
#[derive(Clone, Copy, Debug, PartialEq, Eq, Structural)]
pub enum ReportKind {
    /// A resource transition was requested whose target role equals the
    /// role the resource is already in; the explicit per-resource state
    /// map turns such a caller error into a local, testable failure.
    RedundantTransition { resource: u32 },
}

/// An error report. Wraps a [`ReportKind`] and renders it as text.
#[derive(Clone, Copy, Debug, PartialEq, Eq, Structural)]
pub struct MyReport {
    pub kind: ReportKind,
}

impl MyReport {
    /// Builds the report for a transition whose before- and after-role agree.
    pub fn redundant_transition(resource: u32) -> (r: MyReport)
        ensures
            r.kind == (ReportKind::RedundantTransition { resource }),
    {
        MyReport { kind: ReportKind::RedundantTransition { resource } }
    }

    /// A human-readable description of the report.
    pub fn message(&self) -> &'static str {
        match self.kind {
            ReportKind::RedundantTransition { .. } => {
                "redundant resource transition: the resource is already in the requested state"
            },
        }
    }
}

} // verus!
