//! Error values for classification, reconstruction and narrowing access.
//!
//! Every error here reflects a structural inconsistency between independently
//! produced artifacts (grammar labels, parse tree, token supply); none is ever
//! coerced to a default value.

use vstd::prelude::*;

verus! {

/// A label string was not found in the grammar symbol catalog.
///
/// Carries the offending label so the caller can report which string the
/// catalog and the grammar definition disagree on.
#[derive(Debug, Clone, PartialEq, Eq)]
pub struct ClassificationError {
    pub label: String,
}

/// Why rebuilding a typed tree from a generic parse tree failed.
#[derive(Debug, Clone, Copy, PartialEq, Eq, Structural)]
pub enum ReconstructError {
    /// A branch label of the generic tree is not in the catalog.
    UnknownLabel,
    /// The generic tree has more terminal positions than tokens supplied.
    SupplyExhausted,
}

/// A narrowing accessor was invoked against the wrong tree variant.
///
/// Each variant names both the expected and the actual shape.
#[derive(Debug, Clone, Copy, PartialEq, Eq, Structural)]
pub enum AccessError {
    /// The leaf accessor was called on a branch.
    ExpectedTerminalFoundBranch,
    /// The branch accessor was called on a leaf.
    ExpectedBranchFoundTerminal,
}

} // verus!
