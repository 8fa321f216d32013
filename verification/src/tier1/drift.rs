//! Cross-modal drift categories.

use vstd::prelude::*;

verus! {

/// The eight categories of cross-modal drift.
#[derive(Debug, Clone, Copy, PartialEq, Eq, Structural)]
pub enum DriftCategory {
    /// Schema changes not reflected across modalities.
    StructuralShift,
    /// Meaning divergence between representations.
    Semantic,
    /// Version skew between modalities.
    Temporal,
    /// Distribution shift in vector/tensor spaces.
    Statistical,
    /// Broken links between graph and document modalities.
    Referential,
    /// Transformation chain inconsistencies.
    Provenance,
    /// Coordinates inconsistent with other modalities.
    Spatial,
    /// Vector embeddings stale relative to source documents.
    Embedding,
}

} // verus!
