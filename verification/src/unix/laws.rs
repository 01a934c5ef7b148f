//! The laws the component type satisfies: emptiness is confined to degenerate
//! named segments, equality is a structural equivalence, the ordering is a
//! total order consistent with it, and rendering round-trips through the
//! segment-classification rule.

use core::cmp::Ordering;
use vstd::prelude::*;

use crate::Component;
use crate::bytes::{lemma_lex_cmp_equal_iff, lemma_lex_cmp_flip, lemma_lex_cmp_transitive, ordering_flip};
use crate::unix::component::{classifies, component_cmp, component_eq, UnixComponent};
use crate::unix::{cur_dir_bytes, is_marker_bytes, parent_dir_bytes, root_dir_bytes};

verus! {

/// A component is empty exactly when it is a named segment over a zero-length
/// slice; the three markers render to non-empty constants, so they are never
/// empty.
pub proof fn lemma_empty_only_for_empty_named(c: UnixComponent<'_>)
    ensures
        c.bytes_spec().len() == 0 <==> (c matches UnixComponent::Normal(s) && s@.len() == 0),
{
}

/// Component equality is reflexive.
pub proof fn lemma_eq_reflexive(a: UnixComponent<'_>)
    ensures
        component_eq(a, a),
{
}

/// Component equality is symmetric.
pub proof fn lemma_eq_symmetric(a: UnixComponent<'_>, b: UnixComponent<'_>)
    ensures
        component_eq(a, b) == component_eq(b, a),
{
}

/// Component equality is transitive.
pub proof fn lemma_eq_transitive(a: UnixComponent<'_>, b: UnixComponent<'_>, c: UnixComponent<'_>)
    requires
        component_eq(a, b),
        component_eq(b, c),
    ensures
        component_eq(a, c),
{
}

/// The ordering is consistent with equality: it answers `Equal` exactly on
/// structurally equal components.
pub proof fn lemma_cmp_equal_iff_eq(a: UnixComponent<'_>, b: UnixComponent<'_>)
    ensures
        component_cmp(a, b) == Ordering::Equal <==> component_eq(a, b),
{
    if let (UnixComponent::Normal(x), UnixComponent::Normal(y)) = (a, b) {
        lemma_lex_cmp_equal_iff(x@, y@);
    }
}

/// Comparing in the opposite direction yields the mirrored answer, so the
/// order is total: of two components, one orders below the other or they are
/// equal.
pub proof fn lemma_cmp_antisymmetric(a: UnixComponent<'_>, b: UnixComponent<'_>)
    ensures
        component_cmp(b, a) == ordering_flip(component_cmp(a, b)),
{
    if let (UnixComponent::Normal(x), UnixComponent::Normal(y)) = (a, b) {
        lemma_lex_cmp_flip(x@, y@);
    }
}

/// The strict order on components is transitive. Together with antisymmetry
/// and consistency with equality this makes sorting a sequence of components
/// deterministic, independent of the borrowed slices' addresses.
pub proof fn lemma_cmp_transitive(
    a: UnixComponent<'_>,
    b: UnixComponent<'_>,
    c: UnixComponent<'_>,
)
    requires
        component_cmp(a, b) == Ordering::Less,
        component_cmp(b, c) == Ordering::Less,
    ensures
        component_cmp(a, c) == Ordering::Less,
{
    if let (UnixComponent::Normal(x), UnixComponent::Normal(y), UnixComponent::Normal(z)) = (
        a,
        b,
        c,
    ) {
        lemma_lex_cmp_transitive(x@, y@, z@);
    }
}

/// Round trip: classifying the canonical bytes of a component yields a
/// component equal to the original. The one exception is a degenerate named
/// segment whose bytes spell a marker (such as a named segment over `..`),
/// which a well-formed parser never produces; the premise rules those out.
pub proof fn lemma_classification_round_trip(c: UnixComponent<'_>, d: UnixComponent<'_>)
    requires
        c matches UnixComponent::Normal(s) ==> !is_marker_bytes(s@),
        classifies(d, c.bytes_spec()),
    ensures
        component_eq(d, c),
{
    assert(root_dir_bytes()[0] != cur_dir_bytes()[0]);
    assert(root_dir_bytes().len() != parent_dir_bytes().len());
    assert(cur_dir_bytes().len() != parent_dir_bytes().len());
}

} // verus!
