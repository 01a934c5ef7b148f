//! Byte-oriented filesystem path components.
//!
//! A path is a sequence of lexical segments ("components"). This crate
//! provides the component type for Unix-style path syntax, working over raw
//! byte sequences rather than platform-native string types: a component never
//! allocates, never assumes valid UTF-8, and renders to a canonical byte
//! sequence that downstream path algorithms (joining, normalization,
//! comparison) consume without branching on the variant themselves.

use vstd::prelude::*;

pub mod bytes;
pub mod unix;

verus! {

/// Capability contract satisfied by every concrete path-component type.
///
/// All three operations are total over a well-typed value: they never fail
/// and never panic. `bytes_spec` is the mathematical model they are all
/// measured against, so `len` can never drift from `as_bytes`.
pub trait Component {
    /// The canonical byte representation of this component, as a
    /// mathematical sequence.
    spec fn bytes_spec(&self) -> Seq<u8>;

    /// Returns the canonical byte representation of this component.
    fn as_bytes(&self) -> (r: &[u8])
        ensures
            r@ == self.bytes_spec(),
    ;

    /// Returns the size of this component in bytes; always the length of
    /// `as_bytes`.
    fn len(&self) -> (r: usize)
        ensures
            r == self.bytes_spec().len(),
    ;

    /// Returns true exactly when the canonical byte representation is empty.
    fn is_empty(&self) -> (r: bool)
        ensures
            r == (self.bytes_spec().len() == 0),
    ;
}

} // verus!
