//! Unix-specific path syntax: the separator and marker bytes, and the
//! concrete component type built on them.

use vstd::prelude::*;

pub mod component;
pub mod laws;

pub use crate::unix::component::UnixComponent;

verus! {

/// The Unix path separator byte, `/`.
pub const SEPARATOR: u8 = 0x2f;

/// The byte `.`, from which the current-directory and parent-directory
/// markers are built.
pub const DOT: u8 = 0x2e;

/// Canonical bytes of the root marker: the separator itself.
pub open spec fn root_dir_bytes() -> Seq<u8> {
    seq![SEPARATOR]
}

/// Canonical bytes of the current-directory marker: `.`.
pub open spec fn cur_dir_bytes() -> Seq<u8> {
    seq![DOT]
}

/// Canonical bytes of the parent-directory marker: `..`.
pub open spec fn parent_dir_bytes() -> Seq<u8> {
    seq![DOT, DOT]
}

/// True when `bytes` is the canonical rendering of one of the three marker
/// variants, so that a segment classifier would not treat it as a name.
pub open spec fn is_marker_bytes(bytes: Seq<u8>) -> bool {
    ||| bytes == root_dir_bytes()
    ||| bytes == cur_dir_bytes()
    ||| bytes == parent_dir_bytes()
}

} // verus!
