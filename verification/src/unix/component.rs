//! The Unix path component: a classified view of one lexical path segment.

use core::cmp::Ordering;
use vstd::prelude::*;

use crate::Component;
use crate::bytes::{bytes_cmp, bytes_equal, lex_cmp, ordering_flip};
use crate::unix::{DOT, SEPARATOR, cur_dir_bytes, is_marker_bytes, parent_dir_bytes, root_dir_bytes};

verus! {

/// One segment of a Unix path, classified into one of four variants.
///
/// A named segment borrows its bytes from the source path buffer, so a
/// component is cheap to copy and never allocates. Equality, ordering and
/// hashing are structural: the variant decides first, and two named segments
/// compare by byte content alone, never by the address of the borrowed slice.
#[derive(Copy, Clone, Debug, Hash, Eq, Ord)]
pub enum UnixComponent<'a> {
    /// The root marker: the path is absolute at this position.
    RootDir,
    /// An explicit `.` segment (a no-op).
    CurDir,
    /// An explicit `..` segment (ascend one level).
    ParentDir,
    /// An ordinary file or directory name, borrowed verbatim from the source
    /// buffer, including any embedded null or non-UTF-8 bytes.
    Normal(&'a [u8]),
}

impl Component for UnixComponent<'_> {
    /// Canonical bytes: the fixed marker constants, or the named segment's
    /// own bytes, unmodified.
    open spec fn bytes_spec(&self) -> Seq<u8> {
        match *self {
            UnixComponent::RootDir => root_dir_bytes(),
            UnixComponent::CurDir => cur_dir_bytes(),
            UnixComponent::ParentDir => parent_dir_bytes(),
            UnixComponent::Normal(s) => s@,
        }
    }

    fn as_bytes(&self) -> (r: &[u8]) {
        match *self {
            UnixComponent::RootDir => {
                let r: &'static [u8; 1] = &[SEPARATOR];
                proof {
                    assert(r@ =~= root_dir_bytes());
                }
                r.as_slice()
            },
            UnixComponent::CurDir => {
                let r: &'static [u8; 1] = &[DOT];
                proof {
                    assert(r@ =~= cur_dir_bytes());
                }
                r.as_slice()
            },
            UnixComponent::ParentDir => {
                let r: &'static [u8; 2] = &[DOT, DOT];
                proof {
                    assert(r@ =~= parent_dir_bytes());
                }
                r.as_slice()
            },
            UnixComponent::Normal(s) => s,
        }
    }

    fn len(&self) -> (r: usize) {
        self.as_bytes().len()
    }

    fn is_empty(&self) -> (r: bool) {
        self.len() == 0
    }
}

/// Structural equality of two components: the variants must coincide, and two
/// named segments must agree byte for byte. The address of a borrowed slice
/// plays no role.
pub open spec fn component_eq(a: UnixComponent<'_>, b: UnixComponent<'_>) -> bool {
    match (a, b) {
        (UnixComponent::RootDir, UnixComponent::RootDir) => true,
        (UnixComponent::CurDir, UnixComponent::CurDir) => true,
        (UnixComponent::ParentDir, UnixComponent::ParentDir) => true,
        (UnixComponent::Normal(x), UnixComponent::Normal(y)) => x@ == y@,
        _ => false,
    }
}

/// The position of a component's variant in the total order: root, then
/// current-directory, then parent-directory, then named segments.
pub open spec fn rank(c: UnixComponent<'_>) -> int {
    match c {
        UnixComponent::RootDir => 0,
        UnixComponent::CurDir => 1,
        UnixComponent::ParentDir => 2,
        UnixComponent::Normal(_) => 3,
    }
}

/// Structural total order on components: the variant decides first, and two
/// named segments compare lexicographically by byte content.
pub open spec fn component_cmp(a: UnixComponent<'_>, b: UnixComponent<'_>) -> Ordering {
    match (a, b) {
        (UnixComponent::Normal(x), UnixComponent::Normal(y)) => lex_cmp(x@, y@),
        _ => if rank(a) < rank(b) {
            Ordering::Less
        } else if rank(a) > rank(b) {
            Ordering::Greater
        } else {
            Ordering::Equal
        },
    }
}

impl PartialEq for UnixComponent<'_> {
    fn eq(&self, other: &Self) -> (r: bool) {
        match (*self, *other) {
            (UnixComponent::RootDir, UnixComponent::RootDir) => true,
            (UnixComponent::CurDir, UnixComponent::CurDir) => true,
            (UnixComponent::ParentDir, UnixComponent::ParentDir) => true,
            (UnixComponent::Normal(x), UnixComponent::Normal(y)) => bytes_equal(x, y),
            _ => false,
        }
    }
}

impl vstd::std_specs::cmp::PartialEqSpecImpl for UnixComponent<'_> {
    open spec fn obeys_eq_spec() -> bool {
        true
    }

    open spec fn eq_spec(&self, other: &Self) -> bool {
        component_eq(*self, *other)
    }
}

impl PartialOrd for UnixComponent<'_> {
    fn partial_cmp(&self, other: &Self) -> (r: Option<Ordering>) {
        match (*self, *other) {
            (UnixComponent::Normal(x), UnixComponent::Normal(y)) => Some(bytes_cmp(x, y)),
            _ => {
                let ra = variant_rank(self);
                let rb = variant_rank(other);
                if ra < rb {
                    Some(Ordering::Less)
                } else if ra > rb {
                    Some(Ordering::Greater)
                } else {
                    Some(Ordering::Equal)
                }
            },
        }
    }
}

impl vstd::std_specs::cmp::PartialOrdSpecImpl for UnixComponent<'_> {
    open spec fn obeys_partial_cmp_spec() -> bool {
        true
    }

    open spec fn partial_cmp_spec(&self, other: &Self) -> Option<Ordering> {
        Some(component_cmp(*self, *other))
    }
}

/// The classification rule for one delimited Unix path segment: the separator
/// alone is the root marker, `.` is the current-directory marker, `..` is the
/// parent-directory marker, and any other byte sequence — empty, non-UTF-8 or
/// otherwise — is a named segment wrapping exactly those bytes.
pub open spec fn classifies(c: UnixComponent<'_>, bytes: Seq<u8>) -> bool {
    match c {
        UnixComponent::RootDir => bytes == root_dir_bytes(),
        UnixComponent::CurDir => bytes == cur_dir_bytes(),
        UnixComponent::ParentDir => bytes == parent_dir_bytes(),
        UnixComponent::Normal(s) => s@ == bytes && !is_marker_bytes(bytes),
    }
}

impl<'a> UnixComponent<'a> {
    /// Classifies one delimited path segment per the rule in [`classifies`]:
    /// no trimming, no case folding, no separator stripping.
    pub fn from_bytes(bytes: &'a [u8]) -> (c: UnixComponent<'a>)
        ensures
            classifies(c, bytes@),
    {
        if bytes.len() == 1 {
            if bytes[0] == SEPARATOR {
                proof {
                    assert(bytes@ =~= root_dir_bytes());
                }
                return UnixComponent::RootDir;
            }
            if bytes[0] == DOT {
                proof {
                    assert(bytes@ =~= cur_dir_bytes());
                }
                return UnixComponent::CurDir;
            }
        } else if bytes.len() == 2 {
            if bytes[0] == DOT && bytes[1] == DOT {
                proof {
                    assert(bytes@ =~= parent_dir_bytes());
                }
                return UnixComponent::ParentDir;
            }
        }
        UnixComponent::Normal(bytes)
    }
}

/// The variant's position in the total order, as an executable value.
fn variant_rank(c: &UnixComponent<'_>) -> (r: u8)
    ensures
        r as int == rank(*c),
{
    match *c {
        UnixComponent::RootDir => 0,
        UnixComponent::CurDir => 1,
        UnixComponent::ParentDir => 2,
        UnixComponent::Normal(_) => 3,
    }
}

} // verus!
