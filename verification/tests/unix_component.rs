use std::cmp::Ordering;
use std::collections::hash_map::DefaultHasher;
use std::hash::{Hash, Hasher};

use typed_path::Component;
use typed_path::unix::UnixComponent;

fn hash_of(c: &UnixComponent<'_>) -> u64 {
    let mut h = DefaultHasher::new();
    c.hash(&mut h);
    h.finish()
}

#[test]
fn root_scenario() {
    let c = UnixComponent::from_bytes(b"/");
    assert!(matches!(c, UnixComponent::RootDir));
    assert_eq!(c.as_bytes(), b"/");
    assert_eq!(c.len(), 1);
    assert!(!c.is_empty());
}

#[test]
fn cur_dir_scenario() {
    let c = UnixComponent::from_bytes(b".");
    assert!(matches!(c, UnixComponent::CurDir));
    assert_eq!(c.as_bytes(), b".");
    assert_eq!(c.len(), 1);
    assert!(!c.is_empty());
}

#[test]
fn parent_dir_scenario() {
    let c = UnixComponent::from_bytes(b"..");
    assert!(matches!(c, UnixComponent::ParentDir));
    assert_eq!(c.as_bytes(), b"..");
    assert_eq!(c.len(), 2);
    assert!(!c.is_empty());
}

#[test]
fn named_scenario() {
    let c = UnixComponent::from_bytes(b"bar.txt");
    assert!(matches!(c, UnixComponent::Normal(b"bar.txt")));
    assert_eq!(c.as_bytes(), b"bar.txt");
    assert_eq!(c.len(), 7);
    assert!(!c.is_empty());
}

#[test]
fn empty_named_scenario() {
    let c = UnixComponent::Normal(b"");
    assert_eq!(c.as_bytes(), b"");
    assert_eq!(c.len(), 0);
    assert!(c.is_empty());
}

#[test]
fn len_matches_as_bytes_for_all_variants() {
    let components = [
        UnixComponent::RootDir,
        UnixComponent::CurDir,
        UnixComponent::ParentDir,
        UnixComponent::Normal(b"some name"),
        UnixComponent::Normal(b""),
        UnixComponent::Normal(b"\x00\xff not utf-8 \xfe"),
    ];
    for c in components {
        assert_eq!(c.len(), c.as_bytes().len());
    }
}

#[test]
fn only_empty_named_is_empty() {
    assert!(!UnixComponent::RootDir.is_empty());
    assert!(!UnixComponent::CurDir.is_empty());
    assert!(!UnixComponent::ParentDir.is_empty());
    assert!(!UnixComponent::Normal(b"a").is_empty());
    assert!(UnixComponent::Normal(b"").is_empty());
}

#[test]
fn equality_is_by_content_not_address() {
    let first_buffer = b"foo.rs".to_vec();
    let second_buffer = b"foo.rs".to_vec();
    let a = UnixComponent::Normal(&first_buffer);
    let b = UnixComponent::Normal(&second_buffer);
    assert_eq!(a, b);
    assert_eq!(hash_of(&a), hash_of(&b));
    assert_eq!(a.partial_cmp(&b), Some(Ordering::Equal));
}

#[test]
fn distinct_variants_are_never_equal() {
    let root = UnixComponent::RootDir;
    let cur = UnixComponent::CurDir;
    let parent = UnixComponent::ParentDir;
    let named_dot = UnixComponent::Normal(b".");
    assert_ne!(root, cur);
    assert_ne!(root, parent);
    assert_ne!(root, named_dot);
    assert_ne!(cur, parent);
    assert_ne!(cur, named_dot);
    assert_ne!(parent, named_dot);
}

#[test]
fn named_equality_is_byte_for_byte() {
    assert_eq!(UnixComponent::Normal(b"abc"), UnixComponent::Normal(b"abc"));
    assert_ne!(UnixComponent::Normal(b"abc"), UnixComponent::Normal(b"abd"));
    assert_ne!(UnixComponent::Normal(b"abc"), UnixComponent::Normal(b"ab"));
    assert_ne!(UnixComponent::Normal(b""), UnixComponent::Normal(b"a"));
}

#[test]
fn equality_is_an_equivalence_on_samples() {
    let samples = [
        UnixComponent::RootDir,
        UnixComponent::CurDir,
        UnixComponent::ParentDir,
        UnixComponent::Normal(b"alpha"),
        UnixComponent::Normal(b"beta"),
        UnixComponent::Normal(b""),
    ];
    for a in samples {
        assert_eq!(a, a);
        for b in samples {
            assert_eq!(a == b, b == a);
            for c in samples {
                if a == b && b == c {
                    assert_eq!(a, c);
                }
            }
        }
    }
}

#[test]
fn ordering_is_total_and_consistent_with_equality() {
    let samples = [
        UnixComponent::RootDir,
        UnixComponent::CurDir,
        UnixComponent::ParentDir,
        UnixComponent::Normal(b""),
        UnixComponent::Normal(b"a"),
        UnixComponent::Normal(b"ab"),
        UnixComponent::Normal(b"b"),
    ];
    for a in samples {
        for b in samples {
            let forward = a.partial_cmp(&b).expect("the order is total");
            let backward = b.partial_cmp(&a).expect("the order is total");
            assert_eq!(forward, backward.reverse());
            assert_eq!(forward == Ordering::Equal, a == b);
            assert_eq!(a.cmp(&b), forward);
        }
    }
}

#[test]
fn variants_order_root_cur_parent_named() {
    let root = UnixComponent::RootDir;
    let cur = UnixComponent::CurDir;
    let parent = UnixComponent::ParentDir;
    let named = UnixComponent::Normal(b"a");
    assert!(root < cur);
    assert!(cur < parent);
    assert!(parent < named);
}

#[test]
fn named_segments_order_lexicographically() {
    assert!(UnixComponent::Normal(b"a") < UnixComponent::Normal(b"b"));
    assert!(UnixComponent::Normal(b"a") < UnixComponent::Normal(b"ab"));
    assert!(UnixComponent::Normal(b"") < UnixComponent::Normal(b"a"));
    assert!(UnixComponent::Normal(b"ab") < UnixComponent::Normal(b"b"));
    assert!(UnixComponent::Normal(b"ba") > UnixComponent::Normal(b"b"));
}

#[test]
fn sorting_is_deterministic_across_buffers() {
    let buffer_one = b"gamma".to_vec();
    let buffer_two = b"alpha".to_vec();
    let mut first = vec![
        UnixComponent::Normal(&buffer_one),
        UnixComponent::ParentDir,
        UnixComponent::Normal(&buffer_two),
        UnixComponent::RootDir,
        UnixComponent::CurDir,
    ];
    first.sort();
    // The same components over freshly allocated buffers sort identically.
    let buffer_three = b"gamma".to_vec();
    let buffer_four = b"alpha".to_vec();
    let mut second = vec![
        UnixComponent::CurDir,
        UnixComponent::RootDir,
        UnixComponent::Normal(&buffer_three),
        UnixComponent::Normal(&buffer_four),
        UnixComponent::ParentDir,
    ];
    second.sort();
    assert_eq!(first, second);
    assert_eq!(
        first,
        vec![
            UnixComponent::RootDir,
            UnixComponent::CurDir,
            UnixComponent::ParentDir,
            UnixComponent::Normal(b"alpha"),
            UnixComponent::Normal(b"gamma"),
        ]
    );
}

#[test]
fn rendering_round_trips_through_classification() {
    let components = [
        UnixComponent::RootDir,
        UnixComponent::CurDir,
        UnixComponent::ParentDir,
        UnixComponent::Normal(b"bar.txt"),
        UnixComponent::Normal(b""),
        UnixComponent::Normal(b"\x00\xffbinary"),
    ];
    for c in components {
        assert_eq!(UnixComponent::from_bytes(c.as_bytes()), c);
    }
}

#[test]
fn classification_keeps_named_bytes_verbatim() {
    let c = UnixComponent::from_bytes(b"  spaced  ");
    assert!(matches!(c, UnixComponent::Normal(b"  spaced  ")));
    let c = UnixComponent::from_bytes(b"...");
    assert!(matches!(c, UnixComponent::Normal(b"...")));
    let c = UnixComponent::from_bytes(b"a/b");
    assert!(matches!(c, UnixComponent::Normal(b"a/b")));
    let c = UnixComponent::from_bytes(b"");
    assert!(matches!(c, UnixComponent::Normal(b"")));
}

#[test]
fn components_copy_shallowly() {
    let buffer = b"shared".to_vec();
    let a = UnixComponent::Normal(&buffer);
    let b = a;
    assert_eq!(a, b);
    assert_eq!(a.as_bytes().as_ptr(), b.as_bytes().as_ptr());
}
