use std::cmp::Ordering;
use std::collections::HashSet;

use tagging::{TagId, TagIds};

fn id(bytes: &[u8]) -> TagId {
    TagId::from(bytes)
}

#[test]
fn user_id_starts_with_the_prefix() {
    let id = TagId::from(*b"this id");
    assert_eq!(id.as_bytes(), b"Uthis id");
    assert_eq!(id.as_bytes()[0], b'U');
    assert_eq!(&id.as_bytes()[1..], b"this id");
}

#[test]
fn user_id_of_no_bytes_is_the_prefix_alone() {
    let id = TagId::from(Vec::new());
    assert_eq!(id.as_bytes(), b"U");
}

#[test]
fn user_id_keeps_every_byte_value() {
    let bytes: Vec<u8> = (0..=255).collect();
    let id = TagId::from(bytes.clone());
    assert_eq!(id.as_bytes().len(), 257);
    assert_eq!(id.as_bytes()[0], 0x55);
    assert_eq!(&id.as_bytes()[1..], bytes.as_slice());
}

#[test]
fn user_id_longer_than_the_inline_storage() {
    let bytes = [7u8; 40];
    let id = TagId::from(bytes);
    assert_eq!(id.as_bytes().len(), 41);
    assert_eq!(id.as_bytes()[0], b'U');
    assert!(id.as_bytes()[1..].iter().all(|b| *b == 7));
}

#[test]
fn user_id_of_bytes_that_start_with_the_prefix() {
    let id = TagId::from(*b"U");
    assert_eq!(id.as_bytes(), b"UU");
}

#[test]
fn conversions_agree() {
    let from_array = TagId::from(*b"abc");
    let from_vec = TagId::from(b"abc".to_vec());
    let from_slice = TagId::from(&b"abc"[..]);
    assert_eq!(from_array, from_vec);
    assert_eq!(from_vec, from_slice);
    assert_eq!(from_slice.as_bytes(), b"Uabc");
}

#[test]
fn different_bytes_give_different_ids() {
    assert_ne!(id(b"a"), id(b"b"));
    assert_ne!(id(b""), id(b"\0"));
    assert_ne!(id(b"ab"), id(b"abc"));
    assert_ne!(id(b"abc"), id(b"abd"));
    assert_ne!(id(b"U"), id(b""));
}

#[test]
fn same_bytes_give_equal_ids() {
    assert_eq!(id(b"parent id"), id(b"parent id"));
    assert_eq!(id(b""), id(b""));
    assert!(id(b"x") == id(b"x"));
    assert!(!(id(b"x") != id(b"x")));
}

#[test]
fn clone_has_the_same_bytes() {
    let short = id(b"note");
    let long = id(&[9u8; 100]);
    assert_eq!(short.clone(), short);
    assert_eq!(short.clone().as_bytes(), b"Unote");
    assert_eq!(long.clone(), long);
    assert_eq!(long.clone().as_bytes(), long.as_bytes());
}

#[test]
fn ids_are_ordered_as_their_bytes() {
    assert_eq!(id(b"a").partial_cmp(&id(b"b")), Some(Ordering::Less));
    assert_eq!(id(b"b").partial_cmp(&id(b"a")), Some(Ordering::Greater));
    assert_eq!(id(b"a").partial_cmp(&id(b"a")), Some(Ordering::Equal));
    assert_eq!(id(b"").partial_cmp(&id(b"a")), Some(Ordering::Less));
    assert_eq!(id(b"ab").partial_cmp(&id(b"a")), Some(Ordering::Greater));
    assert_eq!(id(b"a\xff").partial_cmp(&id(b"b")), Some(Ordering::Less));
    assert_eq!(id(b"\x80").partial_cmp(&id(b"\x7f")), Some(Ordering::Greater));
    assert!(id(b"abc") < id(b"abd"));
    assert!(id(b"abc") <= id(b"abc"));
    assert!(id(b"b") > id(b"abc"));
    assert!(id(b"b") >= id(b"b"));
}

#[test]
fn partial_and_total_order_agree() {
    let samples: [&[u8]; 7] = [b"", b"a", b"ab", b"b", b"\xff", b"a\0", b"aa"];
    for x in samples.iter() {
        for y in samples.iter() {
            let (a, b) = (id(x), id(y));
            assert_eq!(a.partial_cmp(&b), Some(a.cmp(&b)));
            assert_eq!(a.cmp(&b), x.cmp(y));
            assert_eq!(a == b, x == y);
        }
    }
}

#[test]
fn sorting_ids_sorts_their_bytes() {
    let mut ids = vec![id(b"b"), id(b""), id(b"ab"), id(b"a")];
    ids.sort();
    let bytes: Vec<&[u8]> = ids.iter().map(|i| i.as_bytes()).collect();
    assert_eq!(bytes, vec![&b"U"[..], &b"Ua"[..], &b"Uab"[..], &b"Ub"[..]]);
}

#[test]
fn equal_ids_hash_alike() {
    let mut set = HashSet::new();
    assert!(set.insert(id(b"one")));
    assert!(!set.insert(TagId::from(*b"one")));
    assert!(set.insert(id(b"two")));
    assert!(set.contains(&id(b"two")));
    assert!(!set.contains(&id(b"three")));
    assert_eq!(set.len(), 2);
}

#[test]
fn id_list_keeps_ids_in_order() {
    let list = TagIds::new(vec![id(b"h2"), id(b"h1"), id(b"h3")]);
    let bytes: Vec<&[u8]> = list.as_slice().iter().map(|i| i.as_bytes()).collect();
    assert_eq!(bytes, vec![&b"Uh2"[..], &b"Uh1"[..], &b"Uh3"[..]]);
}

#[test]
fn id_list_may_be_empty() {
    let list = TagIds::new(Vec::new());
    assert!(list.as_slice().is_empty());
    assert!(list == TagIds::new(Vec::new()));
}

#[test]
fn id_list_clone_has_the_same_ids() {
    let list = TagIds::new(vec![id(b"a"), id(b"b")]);
    let copy = list.clone();
    assert_eq!(copy.as_slice(), list.as_slice());
    assert_eq!(copy.as_slice().len(), 2);
    assert_eq!(copy.as_slice()[1].as_bytes(), b"Ub");
}

#[test]
fn id_lists_are_equal_when_their_ids_are() {
    let a = TagIds::new(vec![id(b"a"), id(b"b")]);
    let b = TagIds::new(vec![id(b"a"), id(b"b")]);
    let shorter = TagIds::new(vec![id(b"a")]);
    let other = TagIds::new(vec![id(b"a"), id(b"c")]);
    let swapped = TagIds::new(vec![id(b"b"), id(b"a")]);
    assert!(a == b);
    assert!(a != shorter);
    assert!(a != other);
    assert!(a != swapped);
}
