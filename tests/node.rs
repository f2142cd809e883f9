use smi::codes::{SmiAccess, SmiBasetype, SmiStatus};
use smi::context::{SmiContext, MODULE_NOT_LOADED};
use smi::kind::SmiNodeKind;
use smi::node::{ChildQuery, SmiNode, SmiNodeIterator, TextualConvention};

fn node(handle: usize, name: &str, oid: &[u32], kind: u32) -> SmiNode {
    SmiNode::from_fields(
        handle,
        name.to_string(),
        oid.to_vec(),
        4,
        1,
        String::new(),
        String::new(),
        format!("the {} node", name),
        String::new(),
        kind,
    )
}

/// A small tree: parent handle -> children handles, in order.
fn tree() -> Vec<(usize, Vec<usize>)> {
    vec![(1, vec![10, 11, 12]), (10, vec![20]), (11, vec![]), (12, vec![]), (20, vec![])]
}

fn answer(q: ChildQuery) -> Option<usize> {
    let t = tree();
    match q {
        ChildQuery::FirstChild(p) => t.iter().find(|(h, _)| *h == p).and_then(|(_, k)| k.first().copied()),
        ChildQuery::NextSibling(c) => {
            for (_, kids) in &t {
                if let Some(i) = kids.iter().position(|k| *k == c) {
                    return kids.get(i + 1).copied();
                }
            }
            None
        }
    }
}

fn drain(mut it: SmiNodeIterator) -> Vec<usize> {
    let mut out = Vec::new();
    while let Some(q) = it.pending() {
        if let Some(c) = it.advance(answer(q)) {
            out.push(c);
        }
    }
    out
}

#[test]
fn node_fields_decode() {
    let n = node(7, "sysDescr", &[1, 3, 6, 1, 2, 1, 1, 1], 0x0002);
    assert_eq!(n.handle, 7);
    assert_eq!(n.name, "sysDescr");
    assert_eq!(n.oid, vec![1, 3, 6, 1, 2, 1, 1, 1]);
    assert_eq!(n.access, SmiAccess::ReadOnly);
    assert_eq!(n.status, SmiStatus::Current);
    assert!(n.kind.contains(SmiNodeKind::SCALAR));
}

#[test]
fn node_unknown_codes_decode() {
    let n = SmiNode::from_fields(
        1,
        "x".to_string(),
        vec![1],
        77,
        99,
        String::new(),
        String::new(),
        String::new(),
        String::new(),
        0x00FF_0000,
    );
    assert_eq!(n.access, SmiAccess::Unknown);
    assert_eq!(n.status, SmiStatus::Unknown);
    assert!(n.kind.is_empty());
}

#[test]
fn node_description_line() {
    let n = node(7, "sysDescr", &[1, 3, 6, 1, 2, 1, 1, 1], 0x0002);
    assert_eq!(n.describe(), "Node<1.3.6.1.2.1.1.1>/SCALAR: sysDescr, the sysDescr node");
    let root = node(1, "iso", &[1], 0x0001);
    assert_eq!(root.describe(), "Node<1>/NODE: iso, the iso node");
}

#[test]
fn textual_convention_fields_decode() {
    let t = TextualConvention::from_fields(
        "DisplayString".to_string(),
        2,
        "255a".to_string(),
        String::new(),
        1,
        "text".to_string(),
        "RFC 2579".to_string(),
    );
    assert_eq!(t.name, "DisplayString");
    assert_eq!(t.basetype, SmiBasetype::OctetString);
    assert_eq!(t.format, "255a");
    assert_eq!(t.status, SmiStatus::Current);
    assert_eq!(t.reference, "RFC 2579");
    let u = TextualConvention::from_fields(String::new(), 40, String::new(), String::new(), 8, String::new(), String::new());
    assert_eq!(u.basetype, SmiBasetype::Unknown);
    assert_eq!(u.status, SmiStatus::Unknown);
}

#[test]
fn children_in_order() {
    let root = node(1, "iso", &[1], 0x0001);
    assert_eq!(drain(root.children()), vec![10, 11, 12]);
    assert_eq!(drain(node(10, "a", &[1, 1], 1).children()), vec![20]);
}

#[test]
fn child_found_under_its_parent() {
    let parent = node(1, "iso", &[1], 0x0001);
    for child in [10usize, 11, 12] {
        assert!(drain(parent.children()).contains(&child));
    }
}

#[test]
fn leaf_children_empty() {
    let leaf = node(12, "leaf", &[1, 3], 0x0002);
    let mut it = leaf.children();
    assert_eq!(it.pending(), Some(ChildQuery::FirstChild(12)));
    assert_eq!(it.advance(None), None);
    assert!(it.is_exhausted());
    assert_eq!(it.pending(), None);
    assert_eq!(it.advance(Some(5)), None);
    assert!(it.is_exhausted());
}

#[test]
fn cursor_requests() {
    let mut it = node(1, "iso", &[1], 1).children();
    assert_eq!(it.pending(), Some(ChildQuery::FirstChild(1)));
    assert_eq!(it.advance(Some(10)), Some(10));
    assert_eq!(it.pending(), Some(ChildQuery::NextSibling(10)));
    assert_eq!(it.advance(Some(11)), Some(11));
    assert_eq!(it.pending(), Some(ChildQuery::NextSibling(11)));
    assert_eq!(it.advance(None), None);
    assert_eq!(it.pending(), None);
}

#[test]
fn children_restart_fresh() {
    let root = node(1, "iso", &[1], 0x0001);
    let first = drain(root.children());
    let second = drain(root.children());
    assert_eq!(first, second);
}

#[test]
fn context_from_status() {
    assert!(SmiContext::from_init_status(0).is_ok());
    assert_eq!(SmiContext::from_init_status(3).unwrap_err(), 3);
    assert_eq!(SmiContext::check_status(0), Ok(()));
    assert_eq!(SmiContext::check_status(-2), Err(-2));
    assert_eq!(SmiContext::check_loaded(true), Ok(()));
    assert_eq!(SmiContext::check_loaded(false), Err(MODULE_NOT_LOADED));
    assert_eq!(MODULE_NOT_LOADED, -1);
}

#[test]
fn oid_length_argument() {
    assert_eq!(SmiContext::oid_arg_len(&[]), Some(0));
    assert_eq!(SmiContext::oid_arg_len(&[1, 3, 6, 1, 2, 1, 1, 1]), Some(8));
}
