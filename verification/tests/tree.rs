use binary_blog::builder::{make_content_tag, make_identity_tag};
use binary_blog::etag::{make_hash, make_hash_of_bytes};
use binary_blog::tree::{Node, SharedState};
use std::collections::hash_map::DefaultHasher;
use std::hash::Hasher;

fn leaf(content: &[u8], content_type: &str, etag: &str) -> Node {
    Node::new(content.to_vec(), content_type.to_string(), etag.to_string())
}

#[test]
fn make_hash_writes_version_then_both_parts() {
    let mut hasher = DefaultHasher::new();
    hasher.write(b"1.2.3");
    hasher.write(b"A binary blog");
    hasher.write(b"diagram.png");
    assert_eq!(make_hash("1.2.3", "A binary blog", "diagram.png"), hasher.finish());
    assert_eq!(make_hash("0.1.0", "a", "b"), 17208182628683268250);
}

#[test]
fn make_hash_of_bytes_writes_version_then_payload() {
    let mut hasher = DefaultHasher::new();
    hasher.write(b"1.2.3");
    hasher.write(&[1, 2, 3]);
    assert_eq!(make_hash_of_bytes("1.2.3", &[1, 2, 3]), hasher.finish());
}

#[test]
fn hashes_change_with_the_build_version() {
    assert_ne!(make_hash("1.0.0", "t", ""), make_hash("1.0.1", "t", ""));
    assert_ne!(make_hash_of_bytes("1.0.0", b"same"), make_hash_of_bytes("1.0.1", b"same"));
    assert_eq!(make_hash("1.0.0", "t", ""), make_hash("1.0.0", "t", ""));
    assert_ne!(make_hash("1.0.0", "t", "a.png"), make_hash("1.0.0", "t", "b.png"));
}

#[test]
fn tags_are_the_hash_in_decimal() {
    assert_eq!(make_identity_tag("0.1.0", "a", "b"), "17208182628683268250");
    assert_eq!(make_identity_tag("v", "t", ""), make_hash("v", "t", "").to_string());
    assert_eq!(make_content_tag("v", b"xyz"), make_hash_of_bytes("v", b"xyz").to_string());
}

#[test]
fn new_node_holds_both_forms_of_the_payload() {
    let content = b"hello hello hello hello hello hello".to_vec();
    let node = Node::new(content.clone(), "text/plain".to_string(), "7".to_string());
    assert_eq!(node.content(), &content);
    assert_eq!(node.compressed(), &deflate::deflate_bytes(&content));
    assert_ne!(node.compressed(), &content);
    assert_eq!(inflate::inflate_bytes(node.compressed()).unwrap(), content);
    assert_eq!(node.content_type(), "text/plain");
    assert_eq!(node.etag(), "7");
    assert_eq!(node.child_count(), 0);
    assert!(node.get_child("x").is_none());
}

#[test]
fn empty_payload_still_has_a_compressed_form() {
    let node = leaf(b"", "text/plain", "0");
    assert!(node.content().is_empty());
    assert!(!node.compressed().is_empty());
    assert_eq!(inflate::inflate_bytes(node.compressed()).unwrap(), Vec::<u8>::new());
}

#[test]
fn with_child_adds_and_replaces() {
    let root = leaf(b"root", "text/html", "1")
        .with_child("a".to_string(), leaf(b"first", "text/plain", "2"))
        .with_child("b".to_string(), leaf(b"second", "text/plain", "3"));
    assert_eq!(root.child_count(), 2);
    assert_eq!(root.get_child("a").unwrap().content(), b"first");
    assert_eq!(root.get_child("b").unwrap().content(), b"second");
    assert!(root.get_child("c").is_none());
    assert!(root.get_child("").is_none());

    let root = root.with_child("a".to_string(), leaf(b"third", "image/png", "4"));
    assert_eq!(root.child_count(), 2);
    assert_eq!(root.get_child("a").unwrap().content(), b"third");
    assert_eq!(root.get_child("a").unwrap().content_type(), "image/png");
    assert_eq!(root.get_child("a").unwrap().etag(), "4");
    assert_eq!(root.get_child("b").unwrap().content(), b"second");
    assert_eq!(root.content(), b"root");
    assert_eq!(root.etag(), "1");
}

#[test]
fn children_keep_their_own_children() {
    let item = leaf(b"page", "text/html", "1").with_child("x.png".to_string(), leaf(b"png", "image/png", "2"));
    let root = leaf(b"root", "text/html", "0").with_child("item".to_string(), item);
    let found = root.get_child("item").unwrap().get_child("x.png").unwrap();
    assert_eq!(found.content(), b"png");
    assert_eq!(found.child_count(), 0);
}

#[test]
fn shared_state_needs_an_html_not_found_page_with_a_body() {
    let html = "text/html; charset=utf-8";
    assert!(SharedState::new(leaf(b"root", html, "1"), leaf(b"", html, "1")).is_none());
    assert!(SharedState::new(leaf(b"root", html, "1"), leaf(b"gone", "text/plain", "1")).is_none());
    let state = SharedState::new(leaf(b"root", html, "1"), leaf(b"gone", html, "2")).unwrap();
    assert_eq!(state.root().content(), b"root");
    assert_eq!(state.not_found().content(), b"gone");
    assert_eq!(state.not_found().etag(), "2");
}
