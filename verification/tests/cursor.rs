use juniper_relay::keyed::KeyedNode;
use juniper_relay::{RelayConnectionNode, RelayCursor};

#[test]
fn char_cursor_renders_to_its_own_string() {
    assert_eq!('a'.to_cursor_string(), "a");
    assert_eq!('Ω'.to_cursor_string(), "Ω");
}

#[test]
fn char_cursor_round_trips() {
    let rendered = 'k'.to_cursor_string();
    assert_eq!(char::from_cursor_string(&rendered), Ok('k'));
}

#[test]
fn char_cursor_rejects_other_lengths() {
    assert!(char::from_cursor_string("").is_err());
    assert!(char::from_cursor_string("ab").is_err());
    assert_eq!(
        char::from_cursor_string("ab").unwrap_err(),
        "cursor must be a single character"
    );
}

#[test]
fn keyed_node_exposes_its_key_as_cursor() {
    let node = KeyedNode {
        key: 'q',
        value: 7,
    };
    assert_eq!(node.cursor(), 'q');
}

#[test]
fn keyed_node_type_names() {
    assert_eq!(KeyedNode::connection_type_name(), "KeyedNodeConnection");
    assert_eq!(KeyedNode::edge_type_name(), "KeyedNodeEdge");
}
