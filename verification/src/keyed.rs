//! A minimal ready-made node: a record ordered by a one-character key,
//! usable directly and serving as the reference implementation of
//! `RelayConnectionNode`.

use crate::connection::RelayConnectionNode;
use vstd::prelude::*;

verus! {

/// A record whose cursor is its one-character key.
#[derive(Debug, Clone, Copy, PartialEq, Eq)]
pub struct KeyedNode {
    /// The ordering key, doubling as the node's cursor.
    pub key: char,
    /// The record's payload.
    pub value: u64,
}

impl RelayConnectionNode for KeyedNode {
    type Cursor = char;

    open spec fn cursor_spec(&self) -> char {
        self.key
    }

    fn cursor(&self) -> (c: char) {
        self.key
    }

    fn connection_type_name() -> &'static str {
        "KeyedNodeConnection"
    }

    fn edge_type_name() -> &'static str {
        "KeyedNodeEdge"
    }
}

} // verus!
