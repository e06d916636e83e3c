//! Relay-style cursor pagination: argument validation, cursor decoding,
//! slice windowing and page-info assembly for connection responses.

pub mod connection;
pub mod cursor;
pub mod keyed;
pub mod window;

pub use connection::leq_zero;
pub use connection::RelayConnection;
pub use connection::RelayConnectionEdge;
pub use connection::RelayConnectionNode;
pub use connection::RelayConnectionPageInfo;
pub use connection::RelayError;
pub use cursor::RelayCursor;
