//! The messages a peer sends on a connection it opens: `PeerInit` and
//! `FileSearchResponse`, as `peer_responses` defines them.
pub use crate::message::peer_responses::{PeerInit, FileSearchResponse};
