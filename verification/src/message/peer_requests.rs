//! Messages that this client sends to peers.
use vstd::prelude::*;
use crate::message::wire::le_u32;
use crate::message::pack::Pack;

verus! {

/// Requests to a peer.
#[derive(Debug)]
pub enum PeerRequests {
    QueueUpload(QueueUpload),
    UserInfoResponse(UserInfoResponse),
}

impl Pack for PeerRequests {
    /// The encoding of the request it holds.
    open spec fn packed(&self) -> Seq<u8> {
        match self {
            PeerRequests::QueueUpload(message) => message.packed(),
            PeerRequests::UserInfoResponse(message) => message.packed(),
        }
    }

    fn pack(&self) -> (bytes: Vec<u8>) {
        match self {
            PeerRequests::QueueUpload(message) => message.pack(),
            PeerRequests::UserInfoResponse(message) => message.pack(),
        }
    }
}

/// A request that the peer queue a file for upload to this client.
#[derive(Debug)]
pub struct QueueUpload {
    pub filename: String,
}

impl Pack for QueueUpload {
    /// Code 43, then the file name.
    open spec fn packed(&self) -> Seq<u8> {
        le_u32(43) + self.filename.packed()
    }

    fn pack(&self) -> (bytes: Vec<u8>) {
        let mut bytes: Vec<u8> = Vec::new();
        bytes.append(&mut 43u32.pack());
        bytes.append(&mut self.filename.pack());
        assert(bytes@ =~= self.packed());
        bytes
    }
}

/// This user's profile, sent in answer to a peer's request for it.
#[derive(Debug)]
pub struct UserInfoResponse {
    pub description: String,
    pub has_picture: bool,
    pub total_upload: u32,
    pub queue_size: u32,
    pub slots_free: bool,
}

impl Pack for UserInfoResponse {
    /// Code 16, the description, whether there is a picture, the total
    /// upload, the queue size, then whether slots are free.
    open spec fn packed(&self) -> Seq<u8> {
        le_u32(16) + self.description.packed() + self.has_picture.packed()
            + self.total_upload.packed() + self.queue_size.packed() + self.slots_free.packed()
    }

    fn pack(&self) -> (bytes: Vec<u8>) {
        let mut bytes: Vec<u8> = Vec::new();
        bytes.append(&mut 16u32.pack());
        bytes.append(&mut self.description.pack());
        bytes.append(&mut self.has_picture.pack());
        bytes.append(&mut self.total_upload.pack());
        bytes.append(&mut self.queue_size.pack());
        bytes.append(&mut self.slots_free.pack());
        assert(bytes@ =~= self.packed());
        bytes
    }
}

} // verus!
