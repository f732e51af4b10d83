//! Messages that this client sends to the server.
use vstd::prelude::*;
use crate::message::wire::le_u32;
use crate::message::pack::Pack;

verus! {

/// Requests to the server.
#[derive(Debug, PartialEq)]
pub enum ServerRequests {
    LoginRequest(LoginRequest),
    FileSearch(FileSearch),
}

impl Pack for ServerRequests {
    /// The encoding of the request it holds.
    open spec fn packed(&self) -> Seq<u8> {
        match self {
            ServerRequests::LoginRequest(message) => message.packed(),
            ServerRequests::FileSearch(message) => message.packed(),
        }
    }

    fn pack(&self) -> (bytes: Vec<u8>) {
        match self {
            ServerRequests::LoginRequest(message) => message.pack(),
            ServerRequests::FileSearch(message) => message.pack(),
        }
    }
}

/// A request to log in.
#[derive(Debug, PartialEq)]
pub struct LoginRequest {
    pub username: String,
    pub password: String,
}

impl Pack for LoginRequest {
    /// Code 1, the user name, the password, then the client version 160.
    open spec fn packed(&self) -> Seq<u8> {
        le_u32(1) + self.username.packed() + self.password.packed() + le_u32(160)
    }

    fn pack(&self) -> (bytes: Vec<u8>) {
        let mut bytes: Vec<u8> = Vec::new();
        bytes.append(&mut 1u32.pack());
        bytes.append(&mut self.username.pack());
        bytes.append(&mut self.password.pack());
        bytes.append(&mut 160u32.pack());
        assert(bytes@ =~= self.packed());
        bytes
    }
}

/// A search of the whole network, tagged with a token that the answers carry.
#[derive(Debug, PartialEq)]
pub struct FileSearch {
    pub token: u32,
    pub query: String,
}

impl Pack for FileSearch {
    /// Code 26, the token, then the query.
    open spec fn packed(&self) -> Seq<u8> {
        le_u32(26) + le_u32(self.token) + self.query.packed()
    }

    fn pack(&self) -> (bytes: Vec<u8>) {
        let mut bytes: Vec<u8> = Vec::new();
        bytes.append(&mut 26u32.pack());
        bytes.append(&mut self.token.pack());
        bytes.append(&mut self.query.pack());
        assert(bytes@ =~= self.packed());
        bytes
    }
}

} // verus!
