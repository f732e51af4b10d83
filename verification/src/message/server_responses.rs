//! Messages that the server sends to this client.
use vstd::prelude::*;
use crate::message::unpack::{Unpack, views};

verus! {

/// Messages from the server that the client acts on.
#[derive(Clone, Debug)]
pub enum ServerResponses {
    LoginResponse(LoginResponse),
}

/// The server's answer to a login request. The address, hash and supporter
/// flag are present only where the login succeeded. The address is the
/// 32-bit value as it stands on the wire.
#[derive(Clone, Debug)]
pub struct LoginResponse {
    pub success: bool,
    pub message: String,
    pub ip: Option<u32>,
    pub hash: Option<String>,
    pub is_supporter: Option<bool>,
}

/// The content of a `LoginResponse`.
pub struct LoginResponseView {
    pub success: bool,
    pub message: Seq<char>,
    pub ip: Option<u32>,
    pub hash: Option<Seq<char>>,
    pub is_supporter: Option<bool>,
}

impl View for LoginResponse {
    type V = LoginResponseView;

    open spec fn view(&self) -> LoginResponseView {
        LoginResponseView {
            success: self.success,
            message: self.message@,
            ip: self.ip,
            hash: match self.hash {
                Some(h) => Some(h@),
                None => None,
            },
            is_supporter: self.is_supporter,
        }
    }
}

impl Unpack for LoginResponse {
    /// Whether the login succeeded and a message; where it succeeded, then
    /// the address, the password hash and whether the user is a supporter.
    open spec fn unpacked_at(bytes: Seq<u8>, pos: int) -> Option<(LoginResponseView, int)> {
        match bool::unpacked_at(bytes, pos) {
            Some((success, p1)) => match String::unpacked_at(bytes, p1) {
                Some((message, p2)) => if success {
                    match u32::unpacked_at(bytes, p2) {
                        Some((ip, p3)) => match String::unpacked_at(bytes, p3) {
                            Some((hash, p4)) => match bool::unpacked_at(bytes, p4) {
                                Some((is_supporter, p5)) => Some(
                                    (
                                        LoginResponseView {
                                            success,
                                            message,
                                            ip: Some(ip),
                                            hash: Some(hash),
                                            is_supporter: Some(is_supporter),
                                        },
                                        p5,
                                    ),
                                ),
                                None => None,
                            },
                            None => None,
                        },
                        None => None,
                    }
                } else {
                    Some(
                        (
                            LoginResponseView {
                                success,
                                message,
                                ip: None,
                                hash: None,
                                is_supporter: None,
                            },
                            p2,
                        ),
                    )
                },
                None => None,
            },
            None => None,
        }
    }

    fn unpack_at(bytes: &[u8], pos: usize) -> (r: Option<(LoginResponse, usize)>) {
        let (success, p1) = match bool::unpack_at(bytes, pos) {
            Some(x) => x,
            None => return None,
        };
        let (message, p2) = match String::unpack_at(bytes, p1) {
            Some(x) => x,
            None => return None,
        };
        if success {
            let (ip, p3) = match u32::unpack_at(bytes, p2) {
                Some(x) => x,
                None => return None,
            };
            let (hash, p4) = match String::unpack_at(bytes, p3) {
                Some(x) => x,
                None => return None,
            };
            let (is_supporter, p5) = match bool::unpack_at(bytes, p4) {
                Some(x) => x,
                None => return None,
            };
            Some(
                (
                    LoginResponse {
                        success,
                        message,
                        ip: Some(ip),
                        hash: Some(hash),
                        is_supporter: Some(is_supporter),
                    },
                    p5,
                ),
            )
        } else {
            Some((LoginResponse { success, message, ip: None, hash: None, is_supporter: None }, p2))
        }
    }
}

/// The server's request to open a connection to a peer.
pub struct ConnectToPeer {
    pub username: String,
    pub connection_type: String,
    pub ip: u32,
    pub port: u32,
    pub token: u32,
}

/// The content of a `ConnectToPeer`.
pub struct ConnectToPeerView {
    pub username: Seq<char>,
    pub connection_type: Seq<char>,
    pub ip: u32,
    pub port: u32,
    pub token: u32,
}

impl View for ConnectToPeer {
    type V = ConnectToPeerView;

    open spec fn view(&self) -> ConnectToPeerView {
        ConnectToPeerView {
            username: self.username@,
            connection_type: self.connection_type@,
            ip: self.ip,
            port: self.port,
            token: self.token,
        }
    }
}

impl Unpack for ConnectToPeer {
    /// The user name, the connection type, the address, the port, the token.
    open spec fn unpacked_at(bytes: Seq<u8>, pos: int) -> Option<(ConnectToPeerView, int)> {
        match String::unpacked_at(bytes, pos) {
            Some((username, p1)) => match String::unpacked_at(bytes, p1) {
                Some((connection_type, p2)) => match u32::unpacked_at(bytes, p2) {
                    Some((ip, p3)) => match u32::unpacked_at(bytes, p3) {
                        Some((port, p4)) => match u32::unpacked_at(bytes, p4) {
                            Some((token, p5)) => Some(
                                (
                                    ConnectToPeerView {
                                        username,
                                        connection_type,
                                        ip,
                                        port,
                                        token,
                                    },
                                    p5,
                                ),
                            ),
                            None => None,
                        },
                        None => None,
                    },
                    None => None,
                },
                None => None,
            },
            None => None,
        }
    }

    fn unpack_at(bytes: &[u8], pos: usize) -> (r: Option<(ConnectToPeer, usize)>) {
        let (username, p1) = match String::unpack_at(bytes, pos) {
            Some(x) => x,
            None => return None,
        };
        let (connection_type, p2) = match String::unpack_at(bytes, p1) {
            Some(x) => x,
            None => return None,
        };
        let (ip, p3) = match u32::unpack_at(bytes, p2) {
            Some(x) => x,
            None => return None,
        };
        let (port, p4) = match u32::unpack_at(bytes, p3) {
            Some(x) => x,
            None => return None,
        };
        let (token, p5) = match u32::unpack_at(bytes, p4) {
            Some(x) => x,
            None => return None,
        };
        Some((ConnectToPeer { username, connection_type, ip, port, token }, p5))
    }
}

/// The list of chat rooms; only the number of rooms is read.
pub struct RoomList {
    pub number_of_rooms: u32,
}

impl View for RoomList {
    type V = u32;

    open spec fn view(&self) -> u32 {
        self.number_of_rooms
    }
}

impl Unpack for RoomList {
    open spec fn unpacked_at(bytes: Seq<u8>, pos: int) -> Option<(u32, int)> {
        u32::unpacked_at(bytes, pos)
    }

    fn unpack_at(bytes: &[u8], pos: usize) -> (r: Option<(RoomList, usize)>) {
        match u32::unpack_at(bytes, pos) {
            Some((number_of_rooms, end)) => Some((RoomList { number_of_rooms }, end)),
            None => None,
        }
    }
}

/// The users with privileges.
pub struct PrivilegedUsers {
    pub number_of_users: u32,
    pub users: Vec<String>,
}

/// The content of a `PrivilegedUsers`.
pub struct PrivilegedUsersView {
    pub number_of_users: u32,
    pub users: Seq<Seq<char>>,
}

impl View for PrivilegedUsers {
    type V = PrivilegedUsersView;

    open spec fn view(&self) -> PrivilegedUsersView {
        PrivilegedUsersView { number_of_users: self.number_of_users, users: views(self.users@) }
    }
}

impl Unpack for PrivilegedUsers {
    /// The count of users, then one user name: the names are read over a
    /// one-element collection, so exactly one name is read whatever the count.
    open spec fn unpacked_at(bytes: Seq<u8>, pos: int) -> Option<(PrivilegedUsersView, int)> {
        match u32::unpacked_at(bytes, pos) {
            Some((number_of_users, p1)) => match String::unpacked_at(bytes, p1) {
                Some((name, p2)) => Some(
                    (PrivilegedUsersView { number_of_users, users: seq![name] }, p2),
                ),
                None => None,
            },
            None => None,
        }
    }

    fn unpack_at(bytes: &[u8], pos: usize) -> (r: Option<(PrivilegedUsers, usize)>) {
        let (number_of_users, p1) = match u32::unpack_at(bytes, pos) {
            Some(x) => x,
            None => return None,
        };
        let (name, p2) = match String::unpack_at(bytes, p1) {
            Some(x) => x,
            None => return None,
        };
        let mut users: Vec<String> = Vec::new();
        users.push(name);
        proof {
            assert(views(users@) =~= seq![users@[0]@]);
        }
        Some((PrivilegedUsers { number_of_users, users }, p2))
    }
}

/// The minimum upload speed to become a parent in the distributed network.
pub struct ParentMinSpeed {
    pub speed: u32,
}

impl View for ParentMinSpeed {
    type V = u32;

    open spec fn view(&self) -> u32 {
        self.speed
    }
}

impl Unpack for ParentMinSpeed {
    open spec fn unpacked_at(bytes: Seq<u8>, pos: int) -> Option<(u32, int)> {
        u32::unpacked_at(bytes, pos)
    }

    fn unpack_at(bytes: &[u8], pos: usize) -> (r: Option<(ParentMinSpeed, usize)>) {
        match u32::unpack_at(bytes, pos) {
            Some((speed, end)) => Some((ParentMinSpeed { speed }, end)),
            None => None,
        }
    }
}

/// The speed ratio used to compute how many children a parent may have.
pub struct ParentSpeedRatio {
    pub ratio: u32,
}

impl View for ParentSpeedRatio {
    type V = u32;

    open spec fn view(&self) -> u32 {
        self.ratio
    }
}

impl Unpack for ParentSpeedRatio {
    open spec fn unpacked_at(bytes: Seq<u8>, pos: int) -> Option<(u32, int)> {
        u32::unpacked_at(bytes, pos)
    }

    fn unpack_at(bytes: &[u8], pos: usize) -> (r: Option<(ParentSpeedRatio, usize)>) {
        match u32::unpack_at(bytes, pos) {
            Some((ratio, end)) => Some((ParentSpeedRatio { ratio }, end)),
            None => None,
        }
    }
}

/// How often, in seconds, the client may run its wishlist searches.
pub struct WishlistInterval {
    pub interval: u32,
}

impl View for WishlistInterval {
    type V = u32;

    open spec fn view(&self) -> u32 {
        self.interval
    }
}

impl Unpack for WishlistInterval {
    open spec fn unpacked_at(bytes: Seq<u8>, pos: int) -> Option<(u32, int)> {
        u32::unpacked_at(bytes, pos)
    }

    fn unpack_at(bytes: &[u8], pos: usize) -> (r: Option<(WishlistInterval, usize)>) {
        match u32::unpack_at(bytes, pos) {
            Some((interval, end)) => Some((WishlistInterval { interval }, end)),
            None => None,
        }
    }
}

/// Search phrases that the client must not answer.
pub struct ExcludedSearchPhrases {
    pub count: u32,
    pub phrases: Vec<String>,
}

/// The content of an `ExcludedSearchPhrases`.
pub struct ExcludedSearchPhrasesView {
    pub count: u32,
    pub phrases: Seq<Seq<char>>,
}

impl View for ExcludedSearchPhrases {
    type V = ExcludedSearchPhrasesView;

    open spec fn view(&self) -> ExcludedSearchPhrasesView {
        ExcludedSearchPhrasesView { count: self.count, phrases: views(self.phrases@) }
    }
}

impl Unpack for ExcludedSearchPhrases {
    /// The count of phrases, then one phrase: the phrases are read over a
    /// one-element collection, so exactly one is read whatever the count.
    open spec fn unpacked_at(bytes: Seq<u8>, pos: int) -> Option<(ExcludedSearchPhrasesView, int)> {
        match u32::unpacked_at(bytes, pos) {
            Some((count, p1)) => match String::unpacked_at(bytes, p1) {
                Some((phrase, p2)) => Some(
                    (ExcludedSearchPhrasesView { count, phrases: seq![phrase] }, p2),
                ),
                None => None,
            },
            None => None,
        }
    }

    fn unpack_at(bytes: &[u8], pos: usize) -> (r: Option<(ExcludedSearchPhrases, usize)>) {
        let (count, p1) = match u32::unpack_at(bytes, pos) {
            Some(x) => x,
            None => return None,
        };
        let (phrase, p2) = match String::unpack_at(bytes, p1) {
            Some(x) => x,
            None => return None,
        };
        let mut phrases: Vec<String> = Vec::new();
        phrases.push(phrase);
        proof {
            assert(views(phrases@) =~= seq![phrases@[0]@]);
        }
        Some((ExcludedSearchPhrases { count, phrases }, p2))
    }
}

} // verus!
