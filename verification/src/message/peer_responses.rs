//! Messages that peers send to this client.
use vstd::prelude::*;
use crate::message::unpack::{Unpack, unpacked_n_at, unpack_n_at, views};
use crate::message::inflate::{inflated, inflate};

verus! {

/// The first message on a connection that a peer opened to this client.
pub struct PeerInit {
    pub username: String,
    pub connection_type: String,
    pub token: u32,
}

/// The content of a `PeerInit`.
pub struct PeerInitView {
    pub username: Seq<char>,
    pub connection_type: Seq<char>,
    pub token: u32,
}

impl View for PeerInit {
    type V = PeerInitView;

    open spec fn view(&self) -> PeerInitView {
        PeerInitView {
            username: self.username@,
            connection_type: self.connection_type@,
            token: self.token,
        }
    }
}

impl Unpack for PeerInit {
    /// The user name, the connection type, then the token.
    open spec fn unpacked_at(bytes: Seq<u8>, pos: int) -> Option<(PeerInitView, int)> {
        match String::unpacked_at(bytes, pos) {
            Some((username, p1)) => match String::unpacked_at(bytes, p1) {
                Some((connection_type, p2)) => match u32::unpacked_at(bytes, p2) {
                    Some((token, p3)) => Some(
                        (PeerInitView { username, connection_type, token }, p3),
                    ),
                    None => None,
                },
                None => None,
            },
            None => None,
        }
    }

    fn unpack_at(bytes: &[u8], pos: usize) -> (r: Option<(PeerInit, usize)>) {
        let (username, p1) = match String::unpack_at(bytes, pos) {
            Some(x) => x,
            None => return None,
        };
        let (connection_type, p2) = match String::unpack_at(bytes, p1) {
            Some(x) => x,
            None => return None,
        };
        let (token, p3) = match u32::unpack_at(bytes, p2) {
            Some(x) => x,
            None => return None,
        };
        Some((PeerInit { username, connection_type, token }, p3))
    }
}

/// A numbered attribute of a shared file, such as its bitrate or duration.
#[derive(Clone, Copy, Debug, PartialEq, Eq)]
pub struct FileAttribute {
    pub code: u32,
    pub value: u32,
}

impl View for FileAttribute {
    type V = FileAttribute;

    open spec fn view(&self) -> FileAttribute {
        *self
    }
}

impl Unpack for FileAttribute {
    /// The code, then the value.
    open spec fn unpacked_at(bytes: Seq<u8>, pos: int) -> Option<(FileAttribute, int)> {
        match u32::unpacked_at(bytes, pos) {
            Some((code, p1)) => match u32::unpacked_at(bytes, p1) {
                Some((value, p2)) => Some((FileAttribute { code, value }, p2)),
                None => None,
            },
            None => None,
        }
    }

    fn unpack_at(bytes: &[u8], pos: usize) -> (r: Option<(FileAttribute, usize)>) {
        let (code, p1) = match u32::unpack_at(bytes, pos) {
            Some(x) => x,
            None => return None,
        };
        let (value, p2) = match u32::unpack_at(bytes, p1) {
            Some(x) => x,
            None => return None,
        };
        Some((FileAttribute { code, value }, p2))
    }
}

/// One file of a search result.
pub struct ResultItem {
    pub filename: String,
    pub file_size: u64,
    pub file_extension: String,
    pub attributes: Vec<FileAttribute>,
}

/// The content of a `ResultItem`.
pub struct ResultItemView {
    pub filename: Seq<char>,
    pub file_size: u64,
    pub file_extension: Seq<char>,
    pub attributes: Seq<FileAttribute>,
}

impl View for ResultItem {
    type V = ResultItemView;

    open spec fn view(&self) -> ResultItemView {
        ResultItemView {
            filename: self.filename@,
            file_size: self.file_size,
            file_extension: self.file_extension@,
            attributes: self.attributes@,
        }
    }
}

impl Unpack for ResultItem {
    /// A one-byte code, which is read and dropped, the file name, the size,
    /// the extension, a 32-bit count, and that many attributes.
    open spec fn unpacked_at(bytes: Seq<u8>, pos: int) -> Option<(ResultItemView, int)> {
        match u8::unpacked_at(bytes, pos) {
            Some((_code, p0)) => match String::unpacked_at(bytes, p0) {
                Some((filename, p1)) => match u64::unpacked_at(bytes, p1) {
                    Some((file_size, p2)) => match String::unpacked_at(bytes, p2) {
                        Some((file_extension, p3)) => match u32::unpacked_at(bytes, p3) {
                            Some((count, p4)) => match unpacked_n_at::<FileAttribute>(
                                bytes,
                                p4,
                                count as nat,
                            ) {
                                Some((attributes, p5)) => Some(
                                    (
                                        ResultItemView {
                                            filename,
                                            file_size,
                                            file_extension,
                                            attributes,
                                        },
                                        p5,
                                    ),
                                ),
                                None => None,
                            },
                            None => None,
                        },
                        None => None,
                    },
                    None => None,
                },
                None => None,
            },
            None => None,
        }
    }

    fn unpack_at(bytes: &[u8], pos: usize) -> (r: Option<(ResultItem, usize)>) {
        let (_code, p0) = match u8::unpack_at(bytes, pos) {
            Some(x) => x,
            None => return None,
        };
        let (filename, p1) = match String::unpack_at(bytes, p0) {
            Some(x) => x,
            None => return None,
        };
        let (file_size, p2) = match u64::unpack_at(bytes, p1) {
            Some(x) => x,
            None => return None,
        };
        let (file_extension, p3) = match String::unpack_at(bytes, p2) {
            Some(x) => x,
            None => return None,
        };
        let (count, p4) = match u32::unpack_at(bytes, p3) {
            Some(x) => x,
            None => return None,
        };
        let (attributes, p5) = match unpack_n_at::<FileAttribute>(bytes, p4, count) {
            Some(x) => x,
            None => return None,
        };
        proof {
            assert(attributes@ =~= views(attributes@));
        }
        Some((ResultItem { filename, file_size, file_extension, attributes }, p5))
    }
}

/// A peer's answer to a file search: the files it shares that match.
pub struct FileSearchResponse {
    pub username: String,
    pub token: u32,
    pub results: Vec<ResultItem>,
    pub slot_free: bool,
    pub avg_speed: u32,
    pub queue_length: u32,
    pub private_results: Vec<ResultItem>,
}

/// The content of a `FileSearchResponse`.
pub struct FileSearchResponseView {
    pub username: Seq<char>,
    pub token: u32,
    pub results: Seq<ResultItemView>,
    pub slot_free: bool,
    pub avg_speed: u32,
    pub queue_length: u32,
    pub private_results: Seq<ResultItemView>,
}

impl View for FileSearchResponse {
    type V = FileSearchResponseView;

    open spec fn view(&self) -> FileSearchResponseView {
        FileSearchResponseView {
            username: self.username@,
            token: self.token,
            results: views(self.results@),
            slot_free: self.slot_free,
            avg_speed: self.avg_speed,
            queue_length: self.queue_length,
            private_results: views(self.private_results@),
        }
    }
}

impl FileSearchResponse {
    /// The response that decompressed bytes hold from their start: the user
    /// name, the token, a 32-bit count and that many result items, whether a
    /// slot is free, the average speed and the queue length. Private results
    /// are not read; that list is always empty.
    pub open spec fn from_content(content: Seq<u8>) -> Option<FileSearchResponseView> {
        match String::unpacked_at(content, 0) {
            Some((username, p1)) => match u32::unpacked_at(content, p1) {
                Some((token, p2)) => match u32::unpacked_at(content, p2) {
                    Some((count, p3)) => match unpacked_n_at::<ResultItem>(
                        content,
                        p3,
                        count as nat,
                    ) {
                        Some((results, p4)) => match bool::unpacked_at(content, p4) {
                            Some((slot_free, p5)) => match u32::unpacked_at(content, p5) {
                                Some((avg_speed, p6)) => match u32::unpacked_at(content, p6) {
                                    Some((queue_length, _p7)) => Some(
                                        FileSearchResponseView {
                                            username,
                                            token,
                                            results,
                                            slot_free,
                                            avg_speed,
                                            queue_length,
                                            private_results: Seq::empty(),
                                        },
                                    ),
                                    None => None,
                                },
                                None => None,
                            },
                            None => None,
                        },
                        None => None,
                    },
                    None => None,
                },
                None => None,
            },
            None => None,
        }
    }

    /// Reads a response from its decompressed bytes.
    pub fn parse_content(content: &[u8]) -> (r: Option<FileSearchResponse>)
        ensures
            match Self::from_content(content@) {
                None => r is None,
                Some(v) => r matches Some(x) && x@ == v,
            },
    {
        let (username, p1) = match String::unpack_at(content, 0) {
            Some(x) => x,
            None => return None,
        };
        let (token, p2) = match u32::unpack_at(content, p1) {
            Some(x) => x,
            None => return None,
        };
        let (count, p3) = match u32::unpack_at(content, p2) {
            Some(x) => x,
            None => return None,
        };
        let (results, p4) = match unpack_n_at::<ResultItem>(content, p3, count) {
            Some(x) => x,
            None => return None,
        };
        let (slot_free, p5) = match bool::unpack_at(content, p4) {
            Some(x) => x,
            None => return None,
        };
        let (avg_speed, p6) = match u32::unpack_at(content, p5) {
            Some(x) => x,
            None => return None,
        };
        let (queue_length, _p7) = match u32::unpack_at(content, p6) {
            Some(x) => x,
            None => return None,
        };
        let private_results: Vec<ResultItem> = Vec::new();
        proof {
            assert(views(private_results@) =~= Seq::<ResultItemView>::empty());
        }
        Some(
            FileSearchResponse {
                username,
                token,
                results,
                slot_free,
                avg_speed,
                queue_length,
                private_results,
            },
        )
    }
}

impl Unpack for FileSearchResponse {
    /// The message body from `pos` on is a zlib stream; the response is read
    /// from its decompressed content. The compressed bytes are left in place:
    /// reading a response consumes none of them.
    open spec fn unpacked_at(bytes: Seq<u8>, pos: int) -> Option<(FileSearchResponseView, int)> {
        if 0 <= pos <= bytes.len() {
            match inflated(bytes.subrange(pos, bytes.len() as int)) {
                Some(content) => match Self::from_content(content) {
                    Some(v) => Some((v, pos)),
                    None => None,
                },
                None => None,
            }
        } else {
            None
        }
    }

    fn unpack_at(bytes: &[u8], pos: usize) -> (r: Option<(FileSearchResponse, usize)>) {
        let compressed = vstd::slice::slice_subrange(bytes, pos, bytes.len());
        let content = match inflate(compressed) {
            Some(c) => c,
            None => return None,
        };
        match Self::parse_content(content.as_slice()) {
            Some(response) => Some((response, pos)),
            None => None,
        }
    }
}

/// A peer's request for this user's profile; it carries nothing.
pub struct UserInfoRequest {}

impl View for UserInfoRequest {
    type V = ();

    open spec fn view(&self) -> () {
        ()
    }
}

impl Unpack for UserInfoRequest {
    /// Reads nothing.
    open spec fn unpacked_at(bytes: Seq<u8>, pos: int) -> Option<((), int)> {
        if 0 <= pos <= bytes.len() {
            Some(((), pos))
        } else {
            None
        }
    }

    fn unpack_at(bytes: &[u8], pos: usize) -> (r: Option<(UserInfoRequest, usize)>) {
        Some((UserInfoRequest {  }, pos))
    }
}

/// A peer's report that an upload to this client failed.
#[derive(Debug)]
pub struct UploadFailed {
    pub filename: String,
}

impl View for UploadFailed {
    type V = Seq<char>;

    /// The file name.
    open spec fn view(&self) -> Seq<char> {
        self.filename@
    }
}

impl Unpack for UploadFailed {
    /// The file name.
    open spec fn unpacked_at(bytes: Seq<u8>, pos: int) -> Option<(Seq<char>, int)> {
        String::unpacked_at(bytes, pos)
    }

    fn unpack_at(bytes: &[u8], pos: usize) -> (r: Option<(UploadFailed, usize)>) {
        match String::unpack_at(bytes, pos) {
            Some((filename, end)) => Some((UploadFailed { filename }, end)),
            None => None,
        }
    }
}

} // verus!
