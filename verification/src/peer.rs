//! What the client makes of the messages a peer sends it, and what it
//! answers.
use vstd::prelude::*;
use crate::events::{SearchResultItem, SearchResultItemView};
use crate::message::unpack::{Unpack, views};
use crate::message::wire::{le_u32, text_bytes, text_field};
use crate::message::laws::{law_peer_init_reads_back, law_u32_roundtrip};
use crate::message::pack::Pack;
use crate::message::inflate::zlib_sync_inflate;
use crate::message::peer_requests::{PeerRequests, UserInfoResponse};
use crate::message::peer_responses::{
    PeerInit, PeerInitView, FileSearchResponse, FileSearchResponseView, UserInfoRequest,
    UploadFailed,
};

verus! {

/// A decoded message from a peer.
pub enum PeerMessage {
    FileSearchResponse(FileSearchResponse),
    UserInfoRequest(UserInfoRequest),
    UploadFailed(UploadFailed),
    /// A message with another code, and the number of bytes after the code.
    Unknown { code: u32, length: usize },
}

/// The content of a `PeerMessage`.
pub enum PeerMessageView {
    FileSearchResponse(FileSearchResponseView),
    UserInfoRequest,
    UploadFailed(Seq<char>),
    Unknown { code: u32, length: nat },
}

impl View for PeerMessage {
    type V = PeerMessageView;

    open spec fn view(&self) -> PeerMessageView {
        match self {
            PeerMessage::FileSearchResponse(m) => PeerMessageView::FileSearchResponse(m@),
            PeerMessage::UserInfoRequest(_) => PeerMessageView::UserInfoRequest,
            PeerMessage::UploadFailed(m) => PeerMessageView::UploadFailed(m@),
            PeerMessage::Unknown { code, length } => PeerMessageView::Unknown {
                code: *code,
                length: *length as nat,
            },
        }
    }
}

/// The message in a packet from a peer: a 32-bit code, then the body. Code 9
/// is a search response, 15 a request for this user's profile, 46 a failed
/// upload; other codes are reported with the length of their body. `None`
/// where the packet is too short for its code or its body, or a search
/// response does not decompress.
pub open spec fn peer_message(packet: Seq<u8>) -> Option<PeerMessageView> {
    match u32::unpacked_at(packet, 0) {
        None => None,
        Some((code, p)) => if code == 9 {
            match FileSearchResponse::unpacked_at(packet, p) {
                Some((m, _)) => Some(PeerMessageView::FileSearchResponse(m)),
                None => None,
            }
        } else if code == 15 {
            Some(PeerMessageView::UserInfoRequest)
        } else if code == 46 {
            match UploadFailed::unpacked_at(packet, p) {
                Some((m, _)) => Some(PeerMessageView::UploadFailed(m)),
                None => None,
            }
        } else {
            Some(PeerMessageView::Unknown { code, length: (packet.len() - 4) as nat })
        },
    }
}

/// Decodes a packet from a peer.
pub fn decode_peer_message(packet: &[u8]) -> (r: Option<PeerMessage>)
    ensures
        match peer_message(packet@) {
            None => r is None,
            Some(v) => r matches Some(m) && m@ == v,
        },
{
    let (code, p) = match u32::unpack_at(packet, 0) {
        Some(x) => x,
        None => return None,
    };
    if code == 9 {
        match FileSearchResponse::unpack_at(packet, p) {
            Some((m, _)) => Some(PeerMessage::FileSearchResponse(m)),
            None => None,
        }
    } else if code == 15 {
        Some(PeerMessage::UserInfoRequest(UserInfoRequest {  }))
    } else if code == 46 {
        match UploadFailed::unpack_at(packet, p) {
            Some((m, _)) => Some(PeerMessage::UploadFailed(m)),
            None => None,
        }
    } else {
        Some(PeerMessage::Unknown { code, length: packet.len() - 4 })
    }
}

/// The message in a packet that answers a search, on a connection a peer
/// opened: code 9 is a search response; every other code is reported with the
/// length of its body. `None` where the packet is too short for its code, or
/// a search response is too short or does not decompress.
pub open spec fn search_reply(packet: Seq<u8>) -> Option<PeerMessageView> {
    match u32::unpacked_at(packet, 0) {
        None => None,
        Some((code, p)) => if code == 9 {
            match FileSearchResponse::unpacked_at(packet, p) {
                Some((m, _)) => Some(PeerMessageView::FileSearchResponse(m)),
                None => None,
            }
        } else {
            Some(PeerMessageView::Unknown { code, length: (packet.len() - 4) as nat })
        },
    }
}

/// Decodes a packet that answers a search.
pub fn decode_search_reply(packet: &[u8]) -> (r: Option<PeerMessage>)
    ensures
        match search_reply(packet@) {
            None => r is None,
            Some(v) => r matches Some(m) && m@ == v,
        },
{
    let (code, p) = match u32::unpack_at(packet, 0) {
        Some(x) => x,
        None => return None,
    };
    if code == 9 {
        match FileSearchResponse::unpack_at(packet, p) {
            Some((m, _)) => Some(PeerMessage::FileSearchResponse(m)),
            None => None,
        }
    } else {
        Some(PeerMessage::Unknown { code, length: packet.len() - 4 })
    }
}

/// The first message on a connection that a peer opened.
pub enum PeerInitMessage {
    PeerInit(PeerInit),
    /// A message with another code, and the number of bytes after the code.
    Unknown { code: u8, length: usize },
}

/// The content of a `PeerInitMessage`.
pub enum PeerInitMessageView {
    PeerInit(PeerInitView),
    Unknown { code: u8, length: nat },
}

impl View for PeerInitMessage {
    type V = PeerInitMessageView;

    open spec fn view(&self) -> PeerInitMessageView {
        match self {
            PeerInitMessage::PeerInit(m) => PeerInitMessageView::PeerInit(m@),
            PeerInitMessage::Unknown { code, length } => PeerInitMessageView::Unknown {
                code: *code,
                length: *length as nat,
            },
        }
    }
}

/// The first message on a peer's connection: an 8-bit code, then the body.
/// Code 1 is the peer's introduction; other codes are reported with the
/// length of their body. `None` where the packet is too short.
pub open spec fn peer_init_message(packet: Seq<u8>) -> Option<PeerInitMessageView> {
    match u8::unpacked_at(packet, 0) {
        None => None,
        Some((code, p)) => if code == 1 {
            match PeerInit::unpacked_at(packet, p) {
                Some((m, _)) => Some(PeerInitMessageView::PeerInit(m)),
                None => None,
            }
        } else {
            Some(PeerInitMessageView::Unknown { code, length: (packet.len() - 1) as nat })
        },
    }
}

/// Decodes the first packet on a peer's connection.
pub fn decode_peer_init(packet: &[u8]) -> (r: Option<PeerInitMessage>)
    ensures
        match peer_init_message(packet@) {
            None => r is None,
            Some(v) => r matches Some(m) && m@ == v,
        },
{
    let (code, p) = match u8::unpack_at(packet, 0) {
        Some(x) => x,
        None => return None,
    };
    if code == 1 {
        match PeerInit::unpack_at(packet, p) {
            Some((m, _)) => Some(PeerInitMessage::PeerInit(m)),
            None => None,
        }
    } else {
        Some(PeerInitMessage::Unknown { code, length: packet.len() - 1 })
    }
}

/// The profile this client sends when a peer asks for it: description
/// "rslsk", no picture, a total upload of 1, a queue of 1, no free slot.
pub fn user_info_response() -> (r: PeerRequests)
    ensures
        r matches PeerRequests::UserInfoResponse(info) && info.description@ == "rslsk"@
            && !info.has_picture && info.total_upload == 1 && info.queue_size == 1
            && !info.slots_free,
{
    PeerRequests::UserInfoResponse(
        UserInfoResponse {
            description: String::from_str("rslsk"),
            has_picture: false,
            total_upload: 1u32,
            queue_size: 1u32,
            slots_free: false,
        },
    )
}

/// The search results that a response reports to the user: one per result
/// item, in order, with the responding user's name and the item's file name.
pub open spec fn reported_items(response: FileSearchResponseView) -> Seq<SearchResultItemView> {
    response.results.map_values(
        |item: crate::message::peer_responses::ResultItemView|
            SearchResultItemView { username: response.username, filename: item.filename },
    )
}

/// Makes the search results that a response reports to the user.
pub fn search_result_items(response: &FileSearchResponse) -> (items: Vec<SearchResultItem>)
    ensures
        views(items@) == reported_items(response@),
{
    let mut items: Vec<SearchResultItem> = Vec::new();
    let mut i: usize = 0;
    while i < response.results.len()
        invariant
            i <= response.results@.len(),
            views(items@) == reported_items(response@).subrange(0, i as int),
        decreases response.results@.len() - i,
    {
        let username = response.username.clone();
        let filename = response.results[i].filename.clone();
        let item = SearchResultItem { username, filename };
        proof {
            assert(views(items@.push(item)) =~= views(items@).push(item@));
            assert(reported_items(response@).subrange(0, i + 1) =~= reported_items(
                response@,
            ).subrange(0, i as int).push(item@));
        }
        items.push(item);
        i = i + 1;
    }
    assert(reported_items(response@).subrange(0, i as int) =~= reported_items(response@));
    items
}

} // verus!

verus! {

/// A peer's first packet holding code 1 and an introduction decodes to that
/// introduction, read from the bytes after the code as it would be read on
/// its own.
#[verifier::rlimit(60)]
pub proof fn law_peer_init_decodes(
    username: Seq<char>,
    connection_type: Seq<char>,
    token: u32,
    post: Seq<u8>,
)
    requires
        text_bytes(username).len() <= u32::MAX,
        text_bytes(connection_type).len() <= u32::MAX,
    ensures
        ({
            let body = text_field(username) + text_field(connection_type) + le_u32(token);
            peer_init_message(seq![1u8] + body + post) == Some(
                PeerInitMessageView::PeerInit(PeerInitView { username, connection_type, token }),
            )
        }),
{
    let body = text_field(username) + text_field(connection_type) + le_u32(token);
    let packet = seq![1u8] + body + post;
    let view = PeerInitView { username, connection_type, token };
    assert(u8::unpacked_at(packet, 0) == Some((1u8, 1int))) by {
        assert(packet[0] == 1u8);
    }
    assert(PeerInit::unpacked_at(packet, 1) == Some((view, 1 + body.len() as int))) by {
        law_peer_init_reads_back(username, connection_type, token, seq![1u8], post);
    }
    lemma_peer_init_decodes(packet, view, 1 + body.len() as int);
}

/// A packet whose code is 1 and whose body reads as an introduction decodes
/// to that introduction.
proof fn lemma_peer_init_decodes(packet: Seq<u8>, view: PeerInitView, end: int)
    requires
        u8::unpacked_at(packet, 0) == Some((1u8, 1int)),
        PeerInit::unpacked_at(packet, 1) == Some((view, end)),
    ensures
        peer_init_message(packet) == Some(PeerInitMessageView::PeerInit(view)),
{
}

} // verus!

verus! {

/// A response reports one search result per result item, in the items'
/// order, each with the responding user's name and the item's file name.
pub proof fn law_reported_items(response: FileSearchResponseView)
    ensures
        reported_items(response).len() == response.results.len(),
        forall|i: int|
            0 <= i < response.results.len() ==> #[trigger] reported_items(response)[i]
                == (SearchResultItemView {
                username: response.username,
                filename: response.results[i].filename,
            }),
{
}

/// A search response reads back from a zlib stream that inflates to its
/// content: where the stream inflates to the same content in any room at
/// least as large as the content, and the content is at most 4096 bytes per
/// compressed byte, the response is read from that content, and a packet of
/// code 9 and that stream decodes to it.
pub proof fn law_search_response_from_stream(stream: Seq<u8>, content: Seq<u8>)
    requires
        forall|room: nat| room >= content.len() ==> zlib_sync_inflate(stream, room) == Some(content),
        content.len() <= 4096 * stream.len(),
        stream.len() * 4096 <= isize::MAX,
    ensures
        FileSearchResponse::unpacked_at(stream, 0) == match FileSearchResponse::from_content(
            content,
        ) {
            Some(v) => Some((v, 0int)),
            None => None,
        },
        peer_message(le_u32(9) + stream) == match FileSearchResponse::from_content(content) {
            Some(v) => Some(PeerMessageView::FileSearchResponse(v)),
            None => None,
        },
{
    assert(zlib_sync_inflate(stream, stream.len() * 4096) == Some(content));
    assert(stream.subrange(0, stream.len() as int) =~= stream);
    let packet = le_u32(9) + stream;
    assert(u32::unpacked_at(packet, 0) == Some((9u32, 4int))) by {
        assert(packet =~= Seq::<u8>::empty() + 9u32.packed() + stream);
        law_u32_roundtrip(9, Seq::empty(), stream);
    }
    assert(packet.subrange(4, packet.len() as int) =~= stream);
}

} // verus!
