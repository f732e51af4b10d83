//! What the client makes of the messages the server sends it.
use vstd::prelude::*;
use vstd::utf8::encode_utf8;
use crate::message::unpack::Unpack;
use crate::message::pack::Pack;
use crate::message::wire::{le_u32, text_bytes, text_field};
use crate::message::laws::{
    law_u32_roundtrip, law_login_response_reads_back, law_connect_to_peer_reads_back,
    login_response_bytes, lemma_text_field_at,
};
use crate::message::server_responses::{
    LoginResponse, LoginResponseView, ConnectToPeer, ConnectToPeerView, RoomList,
    PrivilegedUsers, PrivilegedUsersView, ParentMinSpeed, ParentSpeedRatio, WishlistInterval,
    ExcludedSearchPhrases, ExcludedSearchPhrasesView,
};

verus! {

/// A decoded message from the server.
pub enum ServerMessage {
    LoginResponse(LoginResponse),
    ConnectToPeer(ConnectToPeer),
    RoomList(RoomList),
    PrivilegedUsers(PrivilegedUsers),
    ParentMinSpeed(ParentMinSpeed),
    ParentSpeedRatio(ParentSpeedRatio),
    WishlistInterval(WishlistInterval),
    ExcludedSearchPhrases(ExcludedSearchPhrases),
    /// A message with another code, and the number of bytes after the code.
    Unknown { code: u32, length: usize },
}

/// The content of a `ServerMessage`.
pub enum ServerMessageView {
    LoginResponse(LoginResponseView),
    ConnectToPeer(ConnectToPeerView),
    RoomList(u32),
    PrivilegedUsers(PrivilegedUsersView),
    ParentMinSpeed(u32),
    ParentSpeedRatio(u32),
    WishlistInterval(u32),
    ExcludedSearchPhrases(ExcludedSearchPhrasesView),
    Unknown { code: u32, length: nat },
}

impl View for ServerMessage {
    type V = ServerMessageView;

    open spec fn view(&self) -> ServerMessageView {
        match self {
            ServerMessage::LoginResponse(m) => ServerMessageView::LoginResponse(m@),
            ServerMessage::ConnectToPeer(m) => ServerMessageView::ConnectToPeer(m@),
            ServerMessage::RoomList(m) => ServerMessageView::RoomList(m@),
            ServerMessage::PrivilegedUsers(m) => ServerMessageView::PrivilegedUsers(m@),
            ServerMessage::ParentMinSpeed(m) => ServerMessageView::ParentMinSpeed(m@),
            ServerMessage::ParentSpeedRatio(m) => ServerMessageView::ParentSpeedRatio(m@),
            ServerMessage::WishlistInterval(m) => ServerMessageView::WishlistInterval(m@),
            ServerMessage::ExcludedSearchPhrases(m) => ServerMessageView::ExcludedSearchPhrases(
                m@,
            ),
            ServerMessage::Unknown { code, length } => ServerMessageView::Unknown {
                code: *code,
                length: *length as nat,
            },
        }
    }
}

/// The message in a packet from the server: a 32-bit code, then the body.
/// Code 1 is a login response, 18 a request to connect to a peer, 64 the
/// room list, 69 the privileged users, 83 the parent's minimum speed, 84 the
/// parent speed ratio, 104 the wishlist interval, 160 the excluded search
/// phrases; other codes are reported with the length of their body. `None`
/// where the packet is too short for its code or its body.
pub open spec fn server_message(packet: Seq<u8>) -> Option<ServerMessageView> {
    match u32::unpacked_at(packet, 0) {
        None => None,
        Some((code, p)) => if code == 1 {
            match LoginResponse::unpacked_at(packet, p) {
                Some((m, _)) => Some(ServerMessageView::LoginResponse(m)),
                None => None,
            }
        } else if code == 18 {
            match ConnectToPeer::unpacked_at(packet, p) {
                Some((m, _)) => Some(ServerMessageView::ConnectToPeer(m)),
                None => None,
            }
        } else if code == 64 {
            match RoomList::unpacked_at(packet, p) {
                Some((m, _)) => Some(ServerMessageView::RoomList(m)),
                None => None,
            }
        } else if code == 69 {
            match PrivilegedUsers::unpacked_at(packet, p) {
                Some((m, _)) => Some(ServerMessageView::PrivilegedUsers(m)),
                None => None,
            }
        } else if code == 83 {
            match ParentMinSpeed::unpacked_at(packet, p) {
                Some((m, _)) => Some(ServerMessageView::ParentMinSpeed(m)),
                None => None,
            }
        } else if code == 84 {
            match ParentSpeedRatio::unpacked_at(packet, p) {
                Some((m, _)) => Some(ServerMessageView::ParentSpeedRatio(m)),
                None => None,
            }
        } else if code == 104 {
            match WishlistInterval::unpacked_at(packet, p) {
                Some((m, _)) => Some(ServerMessageView::WishlistInterval(m)),
                None => None,
            }
        } else if code == 160 {
            match ExcludedSearchPhrases::unpacked_at(packet, p) {
                Some((m, _)) => Some(ServerMessageView::ExcludedSearchPhrases(m)),
                None => None,
            }
        } else {
            Some(ServerMessageView::Unknown { code, length: (packet.len() - 4) as nat })
        },
    }
}

/// Decodes a packet from the server.
pub fn decode_server_message(packet: &[u8]) -> (r: Option<ServerMessage>)
    ensures
        match server_message(packet@) {
            None => r is None,
            Some(v) => r matches Some(m) && m@ == v,
        },
{
    let (code, p) = match u32::unpack_at(packet, 0) {
        Some(x) => x,
        None => return None,
    };
    if code == 1 {
        match LoginResponse::unpack_at(packet, p) {
            Some((m, _)) => Some(ServerMessage::LoginResponse(m)),
            None => None,
        }
    } else if code == 18 {
        match ConnectToPeer::unpack_at(packet, p) {
            Some((m, _)) => Some(ServerMessage::ConnectToPeer(m)),
            None => None,
        }
    } else if code == 64 {
        match RoomList::unpack_at(packet, p) {
            Some((m, _)) => Some(ServerMessage::RoomList(m)),
            None => None,
        }
    } else if code == 69 {
        match PrivilegedUsers::unpack_at(packet, p) {
            Some((m, _)) => Some(ServerMessage::PrivilegedUsers(m)),
            None => None,
        }
    } else if code == 83 {
        match ParentMinSpeed::unpack_at(packet, p) {
            Some((m, _)) => Some(ServerMessage::ParentMinSpeed(m)),
            None => None,
        }
    } else if code == 84 {
        match ParentSpeedRatio::unpack_at(packet, p) {
            Some((m, _)) => Some(ServerMessage::ParentSpeedRatio(m)),
            None => None,
        }
    } else if code == 104 {
        match WishlistInterval::unpack_at(packet, p) {
            Some((m, _)) => Some(ServerMessage::WishlistInterval(m)),
            None => None,
        }
    } else if code == 160 {
        match ExcludedSearchPhrases::unpack_at(packet, p) {
            Some((m, _)) => Some(ServerMessage::ExcludedSearchPhrases(m)),
            None => None,
        }
    } else {
        Some(ServerMessage::Unknown { code, length: packet.len() - 4 })
    }
}

} // verus!

verus! {

/// A packet holding code 1 and a login response decodes to that response,
/// read from the bytes after the code as it would be read on its own.
#[verifier::rlimit(60)]
pub proof fn law_server_login_response_decodes(
    success: bool,
    message: Seq<char>,
    ip: u32,
    hash: Seq<char>,
    is_supporter: bool,
    post: Seq<u8>,
)
    requires
        text_bytes(message).len() <= u32::MAX,
        text_bytes(hash).len() <= u32::MAX,
    ensures
        server_message(le_u32(1) + login_response_bytes(success, message, ip, hash, is_supporter) + post)
            == Some(
            ServerMessageView::LoginResponse(
                LoginResponseView {
                    success,
                    message,
                    ip: if success { Some(ip) } else { None },
                    hash: if success { Some(hash) } else { None },
                    is_supporter: if success { Some(is_supporter) } else { None },
                },
            ),
        ),
{
    let body = login_response_bytes(success, message, ip, hash, is_supporter);
    let packet = le_u32(1) + body + post;
    assert(packet =~= Seq::<u8>::empty() + (1u32).packed() + (body + post));
    law_u32_roundtrip(1, Seq::empty(), body + post);
    law_login_response_reads_back(success, message, ip, hash, is_supporter, le_u32(1), post);
}

/// A packet holding code 18 and a request to connect to a peer decodes to
/// that request.
#[verifier::rlimit(60)]
pub proof fn law_server_connect_to_peer_decodes(
    username: Seq<char>,
    connection_type: Seq<char>,
    ip: u32,
    port: u32,
    token: u32,
    post: Seq<u8>,
)
    requires
        text_bytes(username).len() <= u32::MAX,
        text_bytes(connection_type).len() <= u32::MAX,
    ensures
        ({
            let body = text_field(username) + text_field(connection_type) + le_u32(ip) + le_u32(
                port,
            ) + le_u32(token);
            server_message(le_u32(18) + body + post) == Some(
                ServerMessageView::ConnectToPeer(
                    ConnectToPeerView { username, connection_type, ip, port, token },
                ),
            )
        }),
{
    let body = text_field(username) + text_field(connection_type) + le_u32(ip) + le_u32(port)
        + le_u32(token);
    let packet = le_u32(18) + body + post;
    let view = ConnectToPeerView { username, connection_type, ip, port, token };
    assert(u32::unpacked_at(packet, 0) == Some((18u32, 4int))) by {
        assert(packet =~= Seq::<u8>::empty() + (18u32).packed() + (body + post));
        law_u32_roundtrip(18, Seq::empty(), body + post);
    }
    assert(ConnectToPeer::unpacked_at(packet, 4) == Some((view, 4 + body.len() as int))) by {
        law_connect_to_peer_reads_back(username, connection_type, ip, port, token, le_u32(18), post);
    }
    lemma_connect_to_peer_decodes(packet, view, 4 + body.len() as int);
}

/// A packet whose code is 18 and whose body reads as a request to connect to
/// a peer decodes to that request.
proof fn lemma_connect_to_peer_decodes(packet: Seq<u8>, view: ConnectToPeerView, end: int)
    requires
        u32::unpacked_at(packet, 0) == Some((18u32, 4int)),
        ConnectToPeer::unpacked_at(packet, 4) == Some((view, end)),
    ensures
        server_message(packet) == Some(ServerMessageView::ConnectToPeer(view)),
{
}

} // verus!

verus! {

/// A packet of a code and a 32-bit value reads the code at 0 and the value at 4.
proof fn lemma_code_and_value(code: u32, x: u32, post: Seq<u8>)
    ensures
        u32::unpacked_at(le_u32(code) + le_u32(x) + post, 0) == Some((code, 4int)),
        u32::unpacked_at(le_u32(code) + le_u32(x) + post, 4) == Some((x, 8int)),
{
    let packet = le_u32(code) + le_u32(x) + post;
    assert(packet =~= Seq::<u8>::empty() + code.packed() + (le_u32(x) + post));
    law_u32_roundtrip(code, Seq::empty(), le_u32(x) + post);
    assert(packet =~= le_u32(code) + x.packed() + post);
    law_u32_roundtrip(x, le_u32(code), post);
}

/// The server's one-number messages decode by their code: 64 to the number
/// of rooms, 83 to the parent's minimum speed, 84 to the parent speed ratio,
/// 104 to the wishlist interval, each the 32-bit value after the code.
pub proof fn law_server_number_messages_decode(x: u32, post: Seq<u8>)
    ensures
        server_message(le_u32(64) + le_u32(x) + post) == Some(ServerMessageView::RoomList(x)),
        server_message(le_u32(83) + le_u32(x) + post) == Some(
            ServerMessageView::ParentMinSpeed(x),
        ),
        server_message(le_u32(84) + le_u32(x) + post) == Some(
            ServerMessageView::ParentSpeedRatio(x),
        ),
        server_message(le_u32(104) + le_u32(x) + post) == Some(
            ServerMessageView::WishlistInterval(x),
        ),
{
    lemma_code_and_value(64, x, post);
    lemma_code_and_value(83, x, post);
    lemma_code_and_value(84, x, post);
    lemma_code_and_value(104, x, post);
}

/// A packet of a code, a count and one text reads the code at 0, the count at
/// 4 and the text at 8.
proof fn lemma_code_count_text(code: u32, count: u32, text: Seq<char>, post: Seq<u8>)
    requires
        encode_utf8(text).len() <= u32::MAX,
    ensures
        ({
            let field = le_u32(encode_utf8(text).len() as u32) + encode_utf8(text);
            let packet = le_u32(code) + le_u32(count) + field + post;
            &&& u32::unpacked_at(packet, 0) == Some((code, 4int))
            &&& u32::unpacked_at(packet, 4) == Some((count, 8int))
            &&& String::unpacked_at(packet, 8) == Some((text, 8 + field.len() as int))
        }),
{
    let field = le_u32(encode_utf8(text).len() as u32) + encode_utf8(text);
    let packet = le_u32(code) + le_u32(count) + field + post;
    assert(u32::unpacked_at(packet, 0) == Some((code, 4int)) && u32::unpacked_at(packet, 4)
        == Some((count, 8int))) by {
        assert(packet =~= le_u32(code) + le_u32(count) + (field + post));
        lemma_code_and_value(code, count, field + post);
    }
    assert(field == text_field(text));
    lemma_text_field_at(text, le_u32(code) + le_u32(count), post);
}

/// A packet whose code is 69 and whose count and name read at 4 and 8
/// decodes to the privileged users: that count and that one name.
proof fn lemma_privileged_users_decode(packet: Seq<u8>, count: u32, name: Seq<char>, end: int)
    requires
        u32::unpacked_at(packet, 0) == Some((69u32, 4int)),
        u32::unpacked_at(packet, 4) == Some((count, 8int)),
        String::unpacked_at(packet, 8) == Some((name, end)),
    ensures
        server_message(packet) == Some(
            ServerMessageView::PrivilegedUsers(
                PrivilegedUsersView { number_of_users: count, users: seq![name] },
            ),
        ),
{
}

/// A packet whose code is 160 and whose count and phrase read at 4 and 8
/// decodes to the excluded phrases: that count and that one phrase.
proof fn lemma_excluded_phrases_decode(packet: Seq<u8>, count: u32, phrase: Seq<char>, end: int)
    requires
        u32::unpacked_at(packet, 0) == Some((160u32, 4int)),
        u32::unpacked_at(packet, 4) == Some((count, 8int)),
        String::unpacked_at(packet, 8) == Some((phrase, end)),
    ensures
        server_message(packet) == Some(
            ServerMessageView::ExcludedSearchPhrases(
                ExcludedSearchPhrasesView { count, phrases: seq![phrase] },
            ),
        ),
{
}

/// The server's list messages decode by their code: 69 to the privileged
/// users, 160 to the excluded search phrases, each the count after the code
/// and the one text after the count.
pub proof fn law_server_list_messages_decode(count: u32, text: Seq<char>, post: Seq<u8>)
    requires
        encode_utf8(text).len() <= u32::MAX,
    ensures
        ({
            let field = le_u32(encode_utf8(text).len() as u32) + encode_utf8(text);
            &&& server_message(le_u32(69) + le_u32(count) + field + post) == Some(
                ServerMessageView::PrivilegedUsers(
                    PrivilegedUsersView { number_of_users: count, users: seq![text] },
                ),
            )
            &&& server_message(le_u32(160) + le_u32(count) + field + post) == Some(
                ServerMessageView::ExcludedSearchPhrases(
                    ExcludedSearchPhrasesView { count, phrases: seq![text] },
                ),
            )
        }),
{
    let field = le_u32(encode_utf8(text).len() as u32) + encode_utf8(text);
    lemma_code_count_text(69, count, text, post);
    lemma_privileged_users_decode(
        le_u32(69) + le_u32(count) + field + post,
        count,
        text,
        8 + field.len() as int,
    );
    lemma_code_count_text(160, count, text, post);
    lemma_excluded_phrases_decode(
        le_u32(160) + le_u32(count) + field + post,
        count,
        text,
        8 + field.len() as int,
    );
}

} // verus!
