use std::io::Write;

use flate2::write::ZlibEncoder;
use flate2::Compression;
use rslsk::message::pack::Pack;
use rslsk::message::peer_requests::{PeerRequests, QueueUpload, UserInfoResponse};
use rslsk::message::server_requests::{FileSearch, LoginRequest, ServerRequests};
use rslsk::message::server_responses::{LoginResponse, PrivilegedUsers};
use rslsk::message::peer_responses::{FileSearchResponse, PeerInit, ResultItem};
use rslsk::message::unpack::Unpack;
use rslsk::peer::{decode_peer_init, decode_peer_message, decode_search_reply, search_result_items, user_info_response, PeerInitMessage, PeerMessage};
use rslsk::server::{decode_server_message, ServerMessage};

fn text(s: &str) -> Vec<u8> {
    String::from(s).pack()
}

#[test]
fn login_request_packs_code_credentials_and_version() {
    let request = ServerRequests::LoginRequest(LoginRequest {
        username: String::from("user"),
        password: String::from("pwd"),
    });
    let mut expected = vec![1, 0, 0, 0];
    expected.extend(text("user"));
    expected.extend(text("pwd"));
    expected.extend(vec![160, 0, 0, 0]);
    assert_eq!(request.pack(), expected);
}

#[test]
fn file_search_packs_code_token_and_query() {
    let request = ServerRequests::FileSearch(FileSearch { token: 0x01020304, query: String::from("leatherface") });
    let mut expected = vec![26, 0, 0, 0, 4, 3, 2, 1];
    expected.extend(text("leatherface"));
    assert_eq!(request.pack(), expected);
}

#[test]
fn queue_upload_packs_code_and_filename() {
    let request = PeerRequests::QueueUpload(QueueUpload { filename: String::from("a\\b.mp3") });
    let mut expected = vec![43, 0, 0, 0];
    expected.extend(text("a\\b.mp3"));
    assert_eq!(request.pack(), expected);
}

#[test]
fn user_info_response_packs_profile() {
    let request = PeerRequests::UserInfoResponse(UserInfoResponse {
        description: String::from("rslsk"),
        has_picture: false,
        total_upload: 1,
        queue_size: 2,
        slots_free: true,
    });
    let mut expected = vec![16, 0, 0, 0];
    expected.extend(text("rslsk"));
    expected.extend(vec![0, 1, 0, 0, 0, 2, 0, 0, 0, 1]);
    assert_eq!(request.pack(), expected);
}

#[test]
fn user_info_reply_is_the_fixed_profile() {
    match user_info_response() {
        PeerRequests::UserInfoResponse(info) => {
            assert_eq!(info.description, "rslsk");
            assert!(!info.has_picture);
            assert_eq!(info.total_upload, 1);
            assert_eq!(info.queue_size, 1);
            assert!(!info.slots_free);
        }
        other => panic!("unexpected {:?}", other),
    }
}

#[test]
fn successful_login_response_carries_address_hash_and_supporter_flag() {
    let mut bytes = vec![1];
    bytes.extend(text("welcome"));
    bytes.extend(vec![12, 0, 0, 0]);
    bytes.extend(text("abcdef"));
    bytes.push(1);
    let response = <LoginResponse>::unpack(&mut bytes);
    assert!(response.success);
    assert_eq!(response.message, "welcome");
    assert_eq!(response.ip, Some(12u32));
    assert_eq!(response.hash, Some(String::from("abcdef")));
    assert_eq!(response.is_supporter, Some(true));
    assert!(bytes.is_empty());
}

#[test]
fn failed_login_response_carries_only_the_message() {
    let mut bytes = vec![0];
    bytes.extend(text("INVALIDPASS"));
    bytes.extend(vec![99]);
    let response = <LoginResponse>::unpack(&mut bytes);
    assert!(!response.success);
    assert_eq!(response.message, "INVALIDPASS");
    assert_eq!(response.ip, None);
    assert_eq!(response.hash, None);
    assert_eq!(response.is_supporter, None);
    assert_eq!(bytes, vec![99]);
}

#[test]
fn privileged_users_reads_a_single_name_whatever_the_count() {
    let mut bytes = vec![3, 0, 0, 0];
    bytes.extend(text("alice"));
    bytes.extend(text("bob"));
    let users = <PrivilegedUsers>::unpack(&mut bytes);
    assert_eq!(users.number_of_users, 3);
    assert_eq!(users.users, vec![String::from("alice")]);
    assert_eq!(bytes, text("bob"));
}

#[test]
fn peer_init_unpacks_name_type_token() {
    let mut bytes = text("bob");
    bytes.extend(text("P"));
    bytes.extend(vec![7, 0, 0, 0]);
    let init = <PeerInit>::unpack(&mut bytes);
    assert_eq!(init.username, "bob");
    assert_eq!(init.connection_type, "P");
    assert_eq!(init.token, 7);
}

#[test]
fn server_messages_are_decoded_by_code() {
    let mut packet = vec![1, 0, 0, 0, 0];
    packet.extend(text("no"));
    match decode_server_message(&packet) {
        Some(ServerMessage::LoginResponse(r)) => assert_eq!(r.message, "no"),
        _ => panic!("expected a login response"),
    }
    let packet = vec![64, 0, 0, 0, 5, 0, 0, 0];
    match decode_server_message(&packet) {
        Some(ServerMessage::RoomList(r)) => assert_eq!(r.number_of_rooms, 5),
        _ => panic!("expected a room list"),
    }
    let packet = vec![104, 0, 0, 0, 30, 0, 0, 0];
    match decode_server_message(&packet) {
        Some(ServerMessage::WishlistInterval(r)) => assert_eq!(r.interval, 30),
        _ => panic!("expected a wishlist interval"),
    }
    let mut packet = vec![18, 0, 0, 0];
    packet.extend(text("carol"));
    packet.extend(text("F"));
    packet.extend(vec![1, 2, 3, 4, 0xd2, 0x04, 0, 0, 9, 0, 0, 0]);
    match decode_server_message(&packet) {
        Some(ServerMessage::ConnectToPeer(r)) => {
            assert_eq!(r.username, "carol");
            assert_eq!(r.connection_type, "F");
            assert_eq!(r.ip, 0x04030201);
            assert_eq!(r.port, 1234);
            assert_eq!(r.token, 9);
        }
        _ => panic!("expected a connect-to-peer"),
    }
}

#[test]
fn unknown_server_code_reports_body_length() {
    let packet = vec![7, 0, 0, 0, 1, 2, 3];
    match decode_server_message(&packet) {
        Some(ServerMessage::Unknown { code, length }) => {
            assert_eq!(code, 7);
            assert_eq!(length, 3);
        }
        _ => panic!("expected an unknown message"),
    }
}

#[test]
fn short_server_packets_do_not_decode() {
    assert!(decode_server_message(&[1, 0, 0]).is_none());
    // A login response without its message.
    assert!(decode_server_message(&[1, 0, 0, 0, 1]).is_none());
    // A parent speed ratio with two bytes of its four.
    assert!(decode_server_message(&[84, 0, 0, 0, 1, 0]).is_none());
}

#[test]
fn peer_init_is_recognised_by_its_one_byte_code() {
    let mut packet = vec![1];
    packet.extend(text("dave"));
    packet.extend(text("P"));
    packet.extend(vec![3, 0, 0, 0]);
    match decode_peer_init(&packet) {
        Some(PeerInitMessage::PeerInit(init)) => {
            assert_eq!(init.username, "dave");
            assert_eq!(init.token, 3);
        }
        _ => panic!("expected a peer init"),
    }
    match decode_peer_init(&[0, 1, 2]) {
        Some(PeerInitMessage::Unknown { code, length }) => {
            assert_eq!(code, 0);
            assert_eq!(length, 2);
        }
        _ => panic!("expected an unknown message"),
    }
    assert!(decode_peer_init(&[]).is_none());
}

fn search_response_content() -> Vec<u8> {
    let mut content = text("erin");
    content.extend(vec![42, 0, 0, 0]);
    content.extend(vec![2, 0, 0, 0]);
    // First item, with one attribute.
    content.push(1);
    content.extend(text("music\\leatherface.mp3"));
    content.extend(vec![0, 1, 0, 0, 0, 0, 0, 0]);
    content.extend(text("mp3"));
    content.extend(vec![1, 0, 0, 0, 0, 0, 0, 0, 64, 1, 0, 0]);
    // Second item, without attributes.
    content.push(1);
    content.extend(text("other.flac"));
    content.extend(vec![5, 0, 0, 0, 0, 0, 0, 0]);
    content.extend(text("flac"));
    content.extend(vec![0, 0, 0, 0]);
    content.push(1);
    content.extend(vec![100, 0, 0, 0, 3, 0, 0, 0]);
    content
}

fn compress(bytes: &[u8]) -> Vec<u8> {
    let mut encoder = ZlibEncoder::new(Vec::new(), Compression::default());
    encoder.write_all(bytes).unwrap();
    encoder.finish().unwrap()
}

#[test]
fn file_search_response_is_read_from_its_decompressed_content() {
    let content = search_response_content();
    let response = FileSearchResponse::parse_content(&content).unwrap();
    assert_eq!(response.username, "erin");
    assert_eq!(response.token, 42);
    assert_eq!(response.results.len(), 2);
    assert_eq!(response.results[0].filename, "music\\leatherface.mp3");
    assert_eq!(response.results[0].file_size, 256);
    assert_eq!(response.results[0].file_extension, "mp3");
    assert_eq!(response.results[0].attributes.len(), 1);
    assert_eq!(response.results[0].attributes[0].code, 0);
    assert_eq!(response.results[0].attributes[0].value, 320);
    assert_eq!(response.results[1].filename, "other.flac");
    assert!(response.results[1].attributes.is_empty());
    assert!(response.slot_free);
    assert_eq!(response.avg_speed, 100);
    assert_eq!(response.queue_length, 3);
    assert!(response.private_results.is_empty());
}

#[test]
fn file_search_response_unpacks_from_a_zlib_body_and_leaves_it() {
    let mut bytes = compress(&search_response_content());
    let before = bytes.clone();
    let response = <FileSearchResponse>::unpack(&mut bytes);
    assert_eq!(response.username, "erin");
    assert_eq!(response.results.len(), 2);
    assert_eq!(bytes, before);
}

#[test]
fn peer_search_response_is_decoded_and_reported() {
    let mut packet = vec![9, 0, 0, 0];
    packet.extend(compress(&search_response_content()));
    let response = match decode_peer_message(&packet) {
        Some(PeerMessage::FileSearchResponse(r)) => r,
        _ => panic!("expected a search response"),
    };
    let items = search_result_items(&response);
    assert_eq!(items.len(), 2);
    assert_eq!(items[0].username, "erin");
    assert_eq!(items[0].filename, "music\\leatherface.mp3");
    assert_eq!(items[1].username, "erin");
    assert_eq!(items[1].filename, "other.flac");
}

#[test]
fn corrupt_search_response_does_not_decode() {
    let packet = vec![9, 0, 0, 0, 1, 2, 3, 4, 5];
    assert!(decode_peer_message(&packet).is_none());
}

#[test]
fn truncated_result_list_does_not_decode() {
    let mut content = text("erin");
    content.extend(vec![42, 0, 0, 0, 3, 0, 0, 0]);
    assert!(FileSearchResponse::parse_content(&content).is_none());
    assert!(<ResultItem>::unpack_at(&[1], 0).is_none());
}

#[test]
fn other_peer_messages_are_decoded_by_code() {
    match decode_peer_message(&[15, 0, 0, 0]) {
        Some(PeerMessage::UserInfoRequest(_)) => (),
        _ => panic!("expected a user info request"),
    }
    let mut packet = vec![46, 0, 0, 0];
    packet.extend(text("song.mp3"));
    match decode_peer_message(&packet) {
        Some(PeerMessage::UploadFailed(failed)) => assert_eq!(failed.filename, "song.mp3"),
        _ => panic!("expected an upload failure"),
    }
    match decode_peer_message(&[5, 0, 0, 0, 1]) {
        Some(PeerMessage::Unknown { code, length }) => {
            assert_eq!(code, 5);
            assert_eq!(length, 1);
        }
        _ => panic!("expected an unknown message"),
    }
}

#[test]
fn search_reply_reports_other_codes_as_unknown() {
    // A failed-upload code with a short body is not read as one here.
    match decode_search_reply(&[46, 0, 0, 0, 9]) {
        Some(PeerMessage::Unknown { code, length }) => {
            assert_eq!(code, 46);
            assert_eq!(length, 1);
        }
        _ => panic!("expected an unknown message"),
    }
    let mut packet = vec![9, 0, 0, 0];
    packet.extend(compress(&search_response_content()));
    match decode_search_reply(&packet) {
        Some(PeerMessage::FileSearchResponse(r)) => assert_eq!(r.token, 42),
        _ => panic!("expected a search response"),
    }
    assert!(decode_search_reply(&[9, 0, 0]).is_none());
}
