use buf_redux::Buffer;
use rslsk::command_handlers::search_command_handler::new_file_search;
use rslsk::command_handlers::{login_message, login_request};
use rslsk::digest::{hash_credentials, to_lower_hex};
use rslsk::events::SearchResultItem;
use rslsk::message::pack::Pack;
use rslsk::message::server_requests::ServerRequests;
use rslsk::message::server_responses::{LoginResponse, ServerResponses};
use rslsk::message::Message as DirectMessage;
use rslsk::protocol::input_message::InputMessage;
use rslsk::protocol::message::{login_request as framed_login, Message};
use rslsk::protocol::slsk_buffer::SlskBuffer;
use rslsk::results::SearchResultStore;

fn item(user: &str, file: &str) -> SearchResultItem {
    SearchResultItem { username: String::from(user), filename: String::from(file) }
}

#[test]
fn search_results_accumulate_per_token() {
    let mut store = SearchResultStore::new();
    assert!(store.get(1).is_empty());
    store.start(1);
    store.start(2);
    assert!(store.get(1).is_empty());
    store.save(1, item("a", "x"));
    store.save(2, item("b", "y"));
    store.save(1, item("c", "z"));
    let results = store.get(1);
    assert_eq!(results.len(), 2);
    assert_eq!(results[0].username, "a");
    assert_eq!(results[1].filename, "z");
    assert_eq!(store.get(2).len(), 1);
    assert!(store.get(3).is_empty());
    assert!(store.contains(2));
    assert!(!store.contains(3));
}

#[test]
fn starting_a_search_again_clears_its_results() {
    let mut store = SearchResultStore::new();
    store.start(5);
    store.save(5, item("a", "x"));
    store.start(5);
    assert!(store.get(5).is_empty());
}

#[test]
fn hex_is_lowercase_two_digits_per_byte() {
    assert_eq!(to_lower_hex(&[0x00, 0x0f, 0xa0, 0xff]), "000fa0ff");
    assert_eq!(to_lower_hex(&[]), "");
}

#[test]
fn credentials_hash_is_md5_of_name_then_password() {
    // md5("abc")
    assert_eq!(hash_credentials("a", "bc"), "900150983cd24fb0d6963f7d28e17f72");
    // md5("")
    assert_eq!(hash_credentials("", ""), "d41d8cd98f00b204e9800998ecf8427e");
}

fn expected_login_frame() -> Vec<u8> {
    let mut body = vec![1, 0, 0, 0];
    body.extend(String::from("a").pack());
    body.extend(String::from("bc").pack());
    body.extend(vec![160, 0, 0, 0]);
    body.extend(String::from("900150983cd24fb0d6963f7d28e17f72").pack());
    body.extend(vec![17, 0, 0, 0]);
    let mut frame = (body.len() as u32).pack();
    frame.extend(body);
    frame
}

#[test]
fn login_frames_agree_and_carry_the_hash() {
    let direct: Buffer = DirectMessage::LoginRequest("a", "bc").as_buffer();
    let built: Buffer = framed_login("a", "bc").as_buffer();
    assert_eq!(direct.buf(), expected_login_frame().as_slice());
    assert_eq!(built.buf(), expected_login_frame().as_slice());
}

#[test]
fn slsk_buffer_frames_its_body() {
    let body = SlskBuffer::new().append_u32(7).append_string("hi");
    assert_eq!(body.raw_buffer().buf(), &[7, 0, 0, 0, 2, 0, 0, 0, b'h', b'i']);
    assert_eq!(body.to_buffer().buf(), &[10, 0, 0, 0, 7, 0, 0, 0, 2, 0, 0, 0, b'h', b'i']);
    assert_eq!(SlskBuffer::new().to_buffer().buf(), &[0, 0, 0, 0]);
}

#[test]
fn input_message_code_follows_the_size() {
    let message = <dyn InputMessage>::from(vec![8, 0, 0, 0, 26, 0, 0, 0, 1, 2]);
    assert_eq!(message.code(), 26);
    let boxed: Box<dyn InputMessage> = <dyn InputMessage>::from(vec![8, 0, 0, 0, 9, 1, 0, 0]);
    assert_eq!(boxed.code(), 265);
}

#[test]
fn login_request_holds_the_credentials() {
    match login_request(String::from("user"), String::from("pwd")) {
        ServerRequests::LoginRequest(login) => {
            assert_eq!(login.username, "user");
            assert_eq!(login.password, "pwd");
        }
        _ => panic!("expected a login request"),
    }
}

#[test]
fn should_return_success_when_login_succeeded() {
    match login_request(String::from("user"), String::from("pwd")) {
        ServerRequests::LoginRequest(_) => (),
        _ => panic!("expected a login request"),
    }
    let response = ServerResponses::LoginResponse(LoginResponse {
        success: true,
        message: String::from("ok"),
        ip: Some(12u32),
        hash: None,
        is_supporter: None,
    });
    assert_eq!(login_message(response), "ok");
}

#[test]
fn new_search_keeps_the_query() {
    let search = new_file_search(String::from("leatherface"));
    assert_eq!(search.query, "leatherface");
}
