use buffer_redux::Buffer;
use rslsk::message::pack::Pack;
use rslsk::protocol::message::{login_request, Message};
use rslsk::protocol::slsk_buffer::SlskBuffer;
use rslsk::protocol::packet::{pending_frame_size, receive, take_message, Received};

fn feed(memory: &mut Buffer, bytes: &[u8]) -> Option<Vec<u8>> {
    match receive(memory, bytes) {
        Received::Frame(message) => message,
        Received::NoSize => panic!("no size yet"),
        Received::SizeOverflow => panic!("size overflows"),
    }
}

#[test]
fn handle_small_message() {
    let mut input = vec![];
    input.extend(16u32.pack());
    input.extend(1u32.pack());
    input.extend(String::from("12345678").pack());
    let packed = input.pack();

    let mut memory = Buffer::new();
    let actual = feed(&mut memory, packed.as_slice()).unwrap();
    assert_eq!(&actual[0..packed.len()], packed);
}

#[test]
fn handle_message_split_in_two_parts() {
    let mut first_part = vec![];
    first_part.extend(16u32.pack());
    first_part.extend(1u32.pack());

    let mut second_part = vec![];
    second_part.extend(String::from("12345678").pack());

    let mut memory = Buffer::new();
    assert!(feed(&mut memory, first_part.as_slice()).is_none());
    let actual = feed(&mut memory, second_part.as_slice()).unwrap();
    let expected = [first_part.as_slice(), second_part.as_slice()].concat();
    assert_eq!(&actual[0..first_part.len() + second_part.len()], &expected[0..expected.len()]);
}

#[test]
fn handle_two_messages_in_one_packet() {
    let mut input = vec![];
    input.extend(16u32.pack());
    input.extend(1u32.pack());
    input.extend(String::from("12345678").pack());

    let mut memory = Buffer::new();
    let message = [input.as_slice(), input.as_slice()].concat();
    let first = feed(&mut memory, &message).unwrap();
    assert_eq!(&first[0..input.len()], input.as_slice());
}

#[test]
fn second_message_stays_buffered_until_taken() {
    let mut input = vec![];
    input.extend(4u32.pack());
    input.extend(7u32.pack());
    let message = [input.as_slice(), input.as_slice()].concat();
    let mut memory = Buffer::new();
    memory.push_bytes(&message);
    assert_eq!(take_message(&mut memory), Some(input.clone()));
    assert_eq!(memory.buf(), input.as_slice());
    assert_eq!(take_message(&mut memory), Some(input.clone()));
    assert_eq!(memory.len(), 0);
}

#[test]
fn incomplete_frame_is_left_in_place() {
    let mut memory = Buffer::new();
    memory.push_bytes(&[10, 0, 0, 0, 1, 2, 3]);
    assert_eq!(take_message(&mut memory), None);
    assert_eq!(memory.buf(), &[10, 0, 0, 0, 1, 2, 3]);
}

#[test]
fn pending_frame_size_needs_four_bytes() {
    let mut memory = Buffer::new();
    memory.push_bytes(&[5, 0, 0]);
    assert_eq!(pending_frame_size(&memory), None);
    memory.push_bytes(&[0]);
    assert_eq!(pending_frame_size(&memory), Some(5));
}

#[test]
fn framed_login_is_taken_whole() {
    let login = login_request("a", "bc").as_buffer();
    let mut memory = Buffer::new();
    memory.push_bytes(login.buf());
    memory.push_bytes(&[1, 2]);
    assert_eq!(take_message(&mut memory), Some(login.buf().to_vec()));
    assert_eq!(memory.buf(), &[1, 2]);
}

#[test]
fn receive_reports_a_missing_size_and_keeps_the_bytes() {
    let mut memory = Buffer::new();
    assert!(matches!(receive(&mut memory, &[3, 0]), Received::NoSize));
    assert_eq!(memory.buf(), &[3, 0]);
    assert!(matches!(receive(&mut memory, &[0, 0, 9]), Received::Frame(None)));
    assert_eq!(memory.buf(), &[3, 0, 0, 0, 9]);
    match receive(&mut memory, &[8, 7, 6]) {
        Received::Frame(Some(m)) => assert_eq!(m, vec![3, 0, 0, 0, 9, 8, 7]),
        _ => panic!("expected a frame"),
    }
    assert_eq!(memory.buf(), &[6]);
}

#[test]
fn receive_reports_a_size_that_overflows() {
    let mut memory = Buffer::new();
    assert!(matches!(receive(&mut memory, &[0xfd, 0xff, 0xff, 0xff]), Received::SizeOverflow));
    assert_eq!(memory.len(), 4);
}

#[test]
fn body_builder_frame_is_taken_whole() {
    let body = SlskBuffer::new().append_u32(26).append_string("q");
    let frame = body.to_buffer();
    let mut memory = Buffer::new();
    match receive(&mut memory, frame.buf()) {
        Received::Frame(Some(m)) => {
            assert_eq!(m, frame.buf().to_vec());
            assert_eq!(&m[4..], body.raw_buffer().buf());
        }
        _ => panic!("expected a frame"),
    }
}
