use rslsk::message::pack::Pack;
use rslsk::message::unpack::Unpack;

#[test]
fn none() {}

#[test]
fn u32_packs_little_endian() {
    assert_eq!(0x04030201u32.pack(), vec![1, 2, 3, 4]);
    assert_eq!(16u32.pack(), vec![16, 0, 0, 0]);
}

#[test]
fn u8_and_bool_pack_to_one_byte() {
    assert_eq!(7u8.pack(), vec![7]);
    assert_eq!(true.pack(), vec![1]);
    assert_eq!(false.pack(), vec![0]);
}

#[test]
fn string_packs_byte_count_then_utf8() {
    assert_eq!(String::from("ab").pack(), vec![2, 0, 0, 0, b'a', b'b']);
    // "é" is two bytes of UTF-8: the count is of bytes, not of chars.
    assert_eq!(String::from("é").pack(), vec![2, 0, 0, 0, 0xc3, 0xa9]);
    assert_eq!(String::new().pack(), vec![0, 0, 0, 0]);
}

#[test]
fn byte_vector_packs_length_then_bytes() {
    assert_eq!(vec![9u8, 8, 7].pack(), vec![3, 0, 0, 0, 9, 8, 7]);
    assert_eq!(Vec::<u8>::new().pack(), vec![0, 0, 0, 0]);
}

#[test]
fn unpack_removes_what_it_reads() {
    let mut bytes = vec![1, 2, 3, 4, 9];
    assert_eq!(<u32>::unpack(&mut bytes), 0x04030201);
    assert_eq!(bytes, vec![9]);
    assert_eq!(<u8>::unpack(&mut bytes), 9);
    assert!(bytes.is_empty());
}

#[test]
fn bool_unpacks_only_one_as_true() {
    let mut bytes = vec![1, 0, 2];
    assert!(<bool>::unpack(&mut bytes));
    assert!(!<bool>::unpack(&mut bytes));
    assert!(!<bool>::unpack(&mut bytes));
}

#[test]
fn u64_unpacks_little_endian() {
    let mut bytes = vec![1, 0, 0, 0, 2, 0, 0, 0];
    assert_eq!(<u64>::unpack(&mut bytes), 0x0000000200000001);
}

#[test]
fn string_roundtrips_through_the_wire() {
    for text in ["", "leatherface", "héllo wörld", "日本"] {
        let mut bytes = String::from(text).pack();
        bytes.push(42);
        assert_eq!(<String>::unpack(&mut bytes), text);
        assert_eq!(bytes, vec![42]);
    }
}

#[test]
fn u32_u8_bool_roundtrip() {
    for x in [0u32, 1, 255, 256, 65536, u32::MAX] {
        let mut bytes = x.pack();
        assert_eq!(<u32>::unpack(&mut bytes), x);
    }
    for x in [0u8, 1, 200, 255] {
        let mut bytes = x.pack();
        assert_eq!(<u8>::unpack(&mut bytes), x);
    }
    for b in [true, false] {
        let mut bytes = b.pack();
        assert_eq!(<bool>::unpack(&mut bytes), b);
    }
}

#[test]
fn invalid_utf8_decodes_lossily() {
    let mut bytes = vec![3, 0, 0, 0, b'a', 0xff, b'b'];
    assert_eq!(<String>::unpack(&mut bytes), "a\u{fffd}b");
}

#[test]
fn unpack_at_reports_running_out() {
    assert!(<u32>::unpack_at(&[1, 2, 3], 0).is_none());
    assert!(<u8>::unpack_at(&[], 0).is_none());
    // The count announces 5 bytes, only 2 follow.
    assert!(<String>::unpack_at(&[5, 0, 0, 0, b'a', b'b'], 0).is_none());
    assert_eq!(<u32>::unpack_at(&[0, 7, 0, 0, 0], 1), Some((7, 5)));
}
