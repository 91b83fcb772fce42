use rsa_roundtrip::paths::append_to_path;

#[test]
fn append_adds_the_suffix_without_a_separator() {
    assert_eq!(append_to_path(b"./privkey".to_vec(), ".bin"), b"./privkey.bin");
}

#[test]
fn append_to_empty_path_gives_the_suffix() {
    assert_eq!(append_to_path(Vec::new(), ".bin"), b".bin");
}

#[test]
fn append_of_nothing_keeps_the_path() {
    assert_eq!(append_to_path(b"keys/priv.pem".to_vec(), ""), b"keys/priv.pem");
}

#[test]
fn append_keeps_an_existing_extension() {
    assert_eq!(append_to_path(b"priv.pem".to_vec(), ".bin"), b"priv.pem.bin");
}

#[test]
fn append_keeps_bytes_that_are_no_text() {
    assert_eq!(
        append_to_path(vec![0x6b, 0xff], ".bin"),
        [0x6b, 0xff, 0x2e, 0x62, 0x69, 0x6e]
    );
    assert_eq!(append_to_path(vec![0xff, 0x00, 0x80], ".bin"), [0xff, 0x00, 0x80, 0x2e, 0x62, 0x69, 0x6e]);
}

#[test]
fn append_adds_the_suffix_as_utf8() {
    assert_eq!(append_to_path(b"k".to_vec(), "\u{e9}\u{20ac}"), [b'k', 0xc3, 0xa9, 0xe2, 0x82, 0xac]);
}
