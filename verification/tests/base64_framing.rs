use udp_over_https::base64::{
    base_64_decode_string_to_bytes, base_64_encode_bytes_to_string,
    try_base_64_decode_string_to_bytes,
};

#[test]
fn encodes_rfc4648_vectors() {
    assert_eq!(base_64_encode_bytes_to_string(b""), "");
    assert_eq!(base_64_encode_bytes_to_string(b"f"), "Zg==");
    assert_eq!(base_64_encode_bytes_to_string(b"fo"), "Zm8=");
    assert_eq!(base_64_encode_bytes_to_string(b"foo"), "Zm9v");
    assert_eq!(base_64_encode_bytes_to_string(b"foob"), "Zm9vYg==");
    assert_eq!(base_64_encode_bytes_to_string(b"fooba"), "Zm9vYmE=");
    assert_eq!(base_64_encode_bytes_to_string(b"foobar"), "Zm9vYmFy");
}

#[test]
fn encodes_with_standard_alphabet() {
    assert_eq!(base_64_encode_bytes_to_string(&[0xfb, 0xff, 0xbf]), "+/+/");
    assert_eq!(base_64_encode_bytes_to_string(b"hello world~\n"), "aGVsbG8gd29ybGR+Cg==");
}

#[test]
fn encoded_length_is_four_per_started_triple() {
    for n in 0..20usize {
        let bytes = vec![7u8; n];
        assert_eq!(base_64_encode_bytes_to_string(&bytes).len(), (n + 2) / 3 * 4);
    }
}

#[test]
fn decodes_padded_text() {
    assert_eq!(base_64_decode_string_to_bytes("aGVsbG8gd29ybGR+Cg=="), b"hello world~\n".to_vec());
    assert_eq!(base_64_decode_string_to_bytes("Zm9vYmFy"), b"foobar".to_vec());
    assert_eq!(base_64_decode_string_to_bytes(""), Vec::<u8>::new());
}

#[test]
fn decodes_text_with_padding_left_out() {
    assert_eq!(base_64_decode_string_to_bytes("Zg"), b"f".to_vec());
    assert_eq!(base_64_decode_string_to_bytes("Zg="), b"f".to_vec());
    assert_eq!(base_64_decode_string_to_bytes("Zm8"), b"fo".to_vec());
}

#[test]
fn rejects_text_that_is_not_base64() {
    assert_eq!(try_base_64_decode_string_to_bytes("Zg=a"), None);
    assert_eq!(try_base_64_decode_string_to_bytes("a"), None);
    assert_eq!(try_base_64_decode_string_to_bytes("Zm9v!"), None);
    assert_eq!(try_base_64_decode_string_to_bytes("Zh=="), None);
    assert_eq!(try_base_64_decode_string_to_bytes("Zm9v="), None);
    assert_eq!(try_base_64_decode_string_to_bytes("Zg==="), None);
    assert_eq!(try_base_64_decode_string_to_bytes("===="), None);
    assert_eq!(try_base_64_decode_string_to_bytes("Zg==Zg=="), None);
    assert_eq!(try_base_64_decode_string_to_bytes("Zm9\u{e9}"), None);
}

#[test]
fn try_decode_accepts_what_decode_accepts() {
    assert_eq!(try_base_64_decode_string_to_bytes("Zm9vYg=="), Some(b"foob".to_vec()));
}

#[test]
fn every_byte_string_comes_back_unchanged() {
    let all: Vec<u8> = (0..=255u8).collect();
    for n in 0..all.len() {
        let bytes = &all[..n];
        let text = base_64_encode_bytes_to_string(bytes);
        assert_eq!(base_64_decode_string_to_bytes(&text), bytes.to_vec());
        assert_eq!(try_base_64_decode_string_to_bytes(&text), Some(bytes.to_vec()));
    }
}

#[test]
fn encoding_uses_only_alphabet_and_padding() {
    let all: Vec<u8> = (0..=255u8).rev().collect();
    let text = base_64_encode_bytes_to_string(&all);
    assert!(text
        .chars()
        .all(|c| c.is_ascii_alphanumeric() || c == '+' || c == '/' || c == '='));
}

#[test]
fn whole_groups_encode_independently() {
    let a = b"abcdef";
    let b = b"gh";
    let joined = [&a[..], &b[..]].concat();
    assert_eq!(
        base_64_encode_bytes_to_string(&joined),
        base_64_encode_bytes_to_string(a) + &base_64_encode_bytes_to_string(b)
    );
}
