use shogi_kifu::encoding::{choose_text, decode_kif_bytes, DecodeError};

#[test]
fn utf8_is_taken_first() {
    let bytes = "先手：Alice\n".as_bytes().to_vec();
    assert_eq!(decode_kif_bytes(bytes), Ok("先手：Alice\n".to_string()));
    assert_eq!(decode_kif_bytes(Vec::new()), Ok(String::new()));
    assert_eq!(decode_kif_bytes(b"plain ascii".to_vec()), Ok("plain ascii".to_string()));
}

#[test]
fn shift_jis_is_taken_second() {
    // "先手" in Shift_JIS.
    let bytes = vec![0x90, 0xe6, 0x8e, 0xe8];
    assert_eq!(decode_kif_bytes(bytes), Ok("先手".to_string()));
}

#[test]
fn euc_jp_is_taken_third() {
    // Two-byte EUC-JP whose second byte is no Shift_JIS trail byte.
    let (expected, _, bad) = encoding_rs::EUC_JP.decode(&[0xe0, 0xfe]);
    assert!(!bad);
    let (_, _, sjis_bad) = encoding_rs::SHIFT_JIS.decode(&[0xe0, 0xfe]);
    assert!(sjis_bad);
    assert_eq!(decode_kif_bytes(vec![0xe0, 0xfe]), Ok(expected.into_owned()));
}

#[test]
fn bytes_of_no_known_encoding_are_refused() {
    assert_eq!(decode_kif_bytes(vec![0xff, 0xff]), Err(DecodeError::UnknownEncoding));
}

#[test]
fn choosing_among_decodings() {
    let s = |t: &str| t.to_string();
    assert_eq!(choose_text(Some(s("u")), (s("s"), false), (s("e"), false)), Ok(s("u")));
    assert_eq!(choose_text(Some(s("u")), (s("s"), true), (s("e"), true)), Ok(s("u")));
    assert_eq!(choose_text(None, (s("s"), false), (s("e"), false)), Ok(s("s")));
    assert_eq!(choose_text(None, (s("s"), true), (s("e"), false)), Ok(s("e")));
    assert_eq!(
        choose_text(None, (s("s"), true), (s("e"), true)),
        Err(DecodeError::UnknownEncoding)
    );
}

#[test]
fn decode_error_as_text() {
    assert_eq!(DecodeError::UnknownEncoding.message(), "文字コードの自動判別に失敗しました");
}
