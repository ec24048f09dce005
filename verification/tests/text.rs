use edge_webview::error::Error;
use edge_webview::text::c_text;
use edge_webview::text::decode_text;

#[test]
fn text_gets_one_terminating_zero() {
    assert_eq!(c_text("abc"), Ok(vec![b'a', b'b', b'c', 0]));
    assert_eq!(c_text(""), Ok(vec![0]));
}

#[test]
fn text_beyond_ascii_keeps_its_bytes() {
    assert_eq!(c_text("é€"), Ok(vec![0xc3, 0xa9, 0xe2, 0x82, 0xac, 0]));
}

#[test]
fn text_with_a_zero_byte_is_invalid() {
    assert_eq!(c_text("a\0b"), Err(Error::InvalidText));
    assert_eq!(c_text("\0"), Err(Error::InvalidText));
    assert_eq!(c_text("ab\0"), Err(Error::InvalidText));
}

#[test]
fn decoding_reads_utf8() {
    assert_eq!(decode_text(b"hello"), Ok("hello"));
    assert_eq!(decode_text(&[0xc3, 0xa9]), Ok("é"));
    assert_eq!(decode_text(b""), Ok(""));
}

#[test]
fn decoding_refuses_what_is_not_utf8() {
    assert_eq!(decode_text(&[0xff, 0xfe]), Err(Error::InvalidText));
    assert_eq!(decode_text(&[b'a', 0xc3]), Err(Error::InvalidText));
    assert_eq!(decode_text(&[0xed, 0xa0, 0x80]), Err(Error::InvalidText));
}
