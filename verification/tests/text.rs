//! Text, numbers and frames.

use base64::Engine;

use rivetlink::encoding::{decode_fixed_32, decode_fixed_64, encode, FixedBytesError};
use rivetlink::framing::{be_bytes, body_len, frame, header_len};
use rivetlink::http::{after_scheme, parse_response, request_head, split_base, HttpFault};
use rivetlink::text::{
    byte_len, char_is_space, chars_of, decimal, ends_with, find_char, find_text, joined,
    parse_number, parse_signed, parse_wide, same_text, split_line, starts_with, text_between,
    text_precedes, trim, word_of,
};
use rivetlink::types::Error;

#[test]
fn numbers_are_parsed_like_the_standard_library() {
    for text in ["", "0", "7", "007", "+7", "-7", "65535", "65536", " 7", "7 ", "+", "4294967296", "x"] {
        assert_eq!(parse_number(text, u16::MAX as u32), text.parse::<u16>().ok().map(u32::from));
        assert_eq!(parse_number(text, u32::MAX), text.parse::<u32>().ok());
        assert_eq!(parse_wide(text, u64::MAX), text.parse::<u64>().ok());
        assert_eq!(parse_signed(text), text.parse::<i32>().ok());
    }
    assert_eq!(parse_wide("18446744073709551615", u64::MAX), Some(u64::MAX));
    assert_eq!(parse_wide("18446744073709551616", u64::MAX), None);
    assert_eq!(parse_signed("-2147483648"), Some(i32::MIN));
    assert_eq!(parse_signed("-2147483649"), None);
}

#[test]
fn a_written_number_is_read_back() {
    for n in [0, 9, 10, 1234567890, u64::MAX] {
        assert_eq!(decimal(n), n.to_string());
        assert_eq!(parse_wide(&decimal(n), u64::MAX), Some(n));
    }
}

#[test]
fn text_is_trimmed_like_the_standard_library() {
    for text in ["", " ", " a ", "\t\u{a0}a b\u{2003}\n", "a", "\u{200b}a", "\u{85}x\u{3000}"] {
        assert_eq!(trim(text), text.trim());
    }
    for code in 0..0x3100u32 {
        if let Some(c) = char::from_u32(code) {
            assert_eq!(char_is_space(c), c.is_whitespace());
        }
    }
}

#[test]
fn text_is_compared_and_searched() {
    assert!(same_text("é", "é") && !same_text("a", "b"));
    assert!(starts_with("ws://x", "ws://") && !starts_with("w", "ws"));
    assert!(ends_with("a.sock", ".sock") && !ends_with("a", "ba"));
    assert_eq!(joined("a", "é"), "aé");
    assert_eq!(byte_len("aé😀"), 7);
    let chars = chars_of("one two");
    assert_eq!(find_char(&chars, ' '), 3);
    assert_eq!(find_char(&chars, 'x'), 7);
    assert_eq!(find_text(&chars, "tw"), Some(4));
    assert_eq!(find_text(&chars, "xx"), None);
    assert_eq!(text_between(&chars, 4, 7), "two");
    for (a, b) in [("", "a"), ("a", "b"), ("a", "ab"), ("b", "aa"), ("é", "z"), ("a", "a")] {
        assert_eq!(text_precedes(a, b), a < b);
        assert_eq!(text_precedes(b, a), b < a);
    }
}

#[test]
fn lines_and_words_are_split() {
    assert_eq!(split_line("a\r\nb\nc"), ("a".to_string(), "b\nc".to_string()));
    assert_eq!(split_line("a"), ("a".to_string(), String::new()));
    assert_eq!(word_of(" \t one two").as_deref(), Some("one"));
    assert_eq!(word_of("  "), None);
}

#[test]
fn frames_carry_their_length() {
    assert_eq!(be_bytes(0x01020304), [1, 2, 3, 4]);
    assert_eq!(header_len(&[1, 2, 3, 4]), 0x01020304);
    let framed = frame(&b"abc".to_vec()).unwrap();
    assert_eq!(framed, [0, 0, 0, 3, b'a', b'b', b'c']);
    assert_eq!(body_len(&[0, 0, 0, 3], 3), Some(3));
    assert_eq!(body_len(&[0, 0, 0, 4], 3), None);
}

#[test]
fn bytes_are_written_in_base64() {
    let standard = base64::engine::general_purpose::STANDARD;
    assert_eq!(encode(b"PNG!"), standard.encode(b"PNG!"));
    assert_eq!(decode_fixed_32(&format!(" {}\n", standard.encode([7; 32]))).unwrap(), [7; 32]);
    assert_eq!(decode_fixed_64(&standard.encode([7; 64])).unwrap(), [7; 64]);
    assert!(matches!(decode_fixed_32("AAAA"), Err(FixedBytesError::Length(3))));
    assert!(matches!(
        decode_fixed_64("A"),
        Err(FixedBytesError::Base64(m)) if m == standard.decode("A").unwrap_err().to_string()
    ));
}

#[test]
fn addresses_are_split() {
    assert_eq!(after_scheme("http://x", "http://").as_deref(), Some("x"));
    assert_eq!(after_scheme("ftp://x", "http://"), None);
    let base = split_base("relay:9090/api//", 80);
    assert_eq!((base.host.as_str(), base.port, base.prefix.as_str()), ("relay", 9090, "/api"));
    let base = split_base("relay:port", 443);
    assert_eq!((base.host.as_str(), base.port, base.prefix.as_str()), ("relay", 80, ""));
    assert_eq!(split_base("relay", 443).port, 443);
}

#[test]
fn requests_and_responses_have_their_shape() {
    assert_eq!(
        request_head("GET", "/p", "h", Some("T"), Some(2)),
        "GET /p HTTP/1.1\r\nHost: h\r\nAuthorization: Bearer T\r\n\
         Content-Type: application/json\r\nContent-Length: 2\r\nConnection: close\r\n\r\n"
    );
    assert_eq!(parse_response("HTTP/1.1 200 OK\r\n\r\nbody").unwrap(), "body");
    assert!(matches!(parse_response(""), Err(HttpFault::Empty)));
    assert!(matches!(
        parse_response("HTTP/1.1 500 Oops\r\n\r\n"),
        Err(HttpFault::Status(line)) if line == "HTTP/1.1 500 Oops"
    ));
    assert!(matches!(parse_response("HTTP/1.1 200 OK\n"), Err(HttpFault::Malformed)));
}

#[test]
fn core_errors_have_their_texts() {
    assert_eq!(Error::Config("x".to_string()).to_string(), "configuration error: x");
    assert_eq!(Error::InvalidId("x".to_string()).to_string(), "invalid identifier: x");
}
