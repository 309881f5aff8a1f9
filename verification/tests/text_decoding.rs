use labworks::text::{
    decode_text, decode_utf16_lossy, is_blank, nonblank_lines, numbered_nonblank_lines, split_lines,
    trim_chars,
};

#[test]
fn utf8_plain_and_with_bom() {
    assert_eq!(decode_text(b"hello\nworld"), "hello\nworld");
    assert_eq!(decode_text(&[0xEF, 0xBB, 0xBF, b'a', b'b']), "ab");
    assert_eq!(decode_text("héllo".as_bytes()), "héllo");
    assert_eq!(decode_text(&[b'a', 0xFF, b'b']), "a\u{FFFD}b");
    assert_eq!(decode_text(&[]), "");
}

#[test]
fn utf16_le_and_be() {
    assert_eq!(decode_text(&[0xFF, 0xFE, b'h', 0, b'i', 0]), "hi");
    assert_eq!(decode_text(&[0xFE, 0xFF, 0, b'h', 0, b'i']), "hi");
    assert_eq!(decode_text(&[0xFF, 0xFE, b'h', 0, b'i']), "h");
    // U+1F600 as a surrogate pair, little endian
    assert_eq!(decode_text(&[0xFF, 0xFE, 0x3D, 0xD8, 0x00, 0xDE]), "\u{1F600}");
}

#[test]
fn utf16_lossy_replacements() {
    assert_eq!(decode_utf16_lossy(&vec![0xD800, 0x0041]), "\u{FFFD}A");
    assert_eq!(decode_utf16_lossy(&vec![0xDC00]), "\u{FFFD}");
    assert_eq!(decode_utf16_lossy(&vec![0xD83D, 0xDE00, 0xD83D]), "\u{1F600}\u{FFFD}");
    let w: Vec<u16> = "añ€".encode_utf16().collect();
    assert_eq!(decode_utf16_lossy(&w), String::from_utf16_lossy(&w));
}

#[test]
fn lines_follow_str_lines() {
    for s in ["", "a", "a\n", "a\r\nb", "a\n\nb\n", "\r\n", "x\r", "a\rb\n"] {
        let expected: Vec<String> = s.lines().map(String::from).collect();
        assert_eq!(split_lines(s), expected, "{s:?}");
    }
}

#[test]
fn trimmed_nonblank_lines() {
    let content = "  http://a/b.png \r\n\n\t\nc.jpg\n   \n";
    assert_eq!(nonblank_lines(content), vec!["http://a/b.png".to_string(), "c.jpg".to_string()]);
    assert!(is_blank(" \t\u{3000}\n"));
    assert!(!is_blank(" x "));
    assert_eq!(trim_chars(&" \u{00A0}ab c\u{2029}".chars().collect()), vec!['a', 'b', ' ', 'c']);
}

#[test]
fn numbered_lines_keep_their_position() {
    let content = "a.png\n\n  \n b.jpg \r\nc";
    assert_eq!(
        numbered_nonblank_lines(content),
        vec![(0, "a.png".to_string()), (3, "b.jpg".to_string()), (4, "c".to_string())]
    );
    assert!(numbered_nonblank_lines("").is_empty());
}

#[test]
fn own_encodings_decode_back() {
    for s in ["", "plain", "héllo wörld", "€ and 😀", "a\u{FEFF}b"] {
        assert_eq!(decode_text(s.as_bytes()), s);
        let mut with_bom = vec![0xEF, 0xBB, 0xBF];
        with_bom.extend_from_slice(s.as_bytes());
        assert_eq!(decode_text(&with_bom), s);
        let mut le = vec![0xFF, 0xFE];
        for u in s.encode_utf16() {
            le.extend_from_slice(&u.to_le_bytes());
        }
        assert_eq!(decode_text(&le), s);
    }
}
