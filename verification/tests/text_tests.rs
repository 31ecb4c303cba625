use xiv_otp::text::{contains_text, is_white_space_char, same_text, strip_white_space};

#[test]
fn white_space_matches_std_for_every_char() {
    for v in 0u32..=0x10FFFF {
        if let Some(c) = char::from_u32(v) {
            assert_eq!(is_white_space_char(c), c.is_whitespace(), "char {:#x}", v);
        }
    }
}

#[test]
fn strip_matches_split_whitespace_join() {
    for s in ["", "  ", "a b", "\tX\nY \u{85}Z\u{2029}", "AB CD EF", "é ü"] {
        let expected = s.split_whitespace().collect::<Vec<_>>().join("");
        assert_eq!(strip_white_space(s), expected);
    }
}

#[test]
fn contains_text_matches_std() {
    let cases = [("XIVLauncher.exe", "XIVLauncher"), ("xivlauncher", "XIVLauncher"), ("", ""), ("abc", ""), ("ab", "abc"), ("aaab", "aab"), ("wine XIVLaunch", "XIVLauncher")];
    for (hay, needle) in cases {
        assert_eq!(contains_text(hay, needle), hay.contains(needle), "{hay} / {needle}");
    }
}

#[test]
fn same_text_compares_characters() {
    assert!(same_text("otpauth", "otpauth"));
    assert!(!same_text("otpauth", "otpaut"));
    assert!(!same_text("https", "otpauth"));
    assert!(same_text("", ""));
}
