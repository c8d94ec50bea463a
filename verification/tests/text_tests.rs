use archive_extractor::text::{
    chars_of, contains_chars, decimal_chars, is_white_space, rfind_char, string_of, trim_chars,
    usize_chars,
};
use archive_extractor::{joined, ExtractError};

fn s(v: Vec<char>) -> String {
    v.into_iter().collect()
}

#[test]
fn decimal_notation() {
    assert_eq!(s(decimal_chars(0)), "0");
    assert_eq!(s(decimal_chars(7)), "7");
    assert_eq!(s(decimal_chars(10)), "10");
    assert_eq!(s(decimal_chars(4294967295)), "4294967295");
    assert_eq!(s(decimal_chars(u64::MAX)), u64::MAX.to_string());
    assert_eq!(s(usize_chars(1024)), "1024");
}

#[test]
fn characters_round_trip() {
    let text = "特典 archive.zip";
    assert_eq!(chars_of(text).len(), 14);
    assert_eq!(string_of(&chars_of(text)), text);
}

#[test]
fn searching() {
    let hay = chars_of("subdir/../../evil.txt");
    assert!(contains_chars(&hay, &chars_of("..")));
    assert!(contains_chars(&hay, &chars_of("")));
    assert!(!contains_chars(&chars_of("a.b.c"), &chars_of("..")));
    assert!(!contains_chars(&chars_of("ab"), &chars_of("abc")));
    assert_eq!(rfind_char(&chars_of("archive.tar.gz"), '.'), Some(11));
    assert_eq!(rfind_char(&chars_of("README"), '.'), None);
}

#[test]
fn trimming() {
    assert_eq!(s(trim_chars(&chars_of("  game.rar\r\t"))), "game.rar");
    assert_eq!(s(trim_chars(&chars_of("\u{3000}全角\u{3000}"))), "全角");
    assert_eq!(s(trim_chars(&chars_of("   "))), "");
    assert_eq!(s(trim_chars(&chars_of("a b"))), "a b");
}

#[test]
fn error_messages() {
    assert_eq!(ExtractError::PasswordRequired.message(), "需要密码");
    assert_eq!(ExtractError::ExtractFailed("坏了".to_string()).message(), "解压失败: 坏了");
    assert_eq!(joined("a", "b"), "ab");
    match ExtractError::failed("x: ", "y") {
        ExtractError::ExtractFailed(m) => assert_eq!(m, "x: y"),
        other => panic!("unexpected {:?}", other),
    }
}

#[test]
fn white_space_agrees_with_std() {
    for u in 0u32..=0x10FFFF {
        if let Some(c) = char::from_u32(u) {
            assert_eq!(is_white_space(c), c.is_whitespace(), "U+{:04X}", u);
        }
    }
}
