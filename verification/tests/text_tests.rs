use gserver_manager::text::{decimal_string, letters, same_text, text_contains, text_ends_with};

#[test]
fn numerals_have_no_sign_and_no_leading_zero() {
    assert_eq!(decimal_string(0), "0");
    assert_eq!(decimal_string(7), "7");
    assert_eq!(decimal_string(10), "10");
    assert_eq!(decimal_string(9000), "9000");
    assert_eq!(decimal_string(4294967295), "4294967295");
    assert_eq!(decimal_string(1234567890123456789), "1234567890123456789");
    assert_eq!(decimal_string(u128::MAX), "340282366920938463463374607431768211455");
    for n in 0..2000u128 {
        assert_eq!(decimal_string(n), format!("{}", n));
    }
}

#[test]
fn search_finds_a_text_wherever_it_stands() {
    assert!(text_contains("redis-server", "redis-server"));
    assert!(text_contains("my-redis-server-2", "redis-server"));
    assert!(text_contains("abc", ""));
    assert!(text_contains("", ""));
    assert!(text_contains("aab", "ab"));
    assert!(text_contains("abcabd", "abd"));
    assert!(!text_contains("", "a"));
    assert!(!text_contains("redis-serve", "redis-server"));
    assert!(!text_contains("redis_server", "redis-server"));
    assert!(!text_contains("ab", "abc"));
    // Characters outside ASCII count as one.
    assert!(text_contains("caf\u{e9} src", "src"));
    assert!(text_contains("na\u{ef}ve", "\u{ef}v"));
    assert!(!text_contains("naive", "\u{ef}"));
}

#[test]
fn endings_and_equality() {
    assert!(text_ends_with("site.wsgi", ".wsgi"));
    assert!(!text_ends_with("site.wsgi.bak", ".wsgi"));
    assert!(!text_ends_with("wsgi", ".wsgi"));
    assert!(text_ends_with("abc", ""));
    assert!(same_text("flask", "flask"));
    assert!(!same_text("flask", "Flask"));
    assert!(!same_text("flask", "flask "));
    assert!(same_text("", ""));
    assert_eq!(letters("a\u{e9}b"), vec!['a', '\u{e9}', 'b']);
}
