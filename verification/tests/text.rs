use amfm::text::str_contains;
use amfm::text::str_eq;
use amfm::text::str_lt;
use amfm::text::str_starts_with;

#[test]
fn character_helpers_behave_like_std() {
    assert!(str_eq("abc", "abc"));
    assert!(!str_eq("abc", "abd"));
    assert!(!str_eq("abc", "ab"));

    assert!(str_contains("hello world", "lo wo"));
    assert!(str_contains("hello", ""));
    assert!(!str_contains("hello", "worlds"));
    assert!(!str_contains("ab", "abc"));

    assert!(str_starts_with("audio/x-raw-int", "audio/x-raw"));
    assert!(!str_starts_with("video/x-raw", "audio/x-raw"));

    assert!(str_lt("abc", "abd"));
    assert!(str_lt("ab", "abc"));
    assert!(!str_lt("abc", "abc"));
    assert!(!str_lt("b", "abc"));
}
