use kline_chart::substring::Solution;
use kline_chart::text::chars_of;

#[test]
fn test_basic() {
    assert_eq!(
        Solution::length_of_longest_substring("abcabcbb".to_string()),
        3
    );
    assert_eq!(
        Solution::length_of_longest_substring("bbbbb".to_string()),
        1
    );
    assert_eq!(
        Solution::length_of_longest_substring("pwwkew".to_string()),
        3
    );
    assert_eq!(Solution::length_of_longest_substring("".to_string()), 0);
}

#[test]
fn longest_stretch_may_end_the_text() {
    assert_eq!(Solution::length_of_longest_substring("aab".to_string()), 2);
    assert_eq!(Solution::length_of_longest_substring("dvdf".to_string()), 3);
    assert_eq!(Solution::length_of_longest_substring("abcdef".to_string()), 6);
}

#[test]
fn characters_outside_ascii_count_once_each() {
    assert_eq!(Solution::length_of_longest_substring("héé😀h".to_string()), 3);
    assert_eq!(chars_of("é😀"), vec!['é', '😀']);
}
