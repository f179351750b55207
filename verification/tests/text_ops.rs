use procview::text::chars_of;
use procview::text::contains_substring;
use procview::text::utf8_byte_index;

fn chars(s: &str) -> Vec<char> {
    s.chars().collect()
}

#[test]
fn substring_basic_cases() {
    assert!(contains_substring(&chars("alphabet"), &chars("pha")));
    assert!(contains_substring(&chars("alphabet"), &chars("alphabet")));
    assert!(contains_substring(&chars("alphabet"), &chars("t")));
    assert!(!contains_substring(&chars("alphabet"), &chars("beta")));
    assert!(!contains_substring(&chars("pha"), &chars("alphabet")));
}

#[test]
fn empty_needle_matches_everything() {
    assert!(contains_substring(&chars("alphabet"), &chars("")));
    assert!(contains_substring(&chars(""), &chars("")));
}

#[test]
fn substring_is_case_sensitive() {
    assert!(!contains_substring(&chars("Alpha"), &chars("alpha")));
    assert!(contains_substring(&chars("Alpha"), &chars("Alph")));
}

#[test]
fn substring_handles_multibyte_text() {
    assert!(contains_substring(&chars("héllo wörld"), &chars("ö")));
    assert!(contains_substring(&chars("日本語テキスト"), &chars("語テ")));
    assert!(!contains_substring(&chars("日本語"), &chars("本日")));
}

#[test]
fn chars_of_splits_by_character() {
    assert_eq!(chars_of("aé日"), vec!['a', 'é', '日']);
    assert_eq!(chars_of(""), Vec::<char>::new());
}

#[test]
fn byte_offsets_follow_encoded_widths() {
    let text = chars("aé日𝄞");
    assert_eq!(utf8_byte_index(&text, 0), 0);
    assert_eq!(utf8_byte_index(&text, 1), 1);
    assert_eq!(utf8_byte_index(&text, 2), 3);
    assert_eq!(utf8_byte_index(&text, 3), 6);
    assert_eq!(utf8_byte_index(&text, 4), 10);
    assert_eq!(utf8_byte_index(&text, 4), "aé日𝄞".len());
}
