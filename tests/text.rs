use design_patterns::text::{decimal_string, parse_i32, reversed, split_words, str_eq, tenths_string};

fn chars(s: &str) -> Vec<char> {
    s.chars().collect()
}

#[test]
fn strings_compare_by_characters() {
    assert!(str_eq("abc", "abc"));
    assert!(!str_eq("abc", "abd"));
    assert!(!str_eq("abc", "ab"));
    assert!(str_eq("", ""));
}

#[test]
fn reversal() {
    assert_eq!(reversed("abc"), "cba");
    assert_eq!(reversed(""), "");
    assert_eq!(reversed("héllo"), "olléh");
}

#[test]
fn decimal_and_tenths() {
    assert_eq!(decimal_string(0), "0");
    assert_eq!(decimal_string(7), "7");
    assert_eq!(decimal_string(205), "205");
    assert_eq!(decimal_string(u64::MAX), "18446744073709551615");
    assert_eq!(tenths_string(30), "3");
    assert_eq!(tenths_string(12), "1.2");
    assert_eq!(tenths_string(0), "0");
    assert_eq!(tenths_string(5), "0.5");
}

#[test]
fn words_split_on_ascii_whitespace() {
    assert_eq!(split_words("123 456"), vec![chars("123"), chars("456")]);
    assert_eq!(split_words("  a\tb\n\ncd \r"), vec![chars("a"), chars("b"), chars("cd")]);
    assert_eq!(split_words(""), Vec::<Vec<char>>::new());
    assert_eq!(split_words("   "), Vec::<Vec<char>>::new());
}

#[test]
fn integers_parse_like_std() {
    for w in ["0", "123", "-5", "+7", "2147483647", "-2147483648", "0007", "", "-", "+", "12a", "2147483648", "-2147483649", "99999999999999999999", "--1", " 1"] {
        assert_eq!(parse_i32(&chars(w)), w.parse::<i32>().ok(), "word {:?}", w);
    }
}
