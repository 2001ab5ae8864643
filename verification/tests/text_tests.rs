use shared_lib::json::{array, number, object};
use shared_lib::text::{chars_of, equal, find, split_piece, str_contains};

fn chars(s: &str) -> Vec<char> {
    s.chars().collect()
}

#[test]
fn the_characters_of_a_text() {
    assert_eq!(chars_of("aé→b"), vec!['a', 'é', '→', 'b']);
    assert_eq!(chars_of(""), Vec::<char>::new());
}

#[test]
fn the_leftmost_occurrence_is_found() {
    assert_eq!(find(&chars("abcabc"), &chars("bc"), 0), Some(1));
    assert_eq!(find(&chars("abcabc"), &chars("bc"), 1), Some(1));
    assert_eq!(find(&chars("abcabc"), &chars("bc"), 2), Some(4));
    assert_eq!(find(&chars("abcabc"), &chars("bc"), 5), None);
    assert_eq!(find(&chars("abcabc"), &chars("bc"), 50), None);
    assert_eq!(find(&chars("abc"), &chars("abcd"), 0), None);
    assert_eq!(find(&chars("abc"), &chars("abc"), 0), Some(0));
    assert_eq!(find(&chars("abc"), &chars(""), 0), Some(0));
    assert_eq!(find(&chars("abc"), &chars(""), 3), Some(3));
    assert_eq!(find(&chars("abc"), &chars(""), 4), None);
    assert_eq!(find(&chars(""), &chars(""), 0), Some(0));
    assert_eq!(find(&chars("aab"), &chars("ab"), 0), Some(1));
}

#[test]
fn a_text_contains_its_parts() {
    assert!(str_contains("/api/admin/login", "/api/admin"));
    assert!(str_contains("x/api/admin", "/api/admin"));
    assert!(str_contains("/api/admin", "/api/admin"));
    assert!(!str_contains("/api/admi", "/api/admin"));
    assert!(!str_contains("", "/api/admin"));
    assert!(!str_contains("/API/ADMIN", "/api/admin"));
    assert!(str_contains("anything", ""));
    assert!(str_contains("", ""));
}

#[test]
fn texts_are_equal_to_themselves_only() {
    assert!(equal("POST", "POST"));
    assert!(equal("", ""));
    assert!(!equal("POST", "post"));
    assert!(!equal("POST", "POST "));
    assert!(!equal("", "a"));
}

#[test]
fn a_text_is_cut_at_every_occurrence_of_the_separator() {
    assert_eq!(split_piece("a b c", " ", 0), Some("a".to_string()));
    assert_eq!(split_piece("a b c", " ", 1), Some("b".to_string()));
    assert_eq!(split_piece("a b c", " ", 2), Some("c".to_string()));
    assert_eq!(split_piece("a b c", " ", 3), None);
    assert_eq!(split_piece("a b c", " ", usize::MAX), None);
    assert_eq!(split_piece("a  c", " ", 1), Some("".to_string()));
    assert_eq!(split_piece("a ", " ", 1), Some("".to_string()));
    assert_eq!(split_piece(" a", " ", 0), Some("".to_string()));
    assert_eq!(split_piece("", " ", 0), Some("".to_string()));
    assert_eq!(split_piece("", " ", 1), None);
    assert_eq!(split_piece("abc", "key: ", 0), Some("abc".to_string()));
    assert_eq!(split_piece("abc", "key: ", 1), None);
    assert_eq!(split_piece("xkey: ykey: z", "key: ", 1), Some("y".to_string()));
    assert_eq!(split_piece("xkey: ykey: z", "key: ", 2), Some("z".to_string()));
    assert_eq!(split_piece("aaa", "aa", 1), Some("a".to_string()));
    assert_eq!(split_piece("é→é", "→", 1), Some("é".to_string()));
}

#[test]
fn numbers_in_decimal() {
    assert_eq!(number(0), "0");
    assert_eq!(number(7), "7");
    assert_eq!(number(10), "10");
    assert_eq!(number(23), "23");
    assert_eq!(number(1090), "1090");
    assert_eq!(number(u64::MAX), "18446744073709551615");
}

#[test]
fn arrays_of_json_texts() {
    assert_eq!(array(&vec![]), "[]");
    assert_eq!(array(&vec!["1".to_string()]), "[1]");
    assert_eq!(array(&vec!["1".to_string(), "{\"a\":2}".to_string(), "null".to_string()]), "[1,{\"a\":2},null]");
}

#[test]
fn objects_of_json_texts() {
    assert_eq!(object(&vec![]), "{}");
    assert_eq!(object(&vec![("\"a\"".to_string(), "1".to_string())]), "{\"a\":1}");
    assert_eq!(
        object(&vec![
            ("\"b\"".to_string(), "[]".to_string()),
            ("\"a\"".to_string(), "\"x\"".to_string()),
        ]),
        "{\"b\":[],\"a\":\"x\"}"
    );
}
