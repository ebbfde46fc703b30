use gemon::dict::Dict;
use gemon::text::{chars_of, is_text, matches_at, replace, skip_chars, split_on, starts_with, string_of};

fn chars(text: &str) -> Vec<char> {
    text.chars().collect()
}

fn split(text: &str, delimiter: &str) -> Vec<String> {
    split_on(&chars(text), &chars(delimiter))
}

fn replaced(text: &str, pattern: &str, to: &str) -> String {
    replace(&chars(text), &chars(pattern), &chars(to)).into_iter().collect()
}

#[test]
fn characters_and_strings_convert() {
    assert_eq!(chars_of("aé!"), vec!['a', 'é', '!']);
    assert_eq!(chars_of(""), Vec::<char>::new());
    assert_eq!(string_of(&chars("hello"), 1, 3), "el");
    assert_eq!(string_of(&chars("hello"), 2, 2), "");
    assert_eq!(skip_chars(&chars("hello"), 3), vec!['l', 'o']);
    assert_eq!(skip_chars(&chars("hello"), 5), Vec::<char>::new());
}

#[test]
fn prefixes_and_occurrences() {
    assert!(starts_with(&chars("-u=x"), "-u="));
    assert!(starts_with(&chars("-u="), "-u="));
    assert!(starts_with(&chars("abc"), ""));
    assert!(!starts_with(&chars("-u"), "-u="));
    assert!(!starts_with(&chars("x-u="), "-u="));
    assert!(is_text(&chars("init"), "init"));
    assert!(!is_text(&chars("init "), "init"));
    assert!(!is_text(&chars("ini"), "init"));
    assert!(matches_at(&chars("a::b"), &chars("::"), 1));
    assert!(!matches_at(&chars("a::b"), &chars("::"), 2));
    assert!(!matches_at(&chars("a::b"), &chars("::"), 3));
    assert!(!matches_at(&chars("a::b"), &chars("::"), 9));
}

#[test]
fn splitting_on_a_delimiter() {
    assert_eq!(split("a::b::c", "::"), vec!["a", "b", "c"]);
    assert_eq!(split("abc", "::"), vec!["abc"]);
    assert_eq!(split("", "::"), vec![""]);
    assert_eq!(split("::", "::"), vec!["", ""]);
    assert_eq!(split("a::", "::"), vec!["a", ""]);
    assert_eq!(split("::a", "::"), vec!["", "a"]);
    assert_eq!(split("a:::b", "::"), vec!["a", ":b"]);
    assert_eq!(split("a::::b", "::"), vec!["a", "", "b"]);
    assert_eq!(split("a:b", "::"), vec!["a:b"]);
    assert_eq!(split("abc", ""), vec!["abc"]);
    assert_eq!(split(":", "::"), vec![":"]);
}

#[test]
fn replacing_a_pattern() {
    assert_eq!(replaced("a{k}b{k}", "{k}", "1"), "a1b1");
    assert_eq!(replaced("aaa", "aa", "b"), "ba");
    assert_eq!(replaced("abc", "x", "y"), "abc");
    assert_eq!(replaced("abc", "", "y"), "abc");
    assert_eq!(replaced("", "a", "y"), "");
    assert_eq!(replaced("abc", "abc", ""), "");
    assert_eq!(replaced("ab", "abc", "x"), "ab");
    assert_eq!(replaced("{k}", "{k}", "{k}{k}"), "{k}{k}");
}

#[test]
fn dictionary_keeps_first_insertion_order() {
    let mut d: Dict<String> = Dict::new();
    assert_eq!(d.len(), 0);
    d.insert("b".to_string(), "1".to_string());
    d.insert("a".to_string(), "2".to_string());
    d.insert("b".to_string(), "3".to_string());
    assert_eq!(d.len(), 2);
    assert_eq!(d.key_at(0), "b");
    assert_eq!(d.value_at(0), "3");
    assert_eq!(d.key_at(1), "a");
    assert_eq!(d.get("a"), Some(&"2".to_string()));
    assert_eq!(d.get("c"), None);
    assert!(d.contains_key("b"));
    assert!(!d.contains_key("B"));
}

#[test]
fn dictionary_removes_and_copies() {
    let mut d: Dict<String> = Dict::new();
    d.insert("a".to_string(), "1".to_string());
    d.insert("b".to_string(), "2".to_string());
    d.insert("c".to_string(), "3".to_string());
    let copy = d.duplicate();
    d.remove("b");
    d.remove("zzz");
    assert_eq!(d.len(), 2);
    assert_eq!(d.key_at(0), "a");
    assert_eq!(d.key_at(1), "c");
    assert_eq!(d.get("b"), None);
    assert_eq!(copy.len(), 3);
    assert_eq!(copy.get("b"), Some(&"2".to_string()));
}
