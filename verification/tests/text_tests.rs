use mwscript::text::chars_match;
use mwscript::text::ends_with;
use mwscript::text::from_chars;
use mwscript::text::push_decimal;
use mwscript::text::push_str;
use mwscript::text::remove_char;
use mwscript::text::starts_with;
use mwscript::text::str_eq;
use mwscript::text::strip_prefix;
use mwscript::text::to_ascii_lowercase;
use mwscript::text::to_chars;

fn decimal(n: usize) -> String {
    let mut s = String::new();
    push_decimal(&mut s, n);
    s
}

#[test]
fn chars_round_trip() {
    let s = "data=\"C:\\Games\\Morrowind\\Data Files\" é ü";
    let v = to_chars(s);
    assert_eq!(v.len(), s.chars().count());
    assert_eq!(from_chars(&v, 0), s);
    assert_eq!(from_chars(&v, 5), &s[5..]);
    assert_eq!(from_chars(&v, v.len()), "");
    assert_eq!(from_chars(&v, v.len() + 1), "");
    assert!(chars_match(&v, s));
    assert!(!chars_match(&v, "data="));
    assert!(!chars_match(&to_chars("data"), "data="));
}

#[test]
fn string_equality() {
    assert!(str_eq("", ""));
    assert!(str_eq("esp", "esp"));
    assert!(!str_eq("esp", "esm"));
    assert!(!str_eq("esp", "es"));
    assert!(!str_eq("es", "esp"));
    assert!(!str_eq("esp", "ESP"));
}

#[test]
fn prefixes_and_suffixes() {
    assert!(starts_with("content=a.esp", "content="));
    assert!(starts_with("content=", "content="));
    assert!(starts_with("anything", ""));
    assert!(!starts_with("conten", "content="));
    assert!(!starts_with(" content=a", "content="));
    assert!(ends_with("content=Morrowind.esm", "Morrowind.esm"));
    assert!(ends_with("x", ""));
    assert!(ends_with("esm", "esm"));
    assert!(!ends_with("sm", "esm"));
    assert!(!ends_with("Morrowind.esm ", "Morrowind.esm"));
}

#[test]
fn stripping_a_prefix() {
    assert_eq!(strip_prefix("data=\"a b\"", "data="), Some("\"a b\"".to_string()));
    assert_eq!(strip_prefix("data=", "data="), Some(String::new()));
    assert_eq!(strip_prefix("dat", "data="), None);
    assert_eq!(strip_prefix("xdata=1", "data="), None);
}

#[test]
fn removing_a_character() {
    assert_eq!(remove_char("\"a \"b\" c\"", '"'), "a b c");
    assert_eq!(remove_char("abc", '"'), "abc");
    assert_eq!(remove_char("\"\"\"", '"'), "");
    assert_eq!(remove_char("", '"'), "");
}

#[test]
fn ascii_lower_case() {
    assert_eq!(to_ascii_lowercase("ESP"), "esp");
    assert_eq!(to_ascii_lowercase("OmwAddon"), "omwaddon");
    assert_eq!(to_ascii_lowercase("AZ az @[ 09"), "az az @[ 09");
    assert_eq!(to_ascii_lowercase("ÉSP"), "Ésp");
}

#[test]
fn decimal_numerals() {
    assert_eq!(decimal(0), "0");
    assert_eq!(decimal(7), "7");
    assert_eq!(decimal(10), "10");
    assert_eq!(decimal(109), "109");
    assert_eq!(decimal(65535), "65535");
    assert_eq!(decimal(usize::MAX), usize::MAX.to_string());
}

#[test]
fn appending() {
    let mut s = String::from("ab");
    push_str(&mut s, "cd");
    push_str(&mut s, "");
    assert_eq!(s, "abcd");
}
