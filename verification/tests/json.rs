use amp_common::json::{Json, Member};
use amp_common::text::{first_chars, joined, same_text, starts_with, without_prefix};

fn pair(key: &str, value: Json) -> Member {
    Member { key: key.to_string(), value }
}

#[test]
fn member_finds_the_first_of_a_key() {
    let document = Json::Object(vec![
        pair("a", Json::Unsigned(1)),
        pair("b", Json::Null),
        pair("a", Json::Unsigned(2)),
    ]);
    assert_eq!(document.member("a"), Some(&Json::Unsigned(1)));
    assert_eq!(document.member("b"), Some(&Json::Null));
    assert_eq!(document.member("c"), None);
    assert_eq!(document.present("b"), None);
    assert_eq!(document.present("a"), Some(&Json::Unsigned(1)));
    assert_eq!(Json::Array(vec![]).member("a"), None);
}

#[test]
fn values_are_read_by_their_kind() {
    assert_eq!(Json::Text(String::from("x")).as_text(), Some(&String::from("x")));
    assert_eq!(Json::Unsigned(3).as_text(), None);
    assert_eq!(Json::Unsigned(3).as_unsigned(), Some(3));
    assert_eq!(Json::Number(String::from("-1.5")).as_unsigned(), None);
    assert_eq!(Json::Bool(false).as_bool(), Some(false));
    assert_eq!(Json::Null.as_bool(), None);
    assert_eq!(Json::Array(vec![Json::Null]).as_array(), Some(&vec![Json::Null]));
    assert_eq!(Json::Null.as_array(), None);
    let document = Json::Object(vec![pair("name", Json::Text(String::from("main"))), pair("n", Json::Unsigned(1))]);
    assert_eq!(document.text_member("name"), Some(String::from("main")));
    assert_eq!(document.text_member("n"), None);
    assert_eq!(document.text_member("missing"), None);
}

#[test]
fn text_helpers_work_on_characters() {
    assert!(same_text("héllo", "héllo"));
    assert!(!same_text("a", "b"));
    assert!(starts_with("refs/heads/x", "refs/"));
    assert!(starts_with("x", ""));
    assert!(!starts_with("ref", "refs/"));
    assert!(!starts_with("rofs/x", "refs/"));
    assert_eq!(first_chars("héllo", 2), "hé");
    assert_eq!(first_chars("héllo", 10), "héllo");
    assert_eq!(first_chars("héllo", 0), "");
    assert_eq!(without_prefix("héllo", "hé"), "llo");
    assert_eq!(without_prefix("héllo", "x"), "héllo");
    assert_eq!(joined("a", "b"), "ab");
}
