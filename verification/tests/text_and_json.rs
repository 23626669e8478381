use docker_ops_agent::json::{array, find_member, member, object, string, Json, Number};
use docker_ops_agent::text::{
    chars_of, contains, decimal_text, is_white_space, join, lines, replace, same_text, split_once,
    strip_prefix, trim, trim_end_matches,
};

fn owned(list: &[&str]) -> Vec<String> {
    list.iter().map(|s| s.to_string()).collect()
}

#[test]
fn white_space_is_that_of_std() {
    let mut code: u32 = 0;
    while code <= 0x10FFFF {
        if let Some(c) = char::from_u32(code) {
            assert_eq!(is_white_space(c), c.is_whitespace(), "code point {}", code);
        }
        code += 1;
    }
}

#[test]
fn trims_at_both_ends() {
    assert_eq!(trim("  a b \t\n"), "a b");
    assert_eq!(trim(""), "");
    assert_eq!(trim(" \u{3000} "), "");
    assert_eq!(trim("x"), "x");
}

#[test]
fn lines_are_those_of_std() {
    for text in [
        "", "a", "a\n", "a\nb", "a\r\nb\r\n", "\n", "\n\n", "a\rb", "a\n\nb", "a\r\r\n", "ü\nß",
    ] {
        let expected: Vec<String> = text.lines().map(|l| l.to_string()).collect();
        assert_eq!(lines(text), expected, "{:?}", text);
    }
}

#[test]
fn splits_at_the_first_separator() {
    assert_eq!(split_once("a=b=c", '='), Some(("a", "b=c")));
    assert_eq!(split_once("=", '='), Some(("", "")));
    assert_eq!(split_once("abc", '='), None);
    assert_eq!(split_once("ü\tß", '\t'), Some(("ü", "ß")));
}

#[test]
fn finds_parts() {
    assert!(contains("library/nginx:latest", "nginx"));
    assert!(contains("abc", ""));
    assert!(contains("", ""));
    assert!(!contains("ab", "abc"));
    assert!(contains("aab", "ab"));
}

#[test]
fn strips_a_prefix() {
    assert_eq!(strip_prefix("Bearer x", "Bearer "), Some("x"));
    assert_eq!(strip_prefix("Bearer ", "Bearer "), Some(""));
    assert_eq!(strip_prefix("bearer x", "Bearer "), None);
}

#[test]
fn trims_repeated_ends() {
    assert_eq!(trim_end_matches("a/x/x", "/x"), "a");
    assert_eq!(trim_end_matches("a/xb", "/x"), "a/xb");
    assert_eq!(trim_end_matches("/x", "/x"), "");
}

#[test]
fn replaces_every_occurrence() {
    assert_eq!(replace("{p}-{p}", "{p}", "/etc"), "/etc-/etc");
    assert_eq!(replace("none", "{p}", "x"), "none");
    assert_eq!(replace("aaa", "aa", "b"), "aaa".replace("aa", "b"));
}

#[test]
fn joins_and_counts() {
    assert_eq!(join(&owned(&["a", "b", "c"]), " "), "a b c");
    assert_eq!(join(&owned(&[]), " "), "");
    assert_eq!(join(&owned(&["a"]), "\n"), "a");
    assert_eq!(decimal_text(0), "0");
    assert_eq!(decimal_text(2000), "2000");
    assert_eq!(decimal_text(u64::MAX), "18446744073709551615");
    assert_eq!(chars_of("aß"), vec!['a', 'ß']);
    assert!(same_text("a", "a"));
    assert!(!same_text("a", "b"));
}

fn sample() -> Json {
    object(vec![
        member("a", Json::Number(Number::PosInt(7))),
        member("b", array(vec![Json::Null, Json::Bool(true), Json::Bool(false)])),
        member("c", string("say \"hi\"\n\\ \u{1} ü")),
        member("d", object(vec![])),
        member("e", Json::Number(Number::NegInt(-3))),
        member("f", Json::Number(Number::Float("1.5".to_string()))),
    ])
}

#[test]
fn json_text_is_that_of_serde_json() {
    let text = sample().to_text();
    assert_eq!(
        text,
        "{\"a\":7,\"b\":[null,true,false],\"c\":\"say \\\"hi\\\"\\n\\\\ \\u0001 ü\",\"d\":{},\"e\":-3,\"f\":1.5}"
    );
    let value: serde_json::Value = serde_json::from_str(&text).unwrap();
    assert_eq!(value.to_string(), text);
}

#[test]
fn quoting_covers_every_control_character() {
    let mut code: u32 = 0;
    while code < 0x80 {
        let c = char::from_u32(code).unwrap();
        let s = format!("<{}>", c);
        assert_eq!(
            string(&s).to_text(),
            serde_json::Value::String(s.clone()).to_string(),
            "code point {}",
            code
        );
        code += 1;
    }
}

#[test]
fn json_is_shown_as_serde_json_shows_it() {
    let text = sample().to_text();
    let value: serde_json::Value = serde_json::from_str(&text).unwrap();
    assert_eq!(sample().shown(), format!("{:?}", value));
}

#[test]
fn reads_members() {
    let j = sample();
    assert_eq!(j.u64_at("a"), Some(7));
    assert_eq!(j.u64_at("e"), None);
    assert_eq!(j.u64_at("f"), None);
    assert_eq!(j.str_at("a"), None);
    assert!(j.str_at("c").is_some());
    assert!(j.get("z").is_none());
    assert!(Json::Null.get("a").is_none());
    assert!(array(vec![]).get("a").is_none());
    assert_eq!(j.duplicate(), j);
    assert_eq!(string("x").as_str(), Some("x"));
    assert_eq!(Json::Number(Number::PosInt(3)).as_u64(), Some(3));
    let ms = vec![member("k", string("1")), member("k", string("2"))];
    assert_eq!(find_member(&ms, "k"), Some(&string("1")));
}
