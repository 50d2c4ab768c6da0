use ornament_tree::utils::transcript::{mutual_follow, screen_name};
use regex::Regex;

fn regex_screen_name(text: &str) -> Option<String> {
    let re = Regex::new(r#""screen_name":"([^"]+)""#).unwrap();
    re.captures(text).and_then(|c| c.get(1)).map(|m| m.as_str().to_string())
}

fn regex_mutual_follow(text: &str) -> bool {
    let re = Regex::new(r#""followed_by":\s*true\s*,\s*"following":\s*true"#).unwrap();
    re.is_match(text)
}

fn samples() -> Vec<String> {
    let mut v: Vec<String> = vec![
        String::new(),
        r#"{"screen_name":"alice"}"#.to_string(),
        r#"{"screen_name":""}"#.to_string(),
        r#"{"screen_name":"","screen_name":"bob"}"#.to_string(),
        r#"{"screen_name":"alice","screen_name":"bob"}"#.to_string(),
        r#"{"screen_name":"unterminated"#.to_string(),
        r#"{"screen_name": "spaced"}"#.to_string(),
        r#""screen_name":"ünïcödé 名前""#.to_string(),
        r#"x"screen_name":"a"#.to_string(),
        r#""screen_name":"a""#.to_string(),
        r#""screen_name":"""#.to_string(),
        r#""screen_name":"screen_name":"inner""#.to_string(),
        r#"{"followed_by":true,"following":true}"#.to_string(),
        r#"{"followed_by": true , "following": true}"#.to_string(),
        "{\"followed_by\":\u{a0}true\u{2003},\n\t\"following\":\u{3000}true}".to_string(),
        r#"{"followed_by":false,"following":true}"#.to_string(),
        r#"{"followed_by":true,"following":false}"#.to_string(),
        r#"{"following":true,"followed_by":true}"#.to_string(),
        r#"{"followed_by":true ,,"following":true}"#.to_string(),
        r#"{"followed_by":true,"following":tru"#.to_string(),
        r#"{"followed_by":true,"followed_by":true,"following":true}"#.to_string(),
        "{\"followed_by\":\u{200b}true,\"following\":true}".to_string(),
        "{\"followed_by\":\u{85}true,\"following\":\u{2028}true}".to_string(),
        r#"{"screen_name":"carol","followed_by":true,"following":true}"#.to_string(),
    ];
    let pieces = [
        "\"screen_name\":\"", "\"", "x", " ", "é", "\"followed_by\":", "true", ",", "\"following\":",
        "\t", "\u{a0}",
    ];
    for a in pieces.iter() {
        for b in pieces.iter() {
            for c in pieces.iter() {
                v.push(format!("{}{}{}", a, b, c));
                v.push(format!("{}{}x{}\"", a, b, c));
            }
        }
    }
    v
}

#[test]
fn screen_name_found() {
    assert_eq!(screen_name(r#"{"id":1,"screen_name":"alice","x":2}"#), Some("alice".to_string()));
}

#[test]
fn screen_name_empty_capture_is_skipped() {
    assert_eq!(screen_name(r#"{"screen_name":"","screen_name":"bob"}"#), Some("bob".to_string()));
}

#[test]
fn screen_name_first_one_wins() {
    assert_eq!(screen_name(r#"{"screen_name":"alice","screen_name":"bob"}"#), Some("alice".to_string()));
}

#[test]
fn screen_name_absent() {
    assert_eq!(screen_name(r#"{"name":"alice"}"#), None);
    assert_eq!(screen_name(r#"{"screen_name":"unterminated"#), None);
    assert_eq!(screen_name(r#"{"screen_name": "spaced"}"#), None);
}

#[test]
fn screen_name_keeps_unicode() {
    assert_eq!(screen_name(r#""screen_name":"ünïcödé 名前""#), Some("ünïcödé 名前".to_string()));
}

#[test]
fn mutual_follow_plain() {
    assert!(mutual_follow(r#"{"followed_by":true,"following":true}"#));
}

#[test]
fn mutual_follow_with_white_space() {
    assert!(mutual_follow("{\"followed_by\": \u{a0}true\u{2003},\n\t\"following\":\u{3000}true}"));
}

#[test]
fn mutual_follow_refused() {
    assert!(!mutual_follow(r#"{"followed_by":false,"following":true}"#));
    assert!(!mutual_follow(r#"{"followed_by":true,"following":false}"#));
    assert!(!mutual_follow(r#"{"following":true,"followed_by":true}"#));
    assert!(!mutual_follow("{\"followed_by\":\u{200b}true,\"following\":true}"));
    assert!(!mutual_follow(""));
}

#[test]
fn screen_name_agrees_with_regex() {
    for s in samples() {
        assert_eq!(screen_name(&s), regex_screen_name(&s), "text: {:?}", s);
    }
}

#[test]
fn mutual_follow_agrees_with_regex() {
    for s in samples() {
        assert_eq!(mutual_follow(&s), regex_mutual_follow(&s), "text: {:?}", s);
    }
}
