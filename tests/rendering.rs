use httpie::render::{choose_body, is_json_content_type, render_body};

#[test]
fn json_body_is_pretty_printed() {
    let r = render_body(Some("application/json"), "{\"x\":1}");
    assert!(r.pretty);
    assert_eq!(r.text, "{\n  \"x\": 1\n}");
    assert!(r.text.lines().count() > 1);
}

#[test]
fn malformed_json_is_shown_unchanged() {
    let r = render_body(Some("application/json"), "{broken");
    assert!(!r.pretty);
    assert_eq!(r.text, "{broken");
}

#[test]
fn parameters_of_the_content_type_are_ignored() {
    let r = render_body(Some("application/json; charset=utf-8"), "[1,2]");
    assert!(r.pretty);
    assert_eq!(r.text, "[\n  1,\n  2\n]");
}

#[test]
fn other_content_type_is_shown_unchanged() {
    let r = render_body(Some("text/plain"), "{\"x\":1}");
    assert!(!r.pretty);
    assert_eq!(r.text, "{\"x\":1}");
}

#[test]
fn missing_content_type_is_shown_unchanged() {
    let r = render_body(None, "{\"x\":1}");
    assert!(!r.pretty);
    assert_eq!(r.text, "{\"x\":1}");
}

#[test]
fn unparsable_content_type_is_shown_unchanged() {
    let r = render_body(Some("not a media type"), "{\"x\":1}");
    assert!(!r.pretty);
    assert_eq!(r.text, "{\"x\":1}");
}

#[test]
fn json_content_type_recognised() {
    assert!(is_json_content_type("application/json"));
    assert!(is_json_content_type("application/json; charset=utf-8"));
    assert!(!is_json_content_type("application/jsonp"));
    assert!(!is_json_content_type("text/html"));
    assert!(!is_json_content_type(""));
}

#[test]
fn choose_body_uses_pretty_text_only_when_all_hold() {
    let t = Some("P".to_string());
    assert_eq!(choose_body(true, true, t.clone(), "raw").text, "P");
    assert!(choose_body(true, true, t.clone(), "raw").pretty);
    assert_eq!(choose_body(false, true, t.clone(), "raw").text, "raw");
    assert_eq!(choose_body(true, false, t.clone(), "raw").text, "raw");
    assert_eq!(choose_body(true, true, None, "raw").text, "raw");
    assert!(!choose_body(true, true, None, "raw").pretty);
}
