use dao_demo::json::JsonVal;
use dao_demo::ops::{check_name, create_template, process_prompt, render_template, track_usage};

fn s(t: &str) -> String {
    String::from(t)
}

fn obj(pairs: Vec<(&str, JsonVal)>) -> JsonVal {
    JsonVal::Obj(pairs.into_iter().map(|(k, v)| (s(k), v)).collect())
}

fn get<'a>(v: &'a JsonVal, key: &str) -> Option<&'a JsonVal> {
    match v {
        JsonVal::Obj(es) => es.iter().find(|(k, _)| k == key).map(|(_, v)| v),
        _ => None,
    }
}

fn get_str<'a>(v: &'a JsonVal, key: &str) -> Option<&'a str> {
    match get(v, key) {
        Some(JsonVal::Str(t)) => Some(t.as_str()),
        _ => None,
    }
}

#[test]
fn process_prompt_handles_mixed_case_and_punctuation() {
    let params = obj(vec![("text", JsonVal::Str(s("Hello, World 42!")))]);
    let payload = process_prompt(&params).expect("valid text");
    assert_eq!(get_str(&payload, "text"), Some("Hello, World 42!"));
    assert_eq!(
        get_str(&payload, "processed"),
        Some("HELLO, WORLD 42! [AI-processed]")
    );
}

#[test]
fn process_prompt_rejects_non_object_params() {
    let r = process_prompt(&JsonVal::Null);
    assert_eq!(r, Err(s("Missing required parameter: text")));
}

#[test]
fn create_template_accepts_hyphenated_alphanumeric_names() {
    let params = obj(vec![
        ("name", JsonVal::Str(s("my-Template-2"))),
        ("pattern", JsonVal::Str(s("p"))),
    ]);
    let payload = create_template(&params).expect("valid name");
    assert_eq!(get_str(&payload, "name"), Some("my-Template-2"));
    assert!(!get_str(&payload, "id").unwrap().is_empty());
}

#[test]
fn create_template_rejects_invalid_names() {
    for bad in ["bad name!", "semi;colon", "slash/name", "dot.name", ""] {
        let params = obj(vec![
            ("name", JsonVal::Str(s(bad))),
            ("pattern", JsonVal::Str(s("p"))),
        ]);
        let r = create_template(&params);
        assert_eq!(
            r,
            Err(s("Invalid template name: must be alphanumeric with hyphens")),
            "name {:?} should be rejected",
            bad
        );
    }
}

#[test]
fn check_name_matches_the_rule() {
    assert!(check_name("abc-DEF-123"));
    assert!(check_name("a"));
    assert!(!check_name(""));
    assert!(!check_name("with space"));
    assert!(!check_name("caf\u{e9}"));
    assert!(!check_name("under_score"));
}

#[test]
fn render_template_builds_descriptive_string() {
    let params = obj(vec![("template_id", JsonVal::Str(s("abc")))]);
    let payload = render_template(&params).expect("has template_id");
    assert_eq!(
        get_str(&payload, "rendered"),
        Some("Rendered template abc with variables")
    );
    assert_eq!(get(&payload, "variables_used"), Some(&obj(vec![])));
}

#[test]
fn track_usage_reports_each_validation_error() {
    let r1 = track_usage(&obj(vec![]));
    assert_eq!(r1, Err(s("Missing required parameter: operation")));

    let r2 = track_usage(&obj(vec![
        ("operation", JsonVal::Str(s("op"))),
        ("duration_ms", JsonVal::Int(-250)),
    ]));
    assert_eq!(r2, Err(s("duration_ms must be non-negative")));

    let ok = track_usage(&obj(vec![
        ("operation", JsonVal::Str(s("op"))),
        ("duration_ms", JsonVal::Int(1)),
    ]))
    .expect("non-negative duration");
    assert_eq!(get(&ok, "tracked"), Some(&JsonVal::Bool(true)));
}
