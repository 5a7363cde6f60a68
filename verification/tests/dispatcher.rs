use dao_demo::dao::DAO;
use dao_demo::json::JsonVal;

fn s(t: &str) -> String {
    String::from(t)
}

fn obj(pairs: Vec<(&str, JsonVal)>) -> JsonVal {
    JsonVal::Obj(pairs.into_iter().map(|(k, v)| (s(k), v)).collect())
}

fn get<'a>(v: &'a JsonVal, key: &str) -> Option<&'a JsonVal> {
    match v {
        JsonVal::Obj(es) => es.iter().find(|(k, _)| k == key).map(|(_, v)| v),
        _ => None,
    }
}

fn get_str<'a>(v: &'a JsonVal, key: &str) -> Option<&'a str> {
    match get(v, key) {
        Some(JsonVal::Str(t)) => Some(t.as_str()),
        _ => None,
    }
}

#[test]
fn prompt_generate_uppercases_and_suffixes() {
    let mut dao = DAO::new();
    let params = obj(vec![("text", JsonVal::Str(s("hello")))]);
    let submitted = dao.call("/prompt/generate", &params);
    let id = get_str(&submitted, "id").expect("correlation id").to_string();
    assert_eq!(get_str(&submitted, "status"), Some("pending"));
    assert!(get(&submitted, "result").is_none());

    let poll_params = obj(vec![("id", JsonVal::Str(id))]);
    let polled = dao.call("/result/poll", &poll_params);
    assert_eq!(get_str(&polled, "status"), Some("completed"));
    let result = get(&polled, "result").expect("payload");
    assert_eq!(get_str(result, "text"), Some("hello"));
    assert_eq!(get_str(result, "processed"), Some("HELLO [AI-processed]"));
    assert!(get_str(result, "timestamp").is_some());
}

#[test]
fn prompt_generate_accepts_boundary_lengths() {
    let mut dao = DAO::new();
    let one = obj(vec![("text", JsonVal::Str(s("x")))]);
    let r1 = dao.call("/prompt/generate", &one);
    assert_eq!(get_str(&r1, "status"), Some("pending"));

    let long = "a".repeat(10000);
    let ten_k = obj(vec![("text", JsonVal::Str(long))]);
    let r2 = dao.call("/prompt/generate", &ten_k);
    assert_eq!(get_str(&r2, "status"), Some("pending"));
}

#[test]
fn prompt_generate_rejects_missing_empty_and_oversized_text() {
    let mut dao = DAO::new();
    let missing = obj(vec![]);
    let r1 = dao.call("/prompt/generate", &missing);
    assert_eq!(get_str(&r1, "error"), Some("Missing required parameter: text"));
    assert!(get(&r1, "id").is_none());

    let empty = obj(vec![("text", JsonVal::Str(s("")))]);
    let r2 = dao.call("/prompt/generate", &empty);
    assert_eq!(get_str(&r2, "error"), Some("Missing required parameter: text"));

    let oversized = obj(vec![("text", JsonVal::Str("a".repeat(10001)))]);
    let r3 = dao.call("/prompt/generate", &oversized);
    assert_eq!(
        get_str(&r3, "error"),
        Some("Text must be between 1 and 10000 characters")
    );

    let not_a_string = obj(vec![("text", JsonVal::Int(7))]);
    let r4 = dao.call("/prompt/generate", &not_a_string);
    assert_eq!(get_str(&r4, "error"), Some("Missing required parameter: text"));
}

#[test]
fn poll_is_idempotent() {
    let mut dao = DAO::new();
    let params = obj(vec![
        ("name", JsonVal::Str(s("greeting"))),
        ("pattern", JsonVal::Str(s("Hello, {name}!"))),
    ]);
    let submitted = dao.call("/template/create", &params);
    let id = get_str(&submitted, "id").expect("correlation id").to_string();

    let poll_params = obj(vec![("id", JsonVal::Str(id))]);
    let first = dao.call("/result/poll", &poll_params);
    let second = dao.call("/result/poll", &poll_params);
    let third = dao.call("/result/poll", &poll_params);
    assert_eq!(first, second);
    assert_eq!(second, third);
    assert_eq!(get_str(&first, "status"), Some("completed"));
}

#[test]
fn consecutive_calls_use_distinct_correlation_ids() {
    let mut dao = DAO::new();
    let params = obj(vec![("text", JsonVal::Str(s("one")))]);
    let r1 = dao.call("/prompt/generate", &params);
    let r2 = dao.call("/prompt/generate", &params);
    let id1 = get_str(&r1, "id").expect("first id");
    let id2 = get_str(&r2, "id").expect("second id");
    assert_ne!(id1, id2);
}

#[test]
fn usage_track_rejects_negative_duration() {
    let mut dao = DAO::new();
    let params = obj(vec![
        ("operation", JsonVal::Str(s("/prompt/generate"))),
        ("duration_ms", JsonVal::Int(-1)),
    ]);
    let r = dao.call("/usage/track", &params);
    assert_eq!(get_str(&r, "error"), Some("duration_ms must be non-negative"));
}

#[test]
fn usage_track_completes_synchronously() {
    let mut dao = DAO::new();
    let params = obj(vec![
        ("operation", JsonVal::Str(s("/prompt/generate"))),
        ("duration_ms", JsonVal::Int(0)),
    ]);
    let r = dao.call("/usage/track", &params);
    assert_eq!(get_str(&r, "status"), Some("completed"));
    let result = get(&r, "result").expect("payload");
    assert_eq!(get(result, "tracked"), Some(&JsonVal::Bool(true)));
    assert_eq!(get_str(result, "operation"), Some("/prompt/generate"));
    assert!(get_str(result, "timestamp").is_some());

    let positive = obj(vec![
        ("operation", JsonVal::Str(s("/template/render"))),
        ("duration_ms", JsonVal::Int(2500)),
    ]);
    let r2 = dao.call("/usage/track", &positive);
    assert_eq!(get_str(&r2, "status"), Some("completed"));
}

#[test]
fn usage_track_requires_its_parameters() {
    let mut dao = DAO::new();
    let no_operation = obj(vec![("duration_ms", JsonVal::Int(5))]);
    let r1 = dao.call("/usage/track", &no_operation);
    assert_eq!(get_str(&r1, "error"), Some("Missing required parameter: operation"));

    let no_duration = obj(vec![("operation", JsonVal::Str(s("x")))]);
    let r2 = dao.call("/usage/track", &no_duration);
    assert_eq!(
        get_str(&r2, "error"),
        Some("Missing required parameter: duration_ms")
    );

    let bad_duration = obj(vec![
        ("operation", JsonVal::Str(s("x"))),
        ("duration_ms", JsonVal::Str(s("fast"))),
    ]);
    let r3 = dao.call("/usage/track", &bad_duration);
    assert_eq!(
        get_str(&r3, "error"),
        Some("Missing required parameter: duration_ms")
    );
}

#[test]
fn unknown_operation_is_reported_by_name() {
    let mut dao = DAO::new();
    let r = dao.call("/does/not/exist", &obj(vec![]));
    assert_eq!(get_str(&r, "error"), Some("Invalid operation: /does/not/exist"));
}

#[test]
fn poll_of_unknown_id_is_reported_by_id() {
    let mut dao = DAO::new();
    let poll_params = obj(vec![("id", JsonVal::Str(s("no-such-id")))]);
    let r = dao.call("/result/poll", &poll_params);
    assert_eq!(
        get_str(&r, "error"),
        Some("Result not found or expired: no-such-id")
    );
}

#[test]
fn poll_requires_an_id() {
    let mut dao = DAO::new();
    let r = dao.call("/result/poll", &obj(vec![]));
    assert_eq!(get_str(&r, "error"), Some("Missing required parameter: id"));
}

#[test]
fn template_create_round_trip() {
    let mut dao = DAO::new();
    let variables = JsonVal::Arr(vec![JsonVal::Str(s("name")), JsonVal::Int(3)]);
    let params = obj(vec![
        ("name", JsonVal::Str(s("greeting-1"))),
        ("pattern", JsonVal::Str(s("Hello, {name}!"))),
        ("variables", variables.clone()),
    ]);
    let submitted = dao.call("/template/create", &params);
    let outer_id = get_str(&submitted, "id").expect("correlation id").to_string();
    assert_eq!(get_str(&submitted, "status"), Some("pending"));

    let poll_params = obj(vec![("id", JsonVal::Str(outer_id.clone()))]);
    let polled = dao.call("/result/poll", &poll_params);
    assert_eq!(get_str(&polled, "id"), Some(outer_id.as_str()));
    assert_eq!(get_str(&polled, "status"), Some("completed"));
    let result = get(&polled, "result").expect("payload");
    assert_eq!(get_str(result, "name"), Some("greeting-1"));
    assert_eq!(get_str(result, "pattern"), Some("Hello, {name}!"));
    assert_eq!(get(result, "variables"), Some(&variables));
    let inner_id = get_str(result, "id").expect("template id");
    assert_ne!(inner_id, outer_id.as_str());
}

#[test]
fn template_create_rejects_bad_name() {
    let mut dao = DAO::new();
    let params = obj(vec![
        ("name", JsonVal::Str(s("bad name!"))),
        ("pattern", JsonVal::Str(s("{}"))),
    ]);
    let r = dao.call("/template/create", &params);
    assert_eq!(
        get_str(&r, "error"),
        Some("Invalid template name: must be alphanumeric with hyphens")
    );
}

#[test]
fn template_create_requires_name_and_pattern() {
    let mut dao = DAO::new();
    let r1 = dao.call("/template/create", &obj(vec![("pattern", JsonVal::Str(s("{}")))]));
    assert_eq!(get_str(&r1, "error"), Some("Missing required parameter: name"));

    let r2 = dao.call("/template/create", &obj(vec![("name", JsonVal::Str(s("ok")))]));
    assert_eq!(get_str(&r2, "error"), Some("Missing required parameter: pattern"));
}

#[test]
fn template_create_defaults_variables_to_empty() {
    let mut dao = DAO::new();
    let params = obj(vec![
        ("name", JsonVal::Str(s("plain"))),
        ("pattern", JsonVal::Str(s("text"))),
    ]);
    let submitted = dao.call("/template/create", &params);
    let id = get_str(&submitted, "id").unwrap().to_string();
    let polled = dao.call("/result/poll", &obj(vec![("id", JsonVal::Str(id))]));
    let result = get(&polled, "result").expect("payload");
    assert_eq!(get(result, "variables"), Some(&JsonVal::Arr(vec![])));
}

#[test]
fn template_render_echoes_id_and_values() {
    let mut dao = DAO::new();
    let values = obj(vec![("name", JsonVal::Str(s("World")))]);
    let params = obj(vec![
        ("template_id", JsonVal::Str(s("tpl-7"))),
        ("values", values.clone()),
    ]);
    let submitted = dao.call("/template/render", &params);
    assert_eq!(get_str(&submitted, "status"), Some("pending"));
    let id = get_str(&submitted, "id").unwrap().to_string();
    let polled = dao.call("/result/poll", &obj(vec![("id", JsonVal::Str(id))]));
    let result = get(&polled, "result").expect("payload");
    assert_eq!(get_str(result, "template_id"), Some("tpl-7"));
    assert_eq!(
        get_str(result, "rendered"),
        Some("Rendered template tpl-7 with variables")
    );
    assert_eq!(get(result, "variables_used"), Some(&values));
}

#[test]
fn template_render_requires_template_id() {
    let mut dao = DAO::new();
    let r = dao.call("/template/render", &obj(vec![]));
    assert_eq!(
        get_str(&r, "error"),
        Some("Missing required parameter: template_id")
    );
}
