use dao_demo::json::JsonVal;
use dao_demo::store::{OperationResponse, ResultStore, Status};

fn completed(id: &str, payload: JsonVal) -> OperationResponse {
    OperationResponse {
        id: String::from(id),
        status: Status::Completed,
        result: Some(payload),
        error: None,
    }
}

#[test]
fn set_then_get_returns_the_stored_response() {
    let mut store = ResultStore::new();
    assert!(store.get("a").is_none());
    store.set(String::from("a"), completed("a", JsonVal::Int(1)));
    let got = store.get("a").expect("stored");
    assert_eq!(got.id, "a");
    assert_eq!(got.status, Status::Completed);
    assert_eq!(got.result, Some(JsonVal::Int(1)));
    assert_eq!(got.error, None);
}

#[test]
fn set_overwrites_an_existing_entry() {
    let mut store = ResultStore::new();
    store.set(String::from("a"), completed("a", JsonVal::Int(1)));
    store.set(String::from("a"), completed("a", JsonVal::Int(2)));
    let got = store.get("a").expect("stored");
    assert_eq!(got.result, Some(JsonVal::Int(2)));
}

#[test]
fn delete_removes_and_returns_the_prior_value() {
    let mut store = ResultStore::new();
    store.set(String::from("a"), completed("a", JsonVal::Int(1)));
    assert!(store.contains("a"));
    let removed = store.delete("a").expect("was stored");
    assert_eq!(removed.result, Some(JsonVal::Int(1)));
    assert!(!store.contains("a"));
    assert!(store.delete("a").is_none());
}

#[test]
fn contains_distinguishes_keys() {
    let mut store = ResultStore::new();
    store.set(String::from("a"), completed("a", JsonVal::Null));
    assert!(store.contains("a"));
    assert!(!store.contains("b"));
}

#[test]
fn get_does_not_mutate_the_store() {
    let mut store = ResultStore::new();
    store.set(String::from("a"), completed("a", JsonVal::Bool(true)));
    let first = store.get("a");
    let second = store.get("a");
    assert_eq!(first, second);
    assert!(store.contains("a"));
}
