use zellinotes_recipes::document::{Document, Value};
use zellinotes_recipes::result_ext::{LogExtensionErr, LogExtensionOk, TakeDefined};

#[test]
fn insert_replaces_an_existing_key_in_place() {
    let mut doc = Document::new();
    doc.insert("a".to_string(), Value::Int32(1));
    doc.insert("b".to_string(), Value::Int32(2));
    doc.insert("a".to_string(), Value::Int32(3));
    assert_eq!(doc.len(), 2);
    assert_eq!(doc.get_i32(&"a".to_string()), Some(3));
    assert_eq!(doc.get_i32(&"b".to_string()), Some(2));
}

#[test]
fn get_distinguishes_the_stored_type() {
    let mut doc = Document::new();
    doc.insert("n".to_string(), Value::Int32(7));
    assert_eq!(doc.get_i32(&"n".to_string()), Some(7));
    assert_eq!(doc.get_str(&"n".to_string()), None);
    assert_eq!(doc.get_datetime(&"n".to_string()), None);
    assert_eq!(doc.get(&"missing".to_string()), None);
}

#[test]
fn remove_takes_the_entry_out() {
    let mut doc = Document::new();
    doc.insert("a".to_string(), Value::Int32(1));
    doc.insert("b".to_string(), Value::Int32(2));
    let removed = doc.remove(&"a".to_string());
    assert_eq!(removed, Some(Value::Int32(1)));
    assert_eq!(doc.get(&"a".to_string()), None);
    assert_eq!(doc.len(), 1);
    assert_eq!(doc.remove(&"a".to_string()), None);
}

#[test]
fn new_document_is_empty() {
    let doc = Document::new();
    assert!(doc.is_empty());
    assert_eq!(doc.len(), 0);
}

#[test]
fn log_extensions_hand_the_result_back_unchanged() {
    let ok: Result<i32, String> = Ok(5);
    let mut seen: Option<i32> = None;
    let back = ok.log_if_ok(|v| seen = Some(*v));
    assert_eq!(back, Ok(5));
    assert_eq!(seen, Some(5));

    let err: Result<i32, String> = Err("boom".to_string());
    let mut message: Option<String> = None;
    let back = err.log_if_err(|e| message = Some(e.clone()));
    assert_eq!(back, Err("boom".to_string()));
    assert_eq!(message, Some("boom".to_string()));
}

#[test]
fn take_defined_collapses_both_sides() {
    let ok: Result<i32, i32> = Ok(1);
    assert_eq!(ok.take_defined(), 1);
    let err: Result<i32, i32> = Err(2);
    assert_eq!(err.take_defined(), 2);
}
