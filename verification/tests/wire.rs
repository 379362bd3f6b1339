use fs_gate::response::{OperationResult, Payload};
use fs_gate::session::SessionState;
use fs_gate::wire::{
    encode_names, encode_result, encode_state, frame_array, frame_result, frame_state,
    text_outcome, WireError,
};

fn text(bytes: Vec<u8>) -> String {
    String::from_utf8(bytes).unwrap()
}

#[test]
fn state_is_encoded_as_an_object_of_permissions() {
    let state = SessionState { permissions: vec!["read".to_string(), "write".to_string()] };
    assert_eq!(text(encode_state(&state).unwrap()), r#"{"permissions":["read","write"]}"#);
    let state = SessionState::init(None);
    assert_eq!(text(encode_state(&state).unwrap()), r#"{"permissions":["read"]}"#);
    let state = SessionState { permissions: Vec::new() };
    assert_eq!(text(encode_state(&state).unwrap()), r#"{"permissions":[]}"#);
}

#[test]
fn results_are_encoded_with_their_three_fields() {
    assert_eq!(
        text(encode_result(&OperationResult::done()).unwrap()),
        r#"{"success":true,"data":null,"error":null}"#
    );
    assert_eq!(
        text(encode_result(&OperationResult::failed("Write permission denied")).unwrap()),
        r#"{"success":false,"data":null,"error":"Write permission denied"}"#
    );
    assert_eq!(
        text(encode_result(&OperationResult::with_data(Payload::Text("hi".to_string()))).unwrap()),
        r#"{"success":true,"data":"hi","error":null}"#
    );
    let names = Payload::Names(vec!["a.txt".to_string(), "b.txt".to_string()]);
    assert_eq!(
        text(encode_result(&OperationResult::with_data(names)).unwrap()),
        r#"{"success":true,"data":["a.txt","b.txt"],"error":null}"#
    );
}

#[test]
fn strings_are_escaped() {
    let result = OperationResult::failed_with("Failed to read file: ", "no \"x\"\n\\ here");
    assert_eq!(
        text(encode_result(&result).unwrap()),
        r#"{"success":false,"data":null,"error":"Failed to read file: no \"x\"\n\\ here"}"#
    );
    assert_eq!(text(encode_names(&vec!["a\tb".to_string()]).unwrap()), r#"["a\tb"]"#);
}

#[test]
fn encoded_results_are_read_back_by_serde_json() {
    let content = "line \"one\"\nline two \u{1F600} \u{7}".to_string();
    let result = OperationResult::with_data(Payload::Text(content.clone()));
    let value: serde_json::Value = serde_json::from_slice(&encode_result(&result).unwrap()).unwrap();
    assert_eq!(value.get("success"), Some(&serde_json::Value::Bool(true)));
    assert_eq!(value.get("data"), Some(&serde_json::Value::String(content)));
    assert_eq!(value.get("error"), Some(&serde_json::Value::Null));
    assert_eq!(value.as_object().unwrap().len(), 3);
}

#[test]
fn encoded_state_is_read_back_by_serde_json() {
    let labels = vec!["read".to_string(), "wr\"ite".to_string(), "".to_string()];
    let state = SessionState { permissions: labels.clone() };
    let value: serde_json::Value = serde_json::from_slice(&encode_state(&state).unwrap()).unwrap();
    let list: Vec<String> = value
        .get("permissions")
        .unwrap()
        .as_array()
        .unwrap()
        .iter()
        .map(|v| v.as_str().unwrap().to_string())
        .collect();
    assert_eq!(list, labels);
}

#[test]
fn frames_put_encoded_values_together() {
    assert_eq!(text(frame_array(&Vec::new())), "[]");
    assert_eq!(text(frame_array(&vec![b"1".to_vec()])), "[1]");
    assert_eq!(text(frame_array(&vec![b"1".to_vec(), b"\"a\"".to_vec(), b"null".to_vec()])), r#"[1,"a",null]"#);
    assert_eq!(text(frame_state(&b"[]".to_vec())), r#"{"permissions":[]}"#);
    assert_eq!(text(frame_result(true, &None, &None)), r#"{"success":true,"data":null,"error":null}"#);
    assert_eq!(
        text(frame_result(false, &Some(b"[1]".to_vec()), &Some(b"\"e\"".to_vec()))),
        r#"{"success":false,"data":[1],"error":"e"}"#
    );
}

#[test]
fn result_builders_keep_success_and_failure_apart() {
    let done = OperationResult::done();
    assert!(done.success && done.data.is_none() && done.error.is_none());
    let failed = OperationResult::failed("no");
    assert!(!failed.success && failed.data.is_none());
    assert_eq!(failed.error, Some("no".to_string()));
    let joined = OperationResult::failed_with("a: ", "b");
    assert_eq!(joined.error, Some("a: b".to_string()));
    let with = OperationResult::with_data(Payload::Text("t".to_string()));
    assert!(with.success && with.error.is_none());
    assert_eq!(with.data, Some(Payload::Text("t".to_string())));
}

#[test]
fn the_encoder_s_answer_is_kept_or_named_unencodable() {
    assert_eq!(text_outcome(Ok(b"\"a\"".to_vec())), Ok(b"\"a\"".to_vec()));
    assert_eq!(text_outcome(Ok(Vec::new())), Ok(Vec::new()));
    let refusal = serde_json::from_str::<serde_json::Value>("{").unwrap_err();
    assert_eq!(text_outcome(Err(refusal)), Err(WireError::Unencodable));
}

#[test]
fn encoders_succeed_on_strings_of_every_kind() {
    let odd = "\u{0}\u{1f}\"\\/\u{7f}\u{80}\u{ffff}\u{10ffff}".to_string();
    assert!(encode_names(&vec![odd.clone(), String::new()]).is_ok());
    assert!(encode_state(&SessionState { permissions: vec![odd.clone()] }).is_ok());
    assert!(encode_result(&OperationResult::failed(&odd)).is_ok());
    assert!(encode_result(&OperationResult::with_data(Payload::Text(odd.clone()))).is_ok());
    assert!(encode_result(&OperationResult::with_data(Payload::Names(vec![odd]))).is_ok());
}
