use fred_timeout_test::handlers::{handle_get, handle_set, handle_status, AppState, POOL_SIZE};
use serde_json::Value;

fn parsed(text: &str) -> Value {
    serde_json::from_str(text).unwrap()
}

fn object(reply: serde_json::Map<String, Value>) -> Value {
    Value::Object(reply)
}

#[test]
fn clients_are_handed_out_in_turn() {
    let mut state = AppState::new();
    let mut seen = Vec::new();
    for _ in 0..7 {
        seen.push(state.next_client());
    }
    assert_eq!(seen, vec![0, 1, 2, 0, 1, 2, 0]);
}

#[test]
fn reads_and_writes_share_the_turn() {
    let mut state = AppState::new();
    assert_eq!(handle_get(&mut state, "alpha".to_string()).client_idx, 0);
    assert_eq!(handle_set(&mut state, "k".to_string(), "v".to_string()).client_idx, 1);
    assert_eq!(handle_get(&mut state, "beta".to_string()).client_idx, 2);
    assert_eq!(handle_get(&mut state, "beta".to_string()).client_idx, 0);
}

#[test]
fn each_client_gets_one_request_a_round() {
    let mut state = AppState::new();
    let mut load = vec![0usize; POOL_SIZE];
    for _ in 0..10 * POOL_SIZE {
        load[state.next_client()] += 1;
    }
    assert_eq!(load, vec![10, 10, 10]);
}

#[test]
fn read_of_a_value() {
    let mut state = AppState::new();
    let call = handle_get(&mut state, "alpha".to_string());
    assert_eq!(call.key, "alpha");
    let reply = call.reply(&Ok(Some("value-from-node1".to_string())), 3);
    assert_eq!(
        object(reply),
        parsed(r#"{"key":"alpha","value":"value-from-node1","client_idx":0,"elapsed_ms":3}"#)
    );
}

#[test]
fn read_of_a_missing_key() {
    let mut state = AppState::new();
    state.next_client();
    let call = handle_get(&mut state, "nope".to_string());
    let reply = call.reply(&Ok(None), 0);
    assert_eq!(
        object(reply),
        parsed(r#"{"key":"nope","value":null,"client_idx":1,"elapsed_ms":0}"#)
    );
}

#[test]
fn read_that_fails() {
    let mut state = AppState::new();
    let call = handle_get(&mut state, "key1".to_string());
    let reply = call.reply(&Err("Timeout Error: Request timed out.".to_string()), 5001);
    assert_eq!(
        object(reply),
        parsed(
            r#"{"key":"key1","error":"Timeout Error: Request timed out.","client_idx":0,"elapsed_ms":5001}"#
        )
    );
}

#[test]
fn write_that_succeeds() {
    let mut state = AppState::new();
    let call = handle_set(&mut state, "mykey".to_string(), "myval".to_string());
    let reply = call.reply(&Ok(()), 2);
    assert_eq!(
        object(reply),
        parsed(r#"{"ok":true,"key":"mykey","value":"myval","client_idx":0,"elapsed_ms":2}"#)
    );
}

#[test]
fn write_that_fails() {
    let mut state = AppState::new();
    let call = handle_set(&mut state, "mykey".to_string(), "myval".to_string());
    let reply = call.reply(&Err("broken".to_string()), u64::MAX as u128);
    assert_eq!(
        object(reply),
        parsed(
            r#"{"ok":false,"key":"mykey","error":"broken","client_idx":0,"elapsed_ms":18446744073709551615}"#
        )
    );
}

#[test]
fn status_shows_the_counter_and_leaves_it() {
    let mut state = AppState::new();
    for _ in 0..4 {
        state.next_client();
    }
    assert_eq!(object(handle_status(&state, 3)), parsed(r#"{"pool_size":3,"counter":4}"#));
    assert_eq!(object(handle_status(&state, 3)), parsed(r#"{"pool_size":3,"counter":4}"#));
    assert_eq!(state.next_client(), 1);
}

#[test]
fn each_client_gets_its_share_of_any_number_of_requests() {
    for requests in 0..12usize {
        let mut state = AppState::new();
        state.next_client();
        let mut load = vec![0usize; POOL_SIZE];
        for _ in 0..requests {
            load[state.next_client()] += 1;
        }
        for share in load {
            assert!(share == requests / 3 || share == (requests + 2) / 3);
        }
    }
}
