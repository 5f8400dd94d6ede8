use std::collections::HashMap;

use ws_relay::fanout::{delivery_targets, failed_targets, prune_outcome, step, Action, Event, Stage};
use ws_relay::codec::{encode_message, frame_message};
use ws_relay::config::Config;
use ws_relay::error::Error;
use ws_relay::lifecycle::{
    connect_record, connection_record, disconnect_key, MAX_TIMESTAMP_MILLIS, MIN_TIMESTAMP_MILLIS,
};
use ws_relay::router::{route, Route};
use ws_relay::schema::{Connection, Content, Message};

fn conn(id: &str) -> Connection {
    Connection { connection_id: id.to_string(), connected_at: 1_700_000_000, ttl: None }
}

fn message(text: &str) -> Message {
    Message {
        action: "sendmessage".to_string(),
        username: "alice".to_string(),
        content: Content::Message(text.to_string()),
    }
}

fn expect_payload(stage: &Stage) -> Vec<u8> {
    match stage {
        Stage::Scanning { payload } => payload.clone(),
        _ => panic!("expected the scanning stage"),
    }
}

/// Runs a broadcast of `text` over `registry`, where delivery fails for the
/// ids in `unreachable`; returns the result and the ids that were sent to.
fn run_broadcast(
    registry: &mut HashMap<String, Connection>,
    snapshot: Vec<Connection>,
    text: &str,
    unreachable: &[&str],
) -> (Result<i64, Error>, Vec<(String, Vec<u8>)>) {
    let mut sends = Vec::new();
    let (stage, action) = step(Stage::Receiving, Event::Received(Some("{}".to_string())));
    assert!(matches!(action, Action::Decode(_)));
    let (stage, action) = step(stage, Event::Decoded(Ok(message(text))));
    assert!(matches!(action, Action::Scan));
    let (mut stage, mut action) = step(stage, Event::Scanned(Ok(snapshot)));
    loop {
        match action {
            Action::Deliver { payload, targets } => {
                let delivered: Vec<bool> = targets
                    .iter()
                    .map(|t| {
                        sends.push((t.clone(), payload.clone()));
                        !unreachable.contains(&t.as_str())
                    })
                    .collect();
                let next = step(stage, Event::Delivered(delivered));
                stage = next.0;
                action = next.1;
            }
            Action::Prune { ids } => {
                let results: Vec<Result<(), Error>> = ids
                    .iter()
                    .map(|id| {
                        registry.remove(id);
                        Ok(())
                    })
                    .collect();
                let next = step(stage, Event::Pruned(results));
                stage = next.0;
                action = next.1;
            }
            Action::Finish(r) => return (r.map(|resp| resp.status_code), sends),
            _ => panic!("unexpected action"),
        }
    }
}

#[test]
fn route_known_tags() {
    assert_eq!(route(Some("$connect".to_string())).ok(), Some(Route::Connect));
    assert_eq!(route(Some("$disconnect".to_string())).ok(), Some(Route::Disconnect));
    assert_eq!(route(Some("sendmessage".to_string())).ok(), Some(Route::SendMessage));
}

fn custom_message<T>(r: Result<T, Error>) -> String {
    match r {
        Err(Error::Custom(m)) => m,
        _ => panic!("expected a custom error"),
    }
}

#[test]
fn route_unknown_tag_is_an_error() {
    assert_eq!(custom_message(route(Some("bogus".to_string()))), "route_key not found");
    assert_eq!(custom_message(route(None)), "route_key not found");
}

#[test]
fn endpoint_url_is_built_from_api_and_region() {
    let c = Config::new("eu-west-1".to_string(), "abc123".to_string(), "conns".to_string());
    assert_eq!(c.endpoint_url(), "https://abc123.execute-api.eu-west-1.amazonaws.com/default");
    assert_eq!(c.table_name, "conns");
}

#[test]
fn connect_record_converts_millis_to_seconds() {
    let c = connect_record(Some("A1".to_string()), 1_700_000_000_999).ok().unwrap();
    assert_eq!(c.connection_id, "A1");
    assert_eq!(c.connected_at, 1_700_000_000);
    assert!(c.ttl.is_none());
    let before_epoch = connect_record(Some("A1".to_string()), -1).ok().unwrap();
    assert_eq!(before_epoch.connected_at, -1);
}

#[test]
fn connect_record_follows_chrono_range() {
    let lo = connect_record(Some("A".to_string()), MIN_TIMESTAMP_MILLIS).ok().unwrap();
    assert_eq!(lo.connected_at, -8_334_601_228_800);
    let hi = connect_record(Some("A".to_string()), MAX_TIMESTAMP_MILLIS).ok().unwrap();
    assert_eq!(hi.connected_at, 8_210_266_876_799);
    assert_eq!(
        custom_message(connect_record(Some("A".to_string()), MIN_TIMESTAMP_MILLIS - 1)),
        "connected_at is invalid timestamp"
    );
    assert_eq!(
        custom_message(connect_record(Some("A".to_string()), MAX_TIMESTAMP_MILLIS + 1)),
        "connected_at is invalid timestamp"
    );
}

#[test]
fn connect_record_errors() {
    assert_eq!(custom_message(connect_record(None, 1_000)), "connection_id not found");
    assert_eq!(
        custom_message(connect_record(Some("A".to_string()), i64::MAX)),
        "connected_at is invalid timestamp"
    );
    assert_eq!(
        custom_message(connection_record(Some("A".to_string()), None)),
        "connected_at is invalid timestamp"
    );
    assert_eq!(custom_message(connection_record(None, Some(1))), "connection_id not found");
    let c = connection_record(Some("A".to_string()), Some(42)).ok().unwrap();
    assert_eq!(c.connected_at, 42);
}

#[test]
fn disconnect_key_needs_an_id() {
    assert_eq!(disconnect_key(Some("Z".to_string())).ok(), Some("Z".to_string()));
    assert_eq!(custom_message(disconnect_key(None)), "connection_id not found");
}

#[test]
fn custom_error_keeps_its_message() {
    match Error::custom("items not found") {
        Error::Custom(m) => assert_eq!(m, "items not found"),
        _ => panic!("expected a custom error"),
    }
}

#[test]
fn frame_message_lays_out_the_object() {
    let r = frame_message(b"\"a\"", b"\"u\"", b"\"t\"");
    assert_eq!(r, br#"{"action":"a","username":"u","content":{"message":"t"}}"#.to_vec());
}

#[test]
fn encode_message_escapes_strings() {
    let p = encode_message(&message("hi \"there\"\n")).ok().unwrap();
    assert_eq!(
        String::from_utf8(p).unwrap(),
        r#"{"action":"sendmessage","username":"alice","content":{"message":"hi \"there\"\n"}}"#
    );
}

#[test]
fn missing_body_fails_at_once() {
    let (stage, action) = step(Stage::Receiving, Event::Received(None));
    assert!(matches!(stage, Stage::Finished));
    match action {
        Action::Finish(r) => assert_eq!(custom_message(r), "body not found"),
        _ => panic!("expected the broadcast to finish"),
    }
}

#[test]
fn undecodable_body_fails_before_any_scan() {
    let (stage, action) = step(
        Stage::Decoding,
        Event::Decoded(Err(Error::SerdeJson("unknown variant `image`".to_string()))),
    );
    assert!(matches!(stage, Stage::Finished));
    match action {
        Action::Finish(Err(Error::SerdeJson(m))) => assert_eq!(m, "unknown variant `image`"),
        _ => panic!("expected the decoding error"),
    }
}

#[test]
fn scan_failure_fails_the_broadcast() {
    let (stage, _) = step(Stage::Decoding, Event::Decoded(Ok(message("x"))));
    let (stage, action) = step(stage, Event::Scanned(Err(Error::ScanItems("down".to_string()))));
    assert!(matches!(stage, Stage::Finished));
    assert!(matches!(action, Action::Finish(Err(Error::ScanItems(_)))));
}

#[test]
fn empty_registry_broadcast_succeeds_without_sends() {
    let mut registry = HashMap::new();
    let (r, sends) = run_broadcast(&mut registry, Vec::new(), "hello", &[]);
    assert_eq!(r.ok(), Some(200));
    assert!(sends.is_empty());
    assert!(registry.is_empty());
}

#[test]
fn partial_failure_prunes_only_the_unreachable() {
    let mut registry = HashMap::new();
    for id in ["A", "B", "C"] {
        registry.insert(id.to_string(), conn(id));
    }
    let snapshot = vec![conn("A"), conn("B"), conn("C")];
    let (r, sends) = run_broadcast(&mut registry, snapshot, "hello", &["B"]);
    assert_eq!(r.ok(), Some(200));
    assert_eq!(sends.len(), 3);
    assert!(registry.contains_key("A"));
    assert!(!registry.contains_key("B"));
    assert!(registry.contains_key("C"));
}

#[test]
fn every_recipient_gets_the_same_payload() {
    let mut registry = HashMap::new();
    let snapshot = vec![conn("A"), conn("B"), conn("C"), conn("D")];
    let (r, sends) = run_broadcast(&mut registry, snapshot, "same", &["D"]);
    assert_eq!(r.ok(), Some(200));
    let expected = encode_message(&message("same")).ok().unwrap();
    assert_eq!(sends.len(), 4);
    for (_, p) in &sends {
        assert_eq!(p, &expected);
    }
    let ids: Vec<&str> = sends.iter().map(|(id, _)| id.as_str()).collect();
    assert_eq!(ids, vec!["A", "B", "C", "D"]);
}

#[test]
fn stage_keeps_the_encoded_payload() {
    let (stage, _) = step(Stage::Decoding, Event::Decoded(Ok(message("kept"))));
    assert_eq!(expect_payload(&stage), encode_message(&message("kept")).ok().unwrap());
}

#[test]
fn duplicate_ids_are_each_a_target_and_removal_is_idempotent() {
    let mut registry = HashMap::new();
    registry.insert("A".to_string(), conn("A"));
    registry.insert("B".to_string(), conn("B"));
    let snapshot = vec![conn("A"), conn("A"), conn("B")];
    let (r, sends) = run_broadcast(&mut registry, snapshot, "dup", &["A"]);
    assert_eq!(r.ok(), Some(200));
    assert_eq!(sends.len(), 3);
    assert!(!registry.contains_key("A"));
    assert!(registry.contains_key("B"));
}

#[test]
fn targets_and_failures_follow_the_snapshot() {
    let snapshot = vec![conn("A"), conn("B"), conn("C")];
    let targets = delivery_targets(&snapshot);
    assert_eq!(targets, vec!["A", "B", "C"]);
    let failed = failed_targets(&targets, &vec![false, true, false]);
    assert_eq!(failed, vec!["A", "C"]);
    assert!(failed_targets(&targets, &vec![true, true, true]).is_empty());
}

#[test]
fn all_delivered_finishes_without_pruning() {
    let targets = vec!["A".to_string(), "B".to_string()];
    let (stage, action) =
        step(Stage::Delivering { payload: vec![1, 2], targets }, Event::Delivered(vec![true, true]));
    assert!(matches!(stage, Stage::Finished));
    assert!(matches!(action, Action::Finish(Ok(ref r)) if r.status_code == 200));
}

#[test]
fn failed_removal_fails_the_broadcast_with_the_first_error() {
    let r = prune_outcome(vec![
        Ok(()),
        Err(Error::DeleteItem("first".to_string())),
        Err(Error::DeleteItem("second".to_string())),
    ]);
    match r {
        Err(Error::DeleteItem(m)) => assert_eq!(m, "first"),
        _ => panic!("expected the first removal error"),
    }
    assert_eq!(prune_outcome(vec![Ok(()), Ok(())]).ok().map(|r| r.status_code), Some(200));
    assert_eq!(prune_outcome(Vec::new()).ok().map(|r| r.status_code), Some(200));
}
