//! The state document codec: exact text, round trips, escaping, and
//! rejection of bad documents.

use halldyll_starter::runpod_state::{
    PodDesiredStatus, PodId, RemotePodSnapshot, RunPodState, StatePolicy, TargetStatus,
};
use halldyll_starter::state_codec::{decode_state, encode_state, validate_state, StateDocError};

fn plain_state() -> RunPodState {
    RunPodState::new("halldyll-pod".to_string(), 42)
}

fn rich_state() -> RunPodState {
    RunPodState {
        format_version: 1,
        pod_name: "halldyll-pod".to_string(),
        pod_id: Some(PodId::new("p1".to_string())),
        target: TargetStatus::Exited,
        last_remote: Some(RemotePodSnapshot {
            id: PodId::new("p1".to_string()),
            name: "halldyll-pod".to_string(),
            desired_status: PodDesiredStatus::Exited,
            observed_at_ms: 123456789,
        }),
        last_updated_ms: 987654321,
        policy: StatePolicy { reuse_exited_pod: false, auto_terminate_after_exited_ms: Some(5000) },
    }
}

#[test]
fn encodes_exact_document() {
    let text = encode_state(&plain_state());
    assert_eq!(
        text,
        "{\"format_version\":1,\"pod_name\":\"halldyll-pod\",\"pod_id\":null,\
         \"target\":\"RUNNING\",\"last_remote\":null,\"last_updated_ms\":42,\
         \"policy\":{\"reuse_exited_pod\":true,\"auto_terminate_after_exited_ms\":null}}"
    );
}

#[test]
fn encodes_exact_document_with_snapshot() {
    let text = encode_state(&rich_state());
    assert_eq!(
        text,
        "{\"format_version\":1,\"pod_name\":\"halldyll-pod\",\"pod_id\":\"p1\",\
         \"target\":\"EXITED\",\"last_remote\":{\"id\":\"p1\",\"name\":\"halldyll-pod\",\
         \"desired_status\":\"EXITED\",\"observed_at_ms\":123456789},\
         \"last_updated_ms\":987654321,\
         \"policy\":{\"reuse_exited_pod\":false,\"auto_terminate_after_exited_ms\":5000}}"
    );
}

#[test]
fn round_trips_plain_state() {
    let st = plain_state();
    let text = encode_state(&st);
    let back = decode_state(&text).unwrap();
    assert_eq!(back, st);
}

#[test]
fn round_trips_rich_state() {
    let st = rich_state();
    let text = encode_state(&st);
    let back = decode_state(&text).unwrap();
    assert_eq!(back, st);
}

#[test]
fn round_trips_awkward_names() {
    let mut st = plain_state();
    st.pod_name = "a \"quoted\" name with \\ and \t tab and \u{1F680} rocket".to_string();
    st.pod_id = Some(PodId::new("id\nwith newline".to_string()));
    let text = encode_state(&st);
    let back = decode_state(&text).unwrap();
    assert_eq!(back, st);
}

#[test]
fn encoded_document_is_real_json() {
    let st = rich_state();
    let text = encode_state(&st);
    let value: serde_json::Value = serde_json::from_str(&text).unwrap();
    assert_eq!(value["format_version"], serde_json::Value::from(1u32));
    assert_eq!(value["pod_name"], serde_json::Value::from("halldyll-pod"));
    assert_eq!(value["pod_id"], serde_json::Value::from("p1"));
    assert_eq!(value["target"], serde_json::Value::from("EXITED"));
    assert_eq!(value["last_remote"]["id"], serde_json::Value::from("p1"));
    assert_eq!(value["last_remote"]["observed_at_ms"], serde_json::Value::from(123456789u64));
    assert_eq!(value["policy"]["reuse_exited_pod"], serde_json::Value::from(false));
    assert_eq!(value["policy"]["auto_terminate_after_exited_ms"], serde_json::Value::from(5000u64));
}

#[test]
fn escaped_names_are_real_json_too() {
    let mut st = plain_state();
    st.pod_name = "tricky \"\\ \u{0001} name".to_string();
    let text = encode_state(&st);
    let value: serde_json::Value = serde_json::from_str(&text).unwrap();
    assert_eq!(value["pod_name"], serde_json::Value::from("tricky \"\\ \u{0001} name"));
}

#[test]
fn missing_optional_fields_default_to_absent() {
    let text = "{\"format_version\":1,\"pod_name\":\"halldyll-pod\",\"target\":\"RUNNING\",\
                \"last_updated_ms\":42,\"policy\":{\"reuse_exited_pod\":true}}";
    let st = decode_state(text).unwrap();
    assert!(st.pod_id.is_none());
    assert!(st.last_remote.is_none());
    assert!(st.policy.auto_terminate_after_exited_ms.is_none());
    assert_eq!(st, plain_state());
}

#[test]
fn rejects_malformed_text() {
    assert!(matches!(decode_state("not a document"), Err(StateDocError::Malformed)));
    assert!(matches!(decode_state(""), Err(StateDocError::Malformed)));
    let text = encode_state(&plain_state());
    let truncated = &text[..text.len() - 1];
    assert!(matches!(decode_state(truncated), Err(StateDocError::Malformed)));
    let mut trailing = text.clone();
    trailing.push(' ');
    assert!(matches!(decode_state(&trailing), Err(StateDocError::Malformed)));
}

#[test]
fn rejects_wrong_format_version() {
    let mut st = plain_state();
    st.format_version = 2;
    let text = encode_state(&st);
    assert!(matches!(decode_state(&text), Err(StateDocError::WrongVersion)));
}

#[test]
fn rejects_empty_pod_name() {
    let mut st = plain_state();
    st.pod_name = String::new();
    let text = encode_state(&st);
    assert!(matches!(decode_state(&text), Err(StateDocError::EmptyName)));
}

#[test]
fn rejects_blank_pod_name() {
    for name in [" ", "   ", "\t \n", "\u{00A0}\u{2003}"] {
        let mut st = plain_state();
        st.pod_name = name.to_string();
        let text = encode_state(&st);
        assert!(matches!(decode_state(&text), Err(StateDocError::EmptyName)));
        assert!(matches!(validate_state(&st), Err(StateDocError::EmptyName)));
    }
}

#[test]
fn accepts_names_that_merely_contain_whitespace() {
    let mut st = plain_state();
    st.pod_name = " padded name ".to_string();
    assert!(validate_state(&st).is_ok());
    let text = encode_state(&st);
    assert_eq!(decode_state(&text).unwrap(), st);
}

#[test]
fn validate_state_checks_version_and_name() {
    assert!(validate_state(&plain_state()).is_ok());
    let mut wrong_version = plain_state();
    wrong_version.format_version = 7;
    assert!(matches!(validate_state(&wrong_version), Err(StateDocError::WrongVersion)));
    let mut unnamed = plain_state();
    unnamed.pod_name = String::new();
    assert!(matches!(validate_state(&unnamed), Err(StateDocError::EmptyName)));
    let mut blank = plain_state();
    blank.pod_name = " \t".to_string();
    assert!(matches!(validate_state(&blank), Err(StateDocError::EmptyName)));
}
