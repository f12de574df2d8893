use robot_fleet::dispatcher::{
    conclude_dispatch, delivery_topic, dispatch, encode_envelope, frame_envelope, DeliveryError,
    TaskEnvelope, TransportOutcome,
};

fn parsed(body: &str) -> serde_json::Value {
    serde_json::from_str(body).expect("the body is JSON")
}

#[test]
fn topic_is_derived_from_the_worker_name() {
    assert_eq!(delivery_topic("alpha"), "workers/alpha/order");
    assert_eq!(delivery_topic("unit 7"), "workers/unit 7/order");
    assert_eq!(delivery_topic(""), "workers//order");
}

#[test]
fn frame_envelope_places_both_literals() {
    assert_eq!(
        frame_envelope("\"tok-123\"", "\"mango\""),
        "{\"taskToken\":\"tok-123\",\"smoothie\":\"mango\"}"
    );
    assert_eq!(frame_envelope("", ""), "{\"taskToken\":,\"smoothie\":}");
}

#[test]
fn encode_envelope_writes_a_json_object() {
    let envelope = TaskEnvelope {
        continuation_token: "tok-123".to_string(),
        payload: "mango".to_string(),
    };
    assert_eq!(
        encode_envelope(&envelope).unwrap(),
        "{\"taskToken\":\"tok-123\",\"smoothie\":\"mango\"}"
    );
}

#[test]
fn encode_envelope_escapes_what_json_must_escape() {
    let envelope = TaskEnvelope {
        continuation_token: "a\"b\\c\nd\te\u{1}".to_string(),
        payload: "\u{e9}t\u{e9} \u{1F353}".to_string(),
    };
    assert_eq!(
        encode_envelope(&envelope).unwrap(),
        "{\"taskToken\":\"a\\\"b\\\\c\\nd\\te\\u0001\",\"smoothie\":\"\u{e9}t\u{e9} \u{1F353}\"}"
    );
}

#[test]
fn dispatch_builds_the_publication() {
    let publication = dispatch("alpha", "tok-123", "mango").unwrap();
    assert_eq!(publication.topic, "workers/alpha/order");
    assert_eq!(publication.envelope.continuation_token, "tok-123");
    assert_eq!(publication.envelope.payload, "mango");
    assert_eq!(
        publication.body,
        "{\"taskToken\":\"tok-123\",\"smoothie\":\"mango\"}"
    );
}

#[test]
fn dispatched_body_reads_back_as_token_and_payload() {
    let token = "AAAAKgAAAAIAAAAA\"/+=\\ \u{0} \r\n \u{7f} \u{2028} \u{1F379}";
    let payload = "{\"not\": \"parsed\"}";
    let publication = dispatch("alpha", token, payload).unwrap();

    let value = parsed(&publication.body);
    let object = value.as_object().expect("the body is an object");
    assert_eq!(object.len(), 2);
    assert_eq!(value["taskToken"].as_str(), Some(token));
    assert_eq!(value["smoothie"].as_str(), Some(payload));
}

#[test]
fn dispatch_with_empty_fields() {
    let publication = dispatch("", "", "").unwrap();
    assert_eq!(publication.topic, "workers//order");
    assert_eq!(publication.body, "{\"taskToken\":\"\",\"smoothie\":\"\"}");
}

#[test]
fn conclude_dispatch_on_each_answer() {
    assert_eq!(conclude_dispatch(TransportOutcome::Accepted), Ok(()));
    assert_eq!(
        conclude_dispatch(TransportOutcome::Failed),
        Err(DeliveryError::Transport)
    );
}
