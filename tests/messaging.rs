use rust_common::kafka::config::{ConsumerConfig, KafkaClientConfig};
use rust_common::kafka::error::KafkaError;
use rust_common::kafka::extensions::{latency_expired, latency_ms, MessageLatency, MessageTimestamp, MessageTiming};
use rust_common::kafka::json::{get_member, JsonValue};
use rust_common::kafka::kafka_consumer::ConcurrencyGate;
use rust_common::kafka::message::{create_message, MessageType, ParsedMessage, ResponseDestination};
use rust_common::kafka::request_sender::{
    new_reply_topic, reply_topic_for, request_message, transaction_id_or_new, PendingRequest, PendingRequests,
    ReplyRoute, RequestAsyncParams, WaitOutcome,
};
use rust_common::kafka::routes_register::RouteRegistry;
use rust_common::kafka::stream_handler::{reply_for, HandlerResult};

fn same(a: &JsonValue, b: &JsonValue) -> bool {
    match (a, b) {
        (JsonValue::Null, JsonValue::Null) => true,
        (JsonValue::Bool(x), JsonValue::Bool(y)) => x == y,
        (JsonValue::Number(x), JsonValue::Number(y)) => x == y,
        (JsonValue::Str(x), JsonValue::Str(y)) => x == y,
        (JsonValue::Array(x), JsonValue::Array(y)) => {
            x.len() == y.len() && x.iter().zip(y.iter()).all(|(p, q)| same(p, q))
        }
        (JsonValue::Object(x), JsonValue::Object(y)) => {
            x.len() == y.len() && x.iter().zip(y.iter()).all(|(p, q)| p.0 == q.0 && same(&p.1, &q.1))
        }
        _ => false,
    }
}

fn object(members: Vec<(&str, JsonValue)>) -> JsonValue {
    JsonValue::Object(members.into_iter().map(|(k, v)| (k.to_string(), v)).collect())
}

fn n42() -> JsonValue {
    object(vec![("n", JsonValue::Number("42".to_string()))])
}

fn request(uri: &str, tx: &str, dest: Option<(&str, &str)>, data: JsonValue) -> ParsedMessage {
    ParsedMessage {
        message_type: MessageType::Request,
        source_id: Some("client".to_string()),
        transaction_id: tx.to_string(),
        message_id: "m-1".to_string(),
        uri: uri.to_string(),
        response_destination: dest.map(|(t, u)| ResponseDestination { topic: t.to_string(), uri: u.to_string() }),
        data,
    }
}

fn status_of(v: &JsonValue) -> (String, String) {
    match v {
        JsonValue::Object(f) => match &f[0].1 {
            JsonValue::Object(s) => match (&s[0].1, &s[1].1) {
                (JsonValue::Str(c), JsonValue::Str(m)) => (c.clone(), m.clone()),
                _ => panic!("status members are not strings"),
            },
            _ => panic!("status is not an object"),
        },
        _ => panic!("payload is not an object"),
    }
}

fn dispatch(
    registry: &RouteRegistry<fn(&ParsedMessage) -> Result<HandlerResult, KafkaError>>,
    msg: &ParsedMessage,
) -> Option<rust_common::kafka::message::SendMessage> {
    let outcome = registry.get_handler(&msg.uri).map(|h| h(msg));
    reply_for(msg, &"server".to_string(), outcome)
}

fn echo(msg: &ParsedMessage) -> Result<HandlerResult, KafkaError> {
    let copy = match &msg.data {
        JsonValue::Object(f) => match &f[0].1 {
            JsonValue::Number(n) => object(vec![("n", JsonValue::Number(n.clone()))]),
            _ => JsonValue::Null,
        },
        _ => JsonValue::Null,
    };
    Ok(HandlerResult::Response(object(vec![("echo", copy)])))
}

fn boom(_msg: &ParsedMessage) -> Result<HandlerResult, KafkaError> {
    Err(KafkaError::InternalServerError("boom".to_string()))
}

fn ack(_msg: &ParsedMessage) -> Result<HandlerResult, KafkaError> {
    Ok(HandlerResult::Acknowledge)
}

fn registry_with(uri: &str, h: fn(&ParsedMessage) -> Result<HandlerResult, KafkaError>) -> RouteRegistry<fn(&ParsedMessage) -> Result<HandlerResult, KafkaError>> {
    let mut r = RouteRegistry::new();
    r.register(uri, h);
    r
}

#[test]
fn envelope_round_trip() {
    let m = request("/echo", "tx-1", Some(("replies", "REQUEST_RESPONSE")), n42());
    let back = ParsedMessage::from_json(m.into_json()).expect("decodes");
    assert_eq!(back.message_type, MessageType::Request);
    assert_eq!(back.source_id.as_deref(), Some("client"));
    assert_eq!(back.transaction_id, "tx-1");
    assert_eq!(back.message_id, "m-1");
    assert_eq!(back.uri, "/echo");
    let d = back.response_destination.unwrap();
    assert_eq!(d.topic, "replies");
    assert_eq!(d.uri, "REQUEST_RESPONSE");
    assert!(same(&back.data, &n42()));
}

#[test]
fn envelope_round_trip_without_optional_members() {
    let mut m = request("/x", "tx-2", None, JsonValue::Null);
    m.source_id = None;
    m.message_type = MessageType::Message;
    let back = ParsedMessage::from_json(m.into_json()).expect("decodes");
    assert!(back.source_id.is_none());
    assert!(back.response_destination.is_none());
    assert_eq!(back.message_type, MessageType::Message);
}

#[test]
fn envelope_wire_member_names() {
    let v = request("/echo", "tx-1", None, JsonValue::Null).into_json();
    match v {
        JsonValue::Object(f) => {
            let names: Vec<&str> = f.iter().map(|p| p.0.as_str()).collect();
            assert_eq!(names, vec!["messageType", "sourceId", "transactionId", "messageId", "uri", "responseDestination", "data"]);
            assert!(matches!(&f[0].1, JsonValue::Str(t) if t == "REQUEST"));
            assert!(matches!(f[5].1, JsonValue::Null));
        }
        _ => panic!("not an object"),
    }
}

#[test]
fn decode_rejects_schema_breaks() {
    let bad_kind = object(vec![
        ("messageType", JsonValue::Str("PING".to_string())),
        ("transactionId", JsonValue::Str("t".to_string())),
        ("messageId", JsonValue::Str("".to_string())),
        ("uri", JsonValue::Str("/a".to_string())),
        ("data", JsonValue::Null),
    ]);
    assert!(ParsedMessage::from_json(bad_kind).is_none());
    let no_data = object(vec![
        ("messageType", JsonValue::Str("REQUEST".to_string())),
        ("transactionId", JsonValue::Str("t".to_string())),
        ("messageId", JsonValue::Str("".to_string())),
        ("uri", JsonValue::Str("/a".to_string())),
    ]);
    assert!(ParsedMessage::from_json(no_data).is_none());
    assert!(ParsedMessage::from_json(JsonValue::Str("x".to_string())).is_none());
    let minimal = object(vec![
        ("messageType", JsonValue::Str("RESPONSE".to_string())),
        ("transactionId", JsonValue::Str("t".to_string())),
        ("messageId", JsonValue::Str("".to_string())),
        ("uri", JsonValue::Str("/a".to_string())),
        ("extra", JsonValue::Bool(true)),
        ("data", JsonValue::Bool(false)),
    ]);
    let m = ParsedMessage::from_json(minimal).expect("unknown members are ignored");
    assert_eq!(m.message_type, MessageType::Response);
    assert!(m.source_id.is_none());
}

#[test]
fn happy_path_echo_reply() {
    let registry = registry_with("/echo", echo);
    let msg = request("/echo", "tx-echo", Some(("client.reply", "REQUEST_RESPONSE")), n42());
    let reply = dispatch(&registry, &msg).expect("one reply");
    assert_eq!(reply.topic, "client.reply");
    assert_eq!(reply.message.transaction_id, "tx-echo");
    assert_eq!(reply.message.message_id, "m-1");
    assert_eq!(reply.message.uri, "REQUEST_RESPONSE");
    assert_eq!(reply.message.message_type, MessageType::Response);
    assert_eq!(reply.message.source_id.as_deref(), Some("server"));
    assert!(reply.message.response_destination.is_none());
    let expected = object(vec![("data", object(vec![("echo", n42())]))]);
    assert!(same(&reply.message.data, &expected));
}

#[test]
fn uri_not_found_reply() {
    let registry = registry_with("/foo", echo);
    let msg = request("/bar", "tx-nf", Some(("client.reply", "REQUEST_RESPONSE")), JsonValue::Null);
    let reply = dispatch(&registry, &msg).expect("one reply");
    let (code, message) = status_of(&reply.message.data);
    assert_eq!(code, "URI_NOT_FOUND");
    assert_eq!(message, "Uri not found: /bar");
    match &reply.message.data {
        JsonValue::Object(f) => assert!(matches!(f[1].1, JsonValue::Null)),
        _ => panic!("not an object"),
    }
}

#[test]
fn fire_and_forget_publishes_nothing() {
    let registry = registry_with("/echo", echo);
    let msg = request("/echo", "tx-ff", None, n42());
    assert!(dispatch(&registry, &msg).is_none());
    let unrouted = request("/nowhere", "tx-ff2", None, n42());
    assert!(dispatch(&registry, &unrouted).is_none());
}

#[test]
fn half_empty_destination_counts_as_absent() {
    let registry = registry_with("/echo", echo);
    let no_topic = request("/echo", "tx", Some(("", "REQUEST_RESPONSE")), n42());
    assert!(!no_topic.should_response());
    assert!(dispatch(&registry, &no_topic).is_none());
    let no_uri = request("/echo", "tx", Some(("replies", "")), n42());
    assert!(!no_uri.should_response());
    assert!(dispatch(&registry, &no_uri).is_none());
    let live = request("/echo", "tx", Some(("replies", "u")), n42());
    assert!(live.should_response());
}

#[test]
fn acknowledge_publishes_nothing() {
    let registry = registry_with("/ack", ack);
    let msg = request("/ack", "tx-ack", Some(("client.reply", "REQUEST_RESPONSE")), JsonValue::Null);
    assert!(dispatch(&registry, &msg).is_none());
}

#[test]
fn handler_error_reply() {
    let registry = registry_with("/boom", boom);
    let msg = request("/boom", "tx-err", Some(("client.reply", "REQUEST_RESPONSE")), JsonValue::Null);
    let reply = dispatch(&registry, &msg).expect("one reply");
    let (code, message) = status_of(&reply.message.data);
    assert_eq!(code, "INTERNAL_SERVER_ERROR");
    assert_eq!(message, "Internal Server Error: boom");
    assert_eq!(reply.message.transaction_id, "tx-err");
}

#[test]
fn registry_insert_lookup_and_overwrite() {
    let mut r: RouteRegistry<u32> = RouteRegistry::new();
    assert_eq!(r.get_registered_uris().len(), 0);
    r.register("/api/v1/login", 1);
    r.register("/api/v1/register", 2);
    r.register("/api/v1/profile", 3);
    r.register("/api/v1/login", 4);
    let uris = r.get_registered_uris();
    assert_eq!(uris.len(), 3);
    assert!(r.has_handler("/api/v1/login"));
    assert!(!r.has_handler("/api/v1/unknown"));
    assert_eq!(r.get_handler("/api/v1/login"), Some(&4));
    assert_eq!(r.get_handler("/api/v1/profile"), Some(&3));
    assert_eq!(r.get_handler("/api/v1/unknown"), None);
}

#[test]
fn timeout_settles_and_late_reply_is_dropped() {
    let mut pending: PendingRequests<u8> = PendingRequests::new();
    pending.track("tx-7".to_string(), PendingRequest::new(7, 0));
    assert!(pending.contains("tx-7"));
    let r = pending.settle("tx-7", WaitOutcome::TimedOut);
    match r {
        Err(KafkaError::TimeoutError(s)) => assert_eq!(s, "request tx-7 timeout"),
        _ => panic!("expected a timeout"),
    }
    assert!(!pending.contains("tx-7"));
    let late = request("/x", "tx-7", None, JsonValue::Null);
    assert!(matches!(pending.accept_reply(late, 5, 600), ReplyRoute::Unmatched(_)));
    assert_eq!(pending.len(), 0);
}

#[test]
fn matching_reply_is_delivered_once() {
    let mut pending: PendingRequests<u8> = PendingRequests::new();
    pending.track("a".to_string(), PendingRequest::new(1, 10));
    pending.track("b".to_string(), PendingRequest::new(2, 20));
    let reply = request("/x", "b", None, JsonValue::Null);
    match pending.accept_reply(reply, 12, 600) {
        ReplyRoute::Deliver(req, msg) => {
            assert_eq!(req.sender, 2);
            assert_eq!(req.created_at_ms, 20);
            assert_eq!(msg.transaction_id, "b");
        }
        _ => panic!("expected delivery"),
    }
    assert!(!pending.contains("b"));
    assert!(pending.contains("a"));
    let again = request("/x", "b", None, JsonValue::Null);
    assert!(matches!(pending.accept_reply(again, 12, 600), ReplyRoute::Unmatched(_)));
    let got = pending.settle("a", WaitOutcome::Replied(request("/x", "a", None, JsonValue::Null)));
    assert_eq!(got.unwrap().transaction_id, "a");
    assert_eq!(pending.len(), 0);
}

#[test]
fn second_track_replaces_first() {
    let mut pending: PendingRequests<u8> = PendingRequests::new();
    pending.track("t".to_string(), PendingRequest::new(1, 0));
    pending.track("t".to_string(), PendingRequest::new(2, 0));
    assert_eq!(pending.len(), 1);
    match pending.accept_reply(request("/x", "t", None, JsonValue::Null), 1, 600) {
        ReplyRoute::Deliver(req, _) => assert_eq!(req.sender, 2),
        _ => panic!("expected delivery"),
    }
}

#[test]
fn stale_reply_is_dropped_and_table_kept() {
    let mut pending: PendingRequests<u8> = PendingRequests::new();
    pending.track("s".to_string(), PendingRequest::new(1, 0));
    let r = pending.accept_reply(request("/x", "s", None, JsonValue::Null), 600_001, 600);
    assert!(matches!(r, ReplyRoute::Stale));
    assert!(pending.contains("s"));
    let at_limit = pending.accept_reply(request("/x", "s", None, JsonValue::Null), 600_000, 600);
    assert!(matches!(at_limit, ReplyRoute::Deliver(_, _)));
}

#[test]
fn send_failure_settles_with_its_error() {
    let mut pending: PendingRequests<u8> = PendingRequests::new();
    pending.track("f".to_string(), PendingRequest::new(1, 0));
    let r = pending.settle("f", WaitOutcome::Failed(KafkaError::InternalServerError("down".to_string())));
    assert!(matches!(r, Err(KafkaError::InternalServerError(_))));
    assert!(!pending.contains("f"));
}

#[test]
fn latency_and_expiry() {
    assert_eq!(latency_ms(10_000, MessageTimestamp::CreateTime(9_000)), 1_000);
    assert_eq!(latency_ms(10_000, MessageTimestamp::LogAppendTime(9_500)), 500);
    assert_eq!(latency_ms(10_000, MessageTimestamp::NotAvailable), 0);
    assert_eq!(latency_ms(i64::MAX, MessageTimestamp::CreateTime(-5)), i64::MAX);
    assert!(latency_expired(1_001, 1));
    assert!(!latency_expired(1_000, 1));
    assert!(!latency_expired(0, -1));
    assert!(!latency_expired(-5, -1));
    let timing = MessageTiming { now_ms: 5_000, stamp: MessageTimestamp::CreateTime(1_000) };
    assert_eq!(timing.get_latency(), 4_000);
    assert!(timing.is_expired(3));
    assert!(!timing.is_expired(4));
}

#[test]
fn concurrency_gate_caps_in_flight() {
    let mut gate = ConcurrencyGate::new(2);
    let mut admitted = 0;
    for _ in 0..10 {
        if gate.try_acquire() {
            admitted += 1;
        }
    }
    assert_eq!(admitted, 2);
    assert_eq!(gate.in_flight(), 2);
    gate.release();
    assert!(gate.try_acquire());
    assert!(!gate.try_acquire());
    for _ in 0..2 {
        gate.release();
    }
    assert_eq!(gate.in_flight(), 0);
    assert_eq!(gate.limit(), 2);
}

#[test]
fn empty_topics_default_to_cluster_id() {
    let base = KafkaClientConfig::new("orders".to_string(), "localhost:9092".to_string());
    assert_eq!(base.subscription_topics(), vec!["orders".to_string()]);
    let empty = KafkaClientConfig::new("orders".to_string(), "b".to_string()).with_topics(vec![]);
    assert_eq!(empty.subscription_topics(), vec!["orders".to_string()]);
    let given = KafkaClientConfig::new("orders".to_string(), "b".to_string())
        .with_topics(vec!["a".to_string(), "b".to_string()]);
    assert_eq!(given.subscription_topics(), vec!["a".to_string(), "b".to_string()]);
}

#[test]
fn client_config_presets() {
    let c = KafkaClientConfig::new("orders".to_string(), "h1:9092,h2:9092".to_string());
    let id = c.get_conf_with_key("client.id").unwrap().clone();
    assert!(id.starts_with("orders-"));
    assert_eq!(id.len(), "orders-".len() + 36);
    assert_eq!(c.get_conf_with_key("bootstrap.servers").map(|s| s.as_str()), Some("h1:9092,h2:9092"));
    assert_eq!(c.get_conf_with_key("allow.auto.create.topics").map(|s| s.as_str()), Some("true"));
    assert_eq!(c.get_conf_keys().len(), 5);
    assert_eq!(c.get_cluster_id(), "orders");
    let c = c.set("compression.type", "lz4");
    assert_eq!(c.get_conf_with_key("compression.type").map(|s| s.as_str()), Some("lz4"));
    let consumer = c.consumer_config();
    assert_eq!(consumer.get_conf_with_key("group.id").map(|s| s.as_str()), Some("orders"));
    assert_eq!(consumer.get_conf_with_key("session.timeout.ms").map(|s| s.as_str()), Some("10000"));
    assert_eq!(consumer.get_conf_with_key("heartbeat.interval.ms").map(|s| s.as_str()), Some("500"));
    let producer = KafkaClientConfig::new("x".to_string(), "b".to_string()).producer_config();
    assert_eq!(producer.get_conf_with_key("acks").map(|s| s.as_str()), Some("0"));
    let d = ConsumerConfig::default();
    assert_eq!(d.workers, 16);
    assert!(d.topics.is_none());
}

#[test]
fn request_envelope_and_ids() {
    let minted = transaction_id_or_new(None);
    assert_eq!(minted.len(), 36);
    assert_ne!(minted, transaction_id_or_new(None));
    assert_eq!(transaction_id_or_new(Some("mine".to_string())), "mine");
    assert_eq!(reply_topic_for("svc", "abc"), "svc.abc");
    let topic = new_reply_topic("svc");
    assert!(topic.starts_with("svc."));
    assert_eq!(topic.len(), 4 + 36);
    let params = RequestAsyncParams::new("svc-topic".to_string(), "/echo".to_string(), None, n42())
        .with_timeout_secs(1);
    assert_eq!(params.message_id, "");
    assert_eq!(params.timeout_or_default(), 1);
    let params = params.with_transaction_id("t1".to_string()).with_message_id("m9".to_string());
    let send = request_message(
        &"svc".to_string(),
        &"svc.reply".to_string(),
        params.topic,
        params.uri,
        params.transaction_id.unwrap(),
        params.message_id,
        params.data,
    );
    assert_eq!(send.topic, "svc-topic");
    assert_eq!(send.message.message_type, MessageType::Request);
    assert_eq!(send.message.source_id.as_deref(), Some("svc"));
    assert_eq!(send.message.transaction_id, "t1");
    assert_eq!(send.message.message_id, "m9");
    let d = send.message.response_destination.unwrap();
    assert_eq!(d.topic, "svc.reply");
    assert_eq!(d.uri, "REQUEST_RESPONSE");
    let defaults = RequestAsyncParams::new("t".to_string(), "/u".to_string(), Some("m".to_string()), JsonValue::Null);
    assert_eq!(defaults.timeout_or_default(), 600);
}

#[test]
fn create_message_defaults_to_message_kind() {
    let s = create_message(None, "m".to_string(), "t".to_string(), "topic".to_string(), "/u".to_string(), JsonValue::Null, None, None);
    assert_eq!(s.message.message_type, MessageType::Message);
    assert_eq!(s.topic, "topic");
    let s = create_message(None, "m".to_string(), "t".to_string(), "topic".to_string(), "/u".to_string(), JsonValue::Null, Some(MessageType::Response), None);
    assert_eq!(s.message.message_type, MessageType::Response);
}

#[test]
fn member_lookup_takes_first_match() {
    let fields = vec![
        ("a".to_string(), JsonValue::Bool(true)),
        ("b".to_string(), JsonValue::Bool(false)),
        ("a".to_string(), JsonValue::Null),
    ];
    assert!(matches!(get_member(&fields, "a"), Some(JsonValue::Bool(true))));
    assert!(matches!(get_member(&fields, "b"), Some(JsonValue::Bool(false))));
    assert!(get_member(&fields, "c").is_none());
}

#[test]
fn payload_text_round_trip() {
    let text = r#"{"messageType":"REQUEST","sourceId":null,"transactionId":"t-1","messageId":"","uri":"/echo","responseDestination":{"topic":"r","uri":"REQUEST_RESPONSE"},"data":{"n":42}}"#;
    let m = ParsedMessage::parse_from_string(text).expect("a valid envelope");
    assert_eq!(m.transaction_id, "t-1");
    assert_eq!(m.uri, "/echo");
    assert!(m.source_id.is_none());
    assert!(m.should_response());
    assert!(same(&m.data, &n42()));
    let out = m.encode();
    assert!(out.contains("\"transactionId\":\"t-1\""));
    assert!(out.contains("\"messageType\":\"REQUEST\""));
    let again = ParsedMessage::parse_from_string(&out).expect("reads back");
    assert_eq!(again.transaction_id, "t-1");
    assert_eq!(again.response_destination.unwrap().topic, "r");
    assert!(same(&again.data, &n42()));
    assert!(ParsedMessage::parse_from_string("not json").is_none());
    assert!(ParsedMessage::parse_from_string("{\"uri\":\"/x\"}").is_none());
}

#[test]
fn reply_data_member_is_extracted() {
    let mut reply = request("/x", "t", None, object(vec![("data", n42())]));
    assert!(matches!(reply.get_data(), Some(JsonValue::Object(_))));
    reply.data = JsonValue::Null;
    assert!(reply.get_data().is_none());
}

#[test]
fn concurrency_cap_with_ten_requests() {
    let registry = registry_with("/slow", echo);
    let mut gate = ConcurrencyGate::new(2);
    let mut queued: Vec<ParsedMessage> = (0..10)
        .map(|i| request("/slow", &format!("tx-{}", i), Some(("client.reply", "REQUEST_RESPONSE")), n42()))
        .collect();
    let mut running: Vec<ParsedMessage> = Vec::new();
    let mut replies: Vec<String> = Vec::new();
    while !queued.is_empty() || !running.is_empty() {
        while !queued.is_empty() && gate.try_acquire() {
            running.push(queued.remove(0));
        }
        assert!(running.len() <= 2);
        assert_eq!(gate.in_flight(), running.len());
        let done = running.remove(0);
        let reply = dispatch(&registry, &done).expect("every request is answered");
        replies.push(reply.message.transaction_id.clone());
        gate.release();
    }
    let expected: Vec<String> = (0..10).map(|i| format!("tx-{}", i)).collect();
    assert_eq!(replies, expected);
}
