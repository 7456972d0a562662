//! End-to-end scenarios against a scripted transport: publish/pull/ack
//! flows, structured not-found errors, loop shutdown, and renewal
//! failures.
use std::cell::RefCell;
use std::collections::VecDeque;

use pubsub::client::{Token, TokenUpdate};
use pubsub::control::{
    after_pull_decision, loop_step, pull_loop_decision, shutdown_decision, AfterPull, LoopAction,
    LoopEvent, LoopPhase, ShutdownAction,
};
use pubsub::error::Error;
use pubsub::message::Message;
use pubsub::subscription::{ErrorEnvelope, PullResponse};
use pubsub::topic::PublishMessageResponse;
use pubsub::wire::{Method, Request, Response, Transport, WireCodec};
use pubsub::{Client, EncodedMessage, FromPubSubMessage, Subscription};

struct SeenRequest {
    method: Method,
    uri: String,
    authorization: String,
    content_type: String,
    body: Vec<u8>,
}

struct MockTransport {
    script: RefCell<VecDeque<Result<Response, String>>>,
    seen: RefCell<Vec<SeenRequest>>,
}

impl MockTransport {
    fn new(script: Vec<Result<Response, String>>) -> MockTransport {
        MockTransport {
            script: RefCell::new(script.into_iter().collect()),
            seen: RefCell::new(Vec::new()),
        }
    }

    fn ok(status: u16, body: &str) -> Result<Response, String> {
        Ok(Response {
            status,
            body: body.to_string(),
        })
    }
}

impl Transport for MockTransport {
    fn send(&self, req: &Request) -> Result<Response, String> {
        self.seen.borrow_mut().push(SeenRequest {
            method: req.method,
            uri: req.uri.clone(),
            authorization: req.authorization.clone(),
            content_type: req.content_type.clone(),
            body: req.body.clone(),
        });
        self.script
            .borrow_mut()
            .pop_front()
            .unwrap_or(Err("no scripted response".to_string()))
    }
}

struct JsonCodec;

impl WireCodec for JsonCodec {
    fn parse_pull(&self, body: &str) -> Result<PullResponse, String> {
        let v: serde_json::Value = serde_json::from_str(body).map_err(|e| e.to_string())?;
        let error = match v.get("error") {
            Some(e) => Some(ErrorEnvelope {
                code: e.get("code").and_then(|c| c.as_i64()).unwrap_or(0) as i32,
                message: e
                    .get("message")
                    .and_then(|m| m.as_str())
                    .unwrap_or("")
                    .to_string(),
                status: e
                    .get("status")
                    .and_then(|s| s.as_str())
                    .unwrap_or("")
                    .to_string(),
            }),
            None => None,
        };
        let received_messages = match v.get("receivedMessages") {
            Some(serde_json::Value::Array(items)) => {
                let mut out = Vec::new();
                for item in items {
                    let ack_id = item
                        .get("ackId")
                        .and_then(|a| a.as_str())
                        .ok_or("missing ackId")?
                        .to_string();
                    let wire_message = item.get("message").ok_or("missing message")?;
                    let data = wire_message
                        .get("data")
                        .and_then(|d| d.as_str())
                        .ok_or("missing data")?
                        .to_string();
                    let attributes = match wire_message.get("attributes") {
                        Some(serde_json::Value::Object(map)) => Some(
                            map.iter()
                                .map(|(k, val)| {
                                    (k.clone(), val.as_str().unwrap_or("").to_string())
                                })
                                .collect(),
                        ),
                        _ => None,
                    };
                    out.push(Message {
                        ack_id,
                        message: EncodedMessage { data, attributes },
                    });
                }
                Some(out)
            }
            _ => None,
        };
        Ok(PullResponse {
            received_messages,
            error,
        })
    }

    fn parse_publish(&self, body: &str) -> Result<PublishMessageResponse, String> {
        let v: serde_json::Value = serde_json::from_str(body).map_err(|e| e.to_string())?;
        let ids = match v.get("messageIds") {
            Some(serde_json::Value::Array(items)) => items
                .iter()
                .map(|i| i.as_str().unwrap_or("").to_string())
                .collect(),
            _ => Vec::new(),
        };
        Ok(PublishMessageResponse { message_ids: ids })
    }

    fn parse_subscription(&self, body: &str) -> Result<Subscription, String> {
        let v: serde_json::Value = serde_json::from_str(body).map_err(|e| e.to_string())?;
        let name = v
            .get("name")
            .and_then(|n| n.as_str())
            .ok_or("missing name")?
            .to_string();
        let topic = v
            .get("topic")
            .and_then(|t| t.as_str())
            .map(|t| t.to_string());
        Ok(Subscription {
            name,
            topic,
            client: None,
        })
    }
}

#[derive(Debug, PartialEq)]
struct Widget {
    id: i64,
    name: String,
}

impl FromPubSubMessage for Widget {
    fn from(message: EncodedMessage) -> Result<Widget, Error> {
        let bytes = message
            .decode()
            .map_err(|e| Error::Base64(e.to_string()))?;
        let v: serde_json::Value =
            serde_json::from_slice(&bytes).map_err(|e| Error::Json(e.to_string()))?;
        let id = v
            .get("id")
            .and_then(|i| i.as_i64())
            .ok_or(Error::Json("missing id".to_string()))?;
        let name = v
            .get("name")
            .and_then(|n| n.as_str())
            .ok_or(Error::Json("missing name".to_string()))?
            .to_string();
        Ok(Widget { id, name })
    }
}

fn make_client() -> Client {
    Client::from_string(
        "{\"type\": \"service_account\"}".to_string(),
        "https://pubsub.googleapis.com".to_string(),
        TokenUpdate {
            token: Token {
                token_type: "Bearer".to_string(),
                access_token: "tok-1".to_string(),
            },
            project: "p1".to_string(),
        },
    )
}

fn widget_json() -> serde_json::Value {
    let mut fields = serde_json::Map::new();
    fields.insert("id".to_string(), serde_json::Value::from(1));
    fields.insert("name".to_string(), serde_json::Value::from("widget"));
    serde_json::Value::Object(fields)
}

#[test]
fn scenario_publish_then_pull() {
    let value = widget_json();
    let encoded = EncodedMessage::new(&value, None).unwrap();
    let pull_body_json = format!(
        "{{\"receivedMessages\": [{{\"ackId\": \"a-1\", \"message\": {{\"data\": \"{}\"}}}}]}}",
        encoded.data
    );
    let transport = MockTransport::new(vec![
        MockTransport::ok(
            200,
            "{\"name\": \"projects/p1/subscriptions/RSTx\", \"topic\": \"projects/p1/topics/orders\"}",
        ),
        MockTransport::ok(200, "{\"messageIds\": [\"m1\"]}"),
        MockTransport::ok(200, &pull_body_json),
    ]);
    let codec = JsonCodec;
    let client = make_client();

    let topic = client.topic("orders".to_string());
    assert_eq!(topic.name, "projects/p1/topics/orders");

    let sub = topic.subscribe(&transport, &codec).unwrap();
    assert!(sub.client.is_some());
    assert_eq!(sub.name, "projects/p1/subscriptions/RSTx");
    assert_eq!(sub.topic.as_deref(), Some("projects/p1/topics/orders"));

    let publish_response = topic.publish(&transport, &codec, &value).unwrap();
    assert_eq!(publish_response.message_ids, vec!["m1".to_string()]);

    let pairs = sub
        .get_messages::<Widget, _, _>(&transport, &codec, 10)
        .unwrap();
    assert_eq!(pairs.len(), 1);
    assert!(!pairs[0].1.is_empty());
    assert_eq!(pairs[0].1, "a-1");
    assert_eq!(
        pairs[0].0.as_ref().unwrap(),
        &Widget {
            id: 1,
            name: "widget".to_string()
        }
    );

    let seen = transport.seen.borrow();
    assert_eq!(seen.len(), 3);
    assert!(matches!(seen[0].method, Method::Put));
    assert!(seen[0]
        .uri
        .starts_with("https://pubsub.googleapis.com/v1/projects/p1/subscriptions/RST"));
    assert_eq!(
        seen[0].uri.len(),
        "https://pubsub.googleapis.com/v1/projects/p1/subscriptions/RST".len() + 30
    );
    let create_body = String::from_utf8(seen[0].body.clone()).unwrap();
    assert!(create_body.starts_with("{\"name\": \"projects/p1/subscriptions/RST"));
    assert!(create_body.ends_with("\", \"topic\": \"projects/p1/topics/orders\"}"));
    assert!(matches!(seen[1].method, Method::Post));
    assert_eq!(
        seen[1].uri,
        "https://pubsub.googleapis.com/v1/projects/p1/topics/orders:publish"
    );
    assert!(matches!(seen[2].method, Method::Post));
    assert_eq!(seen[2].body, b"{\"maxMessages\": 10}".to_vec());
    for req in seen.iter() {
        assert_eq!(req.authorization, "Bearer tok-1");
        assert_eq!(req.content_type, "application/json");
    }
}

#[test]
fn pull_keeps_order_and_isolates_bad_message() {
    let value = widget_json();
    let good = EncodedMessage::new(&value, None).unwrap();
    let body = format!(
        "{{\"receivedMessages\": [\
         {{\"ackId\": \"a1\", \"message\": {{\"data\": \"{data}\"}}}}, \
         {{\"ackId\": \"a2\", \"message\": {{\"data\": \"%%%\"}}}}, \
         {{\"ackId\": \"a3\", \"message\": {{\"data\": \"{data}\"}}}}]}}",
        data = good.data
    );
    let transport = MockTransport::new(vec![MockTransport::ok(200, &body)]);
    let client = make_client();
    let sub = client.subscribe("workers".to_string());

    let pairs = sub
        .get_messages::<Widget, _, _>(&transport, &JsonCodec, 10)
        .unwrap();
    assert_eq!(pairs.len(), 3);
    assert_eq!(pairs[0].1, "a1");
    assert_eq!(pairs[1].1, "a2");
    assert_eq!(pairs[2].1, "a3");
    assert!(pairs[0].0.is_ok());
    assert!(matches!(pairs[1].0, Err(Error::Base64(_))));
    assert!(pairs[2].0.is_ok());
}

#[test]
fn pull_empty_response_is_empty_batch() {
    let transport = MockTransport::new(vec![MockTransport::ok(200, "{}")]);
    let client = make_client();
    let sub = client.subscribe("workers".to_string());
    let pairs = sub
        .get_messages::<Widget, _, _>(&transport, &JsonCodec, 10)
        .unwrap();
    assert!(pairs.is_empty());
}

#[test]
fn pull_surfaces_embedded_error_envelope() {
    let body = "{\"error\": {\"code\": 503, \"message\": \"overloaded\", \"status\": \"UNAVAILABLE\"}}";
    let transport = MockTransport::new(vec![MockTransport::ok(200, body)]);
    let client = make_client();
    let sub = client.subscribe("workers".to_string());
    let err = sub
        .get_messages::<Widget, _, _>(&transport, &JsonCodec, 10)
        .unwrap_err();
    match err {
        Error::PubSub {
            code,
            message,
            status,
        } => {
            assert_eq!(code, 503);
            assert_eq!(message, "overloaded");
            assert_eq!(status, "UNAVAILABLE");
        }
        other => panic!("expected a remote error, got {}", other.describe()),
    }
}

#[test]
fn pull_not_found_names_subscription() {
    let transport = MockTransport::new(vec![MockTransport::ok(404, "")]);
    let client = make_client();
    let sub = client.subscribe("workers".to_string());
    let err = sub
        .get_messages::<Widget, _, _>(&transport, &JsonCodec, 10)
        .unwrap_err();
    match err {
        Error::PubSub {
            code,
            message,
            status,
        } => {
            assert_eq!(code, 404);
            assert_eq!(message, "projects/p1/subscriptions/workers");
            assert_eq!(status, "Subscription Not Found");
        }
        other => panic!("expected a remote error, got {}", other.describe()),
    }
}

#[test]
fn publish_not_found_names_topic() {
    let transport = MockTransport::new(vec![MockTransport::ok(404, "")]);
    let client = make_client();
    let topic = client.topic("orders".to_string());
    let err = topic
        .publish(&transport, &JsonCodec, &widget_json())
        .unwrap_err();
    match err {
        Error::PubSub {
            code,
            message,
            status,
        } => {
            assert_eq!(code, 404);
            assert_eq!(message, "projects/p1/topics/orders");
            assert_eq!(status, "Not Found");
        }
        other => panic!("expected a remote error, got {}", other.describe()),
    }
}

#[test]
fn publish_other_status_carries_raw_body() {
    let transport = MockTransport::new(vec![MockTransport::ok(500, "oops")]);
    let client = make_client();
    let topic = client.topic("orders".to_string());
    let err = topic
        .publish(&transport, &JsonCodec, &widget_json())
        .unwrap_err();
    match err {
        Error::PubSub {
            code,
            message,
            status: _,
        } => {
            assert_eq!(code, 500);
            assert_eq!(message, "oops");
        }
        other => panic!("expected a remote error, got {}", other.describe()),
    }
}

#[test]
fn destroy_not_found_names_subscription() {
    let transport = MockTransport::new(vec![MockTransport::ok(404, "")]);
    let client = make_client();
    let sub = client.subscribe("workers".to_string());
    let err = sub.destroy(&transport).unwrap_err();
    match err {
        Error::PubSub {
            code,
            message,
            status,
        } => {
            assert_eq!(code, 404);
            assert_eq!(message, "projects/p1/subscriptions/workers");
            assert_eq!(status, "Subscription Not Found");
        }
        other => panic!("expected a remote error, got {}", other.describe()),
    }
}

#[test]
fn destroy_succeeds_and_issues_delete() {
    let transport = MockTransport::new(vec![MockTransport::ok(200, "")]);
    let client = make_client();
    let sub = client.subscribe("workers".to_string());
    assert!(sub.destroy(&transport).is_ok());
    let seen = transport.seen.borrow();
    assert_eq!(seen.len(), 1);
    assert!(matches!(seen[0].method, Method::Delete));
    assert_eq!(
        seen[0].uri,
        "https://pubsub.googleapis.com/v1/projects/p1/subscriptions/workers"
    );
}

#[test]
fn double_acknowledge_does_not_error() {
    let transport = MockTransport::new(vec![
        MockTransport::ok(200, ""),
        MockTransport::ok(200, ""),
    ]);
    let client = make_client();
    let sub = client.subscribe("workers".to_string());
    sub.acknowledge_messages(&transport, vec!["a-1".to_string()]);
    sub.acknowledge_messages(&transport, vec!["a-1".to_string()]);
    let seen = transport.seen.borrow();
    assert_eq!(seen.len(), 2);
    assert_eq!(seen[0].body, seen[1].body);
    assert_eq!(seen[0].body, b"{\"ackIds\": [\"a-1\"]}".to_vec());
    assert!(seen[0]
        .uri
        .ends_with("/v1/projects/p1/subscriptions/workers:acknowledge"));
}

#[test]
fn acknowledge_failure_is_swallowed() {
    let transport = MockTransport::new(vec![Err("connection reset".to_string())]);
    let client = make_client();
    let sub = client.subscribe("workers".to_string());
    sub.acknowledge_messages(&transport, vec!["a-1".to_string()]);
    assert_eq!(transport.seen.borrow().len(), 1);
}

#[test]
fn pull_undecodable_body_is_a_decode_error() {
    let transport = MockTransport::new(vec![MockTransport::ok(200, "not json at all")]);
    let client = make_client();
    let sub = client.subscribe("workers".to_string());
    let err = sub
        .get_messages::<Widget, _, _>(&transport, &JsonCodec, 10)
        .unwrap_err();
    assert!(matches!(err, Error::Json(_)));
}

#[test]
fn pull_transport_failure_is_a_transport_error() {
    let transport = MockTransport::new(vec![Err("connection refused".to_string())]);
    let client = make_client();
    let sub = client.subscribe("workers".to_string());
    let err = sub
        .get_messages::<Widget, _, _>(&transport, &JsonCodec, 10)
        .unwrap_err();
    assert!(matches!(err, Error::Http(_)));
}

#[test]
fn scenario_stop_mid_iteration_then_drain() {
    let transport = MockTransport::new(vec![
        MockTransport::ok(200, "{}"),
        MockTransport::ok(200, ""),
    ]);
    let client = make_client();
    let sub = client.subscribe("workers".to_string());

    let mut pulls: usize = 0;
    loop {
        match pull_loop_decision(client.is_running()) {
            LoopAction::Exit => break,
            LoopAction::Pull => {
                let outcome = sub.get_messages::<Widget, _, _>(&transport, &JsonCodec, 5);
                pulls += 1;
                if pulls == 1 {
                    client.stop();
                }
                match after_pull_decision(&outcome) {
                    AfterPull::DispatchAndContinue => {}
                    AfterPull::RetryAfterError => {}
                }
            }
        }
    }
    assert_eq!(pulls, 1);
    assert!(!client.is_running());

    assert_eq!(shutdown_decision(2, 0, 10), ShutdownAction::Wait);
    assert_eq!(shutdown_decision(2, 10, 10), ShutdownAction::GiveUp);
    assert_eq!(shutdown_decision(1, 3, 10), ShutdownAction::Destroy);
    assert!(sub.destroy(&transport).is_ok());
    let seen = transport.seen.borrow();
    assert!(matches!(seen[seen.len() - 1].method, Method::Delete));
}

#[test]
fn scenario_failed_renewal_keeps_pulls_authorized() {
    let transport = MockTransport::new(vec![MockTransport::ok(200, "{}")]);
    let client = make_client();
    let sub = client.subscribe("workers".to_string());

    let applied = client.renewal_step(Err("token source unreachable".to_string()));
    assert!(!applied);

    let pairs = sub
        .get_messages::<Widget, _, _>(&transport, &JsonCodec, 5)
        .unwrap();
    assert!(pairs.is_empty());
    let seen = transport.seen.borrow();
    assert_eq!(seen[0].authorization, "Bearer tok-1");
}

#[test]
fn loop_phases_complete_inflight_work_before_exit() {
    let s = loop_step(LoopPhase::AtTop, LoopEvent::FlagRead(true));
    assert_eq!(s, LoopPhase::InFlight);
    // The stop signal cannot end the loop while a pull is in flight.
    assert_eq!(s, loop_step(s, LoopEvent::FlagRead(false)));
    let s = loop_step(s, LoopEvent::PullFinished(true));
    assert_eq!(s, LoopPhase::Dispatching);
    // Nor while the batch is dispatched and acknowledged.
    assert_eq!(s, loop_step(s, LoopEvent::FlagRead(false)));
    let s = loop_step(s, LoopEvent::Dispatched);
    assert_eq!(s, LoopPhase::AtTop);
    // Only at the top of the next iteration is the flag observed.
    assert_eq!(loop_step(s, LoopEvent::FlagRead(false)), LoopPhase::Exited);
    // A failed pull retries; it never exits.
    assert_eq!(
        loop_step(LoopPhase::InFlight, LoopEvent::PullFinished(false)),
        LoopPhase::AtTop
    );
}

#[test]
fn loop_decisions_follow_flag_and_outcome() {
    assert_eq!(pull_loop_decision(true), LoopAction::Pull);
    assert_eq!(pull_loop_decision(false), LoopAction::Exit);
    let ok: Result<u32, String> = Ok(1);
    let err: Result<u32, String> = Err("x".to_string());
    assert_eq!(after_pull_decision(&ok), AfterPull::DispatchAndContinue);
    assert_eq!(after_pull_decision(&err), AfterPull::RetryAfterError);
}
