//! A topic: creates subscriptions against itself and publishes encoded
//! messages to itself.
use vstd::prelude::*;
use vstd::string::{StringExecFns, StringSliceAdditionalSpecFns};
use rand::Rng;
use crate::client::{subscription_name, subscription_qname, Client};
use crate::error::Error;
use crate::framing::{push_bytes, push_text_json, text_json};
use crate::message::EncodedMessage;
use crate::subscription::Subscription;
use crate::wire::{build_uri, classify_response, settle_parse, Method, Transport, WireCodec};

verus! {

/// A handle on one topic, fully named.
pub struct Topic {
    pub name: String,
    pub client: Option<Client>,
}

/// What a publish call returns: the server-assigned id of each message.
#[derive(Clone, Debug)]
pub struct PublishMessageResponse {
    pub message_ids: Vec<String>,
}

/// The batch a publish call sends.
#[derive(Clone)]
pub struct PublishMessageRequest {
    pub messages: Vec<EncodedMessage>,
}

/// An attribute map in wire form: `"key": "value"` pairs joined by `", "`.
pub open spec fn attrs_json(pairs: Seq<(String, String)>) -> Seq<u8>
    decreases pairs.len(),
{
    if pairs.len() == 0 {
        Seq::<u8>::empty()
    } else if pairs.len() == 1 {
        text_json(pairs[0].0@) + ": ".spec_bytes() + text_json(pairs[0].1@)
    } else {
        text_json(pairs[0].0@) + ": ".spec_bytes() + text_json(pairs[0].1@) + ", ".spec_bytes()
            + attrs_json(pairs.drop_first())
    }
}

/// One message in wire form: the base64 body under `"data"`, and the
/// attribute map when the message carries one.
pub open spec fn message_json(m: EncodedMessage) -> Seq<u8> {
    match m.attributes {
        None => "{\"data\": ".spec_bytes() + text_json(m.data@) + "}".spec_bytes(),
        Some(a) => "{\"data\": ".spec_bytes() + text_json(m.data@) + ", \"attributes\": {".spec_bytes()
            + attrs_json(a@) + "}}".spec_bytes(),
    }
}

/// A batch of messages in wire form, joined by `", "`.
pub open spec fn messages_json(ms: Seq<EncodedMessage>) -> Seq<u8>
    decreases ms.len(),
{
    if ms.len() == 0 {
        Seq::<u8>::empty()
    } else if ms.len() == 1 {
        message_json(ms[0])
    } else {
        message_json(ms[0]) + ", ".spec_bytes() + messages_json(ms.drop_first())
    }
}

/// The body of a publish call: `{"messages": [...]}`.
pub open spec fn publish_body_spec(ms: Seq<EncodedMessage>) -> Seq<u8> {
    "{\"messages\": [".spec_bytes() + messages_json(ms) + "]}".spec_bytes()
}

/// The body of a create-subscription call:
/// `{"name": "...", "topic": "..."}`.
pub open spec fn sub_create_body_spec(name: Seq<char>, topic: Seq<char>) -> Seq<u8> {
    "{\"name\": ".spec_bytes() + text_json(name) + ", \"topic\": ".spec_bytes() + text_json(topic)
        + "}".spec_bytes()
}

pub proof fn lemma_attrs_json_push(pairs: Seq<(String, String)>, x: (String, String))
    ensures
        pairs.len() == 0 ==> attrs_json(pairs.push(x)) == text_json(x.0@) + ": ".spec_bytes()
            + text_json(x.1@),
        pairs.len() > 0 ==> attrs_json(pairs.push(x)) == attrs_json(pairs) + ", ".spec_bytes()
            + text_json(x.0@) + ": ".spec_bytes() + text_json(x.1@),
    decreases pairs.len(),
{
    if pairs.len() == 0 {
        assert(pairs.push(x)[0] == x);
    } else if pairs.len() == 1 {
        assert(pairs.push(x)[0] == pairs[0]);
        assert(pairs.push(x).drop_first() =~= seq![x]);
        assert(attrs_json(seq![x]) == text_json(x.0@) + ": ".spec_bytes() + text_json(x.1@));
        assert(attrs_json(pairs.push(x)) =~= attrs_json(pairs) + ", ".spec_bytes() + text_json(x.0@)
            + ": ".spec_bytes() + text_json(x.1@));
    } else {
        lemma_attrs_json_push(pairs.drop_first(), x);
        assert(pairs.push(x).drop_first() =~= pairs.drop_first().push(x));
        assert(pairs.push(x)[0] == pairs[0]);
        assert(attrs_json(pairs.push(x)) =~= attrs_json(pairs) + ", ".spec_bytes() + text_json(x.0@)
            + ": ".spec_bytes() + text_json(x.1@));
    }
}

pub proof fn lemma_messages_json_push(ms: Seq<EncodedMessage>, x: EncodedMessage)
    ensures
        ms.len() == 0 ==> messages_json(ms.push(x)) == message_json(x),
        ms.len() > 0 ==> messages_json(ms.push(x)) == messages_json(ms) + ", ".spec_bytes()
            + message_json(x),
    decreases ms.len(),
{
    if ms.len() == 0 {
        assert(ms.push(x)[0] == x);
    } else if ms.len() == 1 {
        assert(ms.push(x)[0] == ms[0]);
        assert(ms.push(x).drop_first() =~= seq![x]);
        assert(messages_json(seq![x]) == message_json(x));
        assert(messages_json(ms.push(x)) =~= messages_json(ms) + ", ".spec_bytes() + message_json(
            x,
        ));
    } else {
        lemma_messages_json_push(ms.drop_first(), x);
        assert(ms.push(x).drop_first() =~= ms.drop_first().push(x));
        assert(ms.push(x)[0] == ms[0]);
        assert(messages_json(ms.push(x)) =~= messages_json(ms) + ", ".spec_bytes() + message_json(
            x,
        ));
    }
}

/// Appends one message's wire form to `out`.
fn push_message_json(out: &mut Vec<u8>, m: &EncodedMessage)
    ensures
        final(out)@ == old(out)@ + message_json(*m),
{
    let ghost start = out@;
    push_bytes(out, "{\"data\": ".as_bytes());
    push_text_json(out, m.data.as_str());
    match &m.attributes {
        None => {
            push_bytes(out, "}".as_bytes());
        },
        Some(attrs) => {
            push_bytes(out, ", \"attributes\": {".as_bytes());
            let ghost mid = out@;
            let mut i: usize = 0;
            while i < attrs.len()
                invariant
                    i <= attrs.len(),
                    out@ == mid + attrs_json(attrs@.take(i as int)),
                decreases attrs.len() - i,
            {
                if i > 0 {
                    push_bytes(out, ", ".as_bytes());
                }
                push_text_json(out, attrs[i].0.as_str());
                push_bytes(out, ": ".as_bytes());
                push_text_json(out, attrs[i].1.as_str());
                proof {
                    lemma_attrs_json_push(attrs@.take(i as int), attrs@[i as int]);
                    assert(attrs@.take(i as int).push(attrs@[i as int]) =~= attrs@.take(i + 1));
                    assert(out@ =~= mid + attrs_json(attrs@.take(i + 1)));
                }
                i = i + 1;
            }
            assert(attrs@.take(attrs@.len() as int) =~= attrs@);
            push_bytes(out, "}}".as_bytes());
        },
    }
    assert(out@ =~= start + message_json(*m));
}

/// Builds the publish call's body.
pub fn publish_body(req: &PublishMessageRequest) -> (r: Vec<u8>)
    ensures
        r@ == publish_body_spec(req.messages@),
{
    let mut out: Vec<u8> = Vec::new();
    push_bytes(&mut out, "{\"messages\": [".as_bytes());
    let ghost header = out@;
    let mut i: usize = 0;
    while i < req.messages.len()
        invariant
            i <= req.messages.len(),
            out@ == header + messages_json(req.messages@.take(i as int)),
        decreases req.messages.len() - i,
    {
        if i > 0 {
            push_bytes(&mut out, ", ".as_bytes());
        }
        push_message_json(&mut out, &req.messages[i]);
        proof {
            lemma_messages_json_push(req.messages@.take(i as int), req.messages@[i as int]);
            assert(req.messages@.take(i as int).push(req.messages@[i as int]) =~= req.messages@.take(
                i + 1,
            ));
            assert(out@ =~= header + messages_json(req.messages@.take(i + 1)));
        }
        i = i + 1;
    }
    assert(req.messages@.take(req.messages@.len() as int) =~= req.messages@);
    push_bytes(&mut out, "]}".as_bytes());
    assert(out@ =~= publish_body_spec(req.messages@));
    out
}

/// Builds the create-subscription call's body.
pub fn sub_create_body(name: &str, topic: &str) -> (r: Vec<u8>)
    ensures
        r@ == sub_create_body_spec(name@, topic@),
{
    let mut out: Vec<u8> = Vec::new();
    push_bytes(&mut out, "{\"name\": ".as_bytes());
    push_text_json(&mut out, name);
    push_bytes(&mut out, ", \"topic\": ".as_bytes());
    push_text_json(&mut out, topic);
    push_bytes(&mut out, "}".as_bytes());
    assert(out@ =~= sub_create_body_spec(name@, topic@));
    out
}

/// An ASCII letter or digit.
pub open spec fn is_alnum_char(c: char) -> bool {
    (97 <= c as int && c as int <= 122) || (65 <= c as int && c as int <= 90) || (48 <= c as int
        && c as int <= 57)
}

/// Relies on rand's `thread_rng` sampling the `Alphanumeric` distribution:
/// each sample is one of `A-Z`, `a-z`, `0-9`, and exactly thirty are
/// taken. Nothing more is claimed: the result is random.
#[verifier::external_body]
fn random_alphanumeric_suffix() -> (r: String)
    ensures
        r@.len() == 30,
        forall|i: int| 0 <= i < r@.len() ==> is_alnum_char(r@[i]),
{
    rand::thread_rng().sample_iter(&rand::distributions::Alphanumeric).take(30).map(
        char::from,
    ).collect::<String>()
}

/// A fresh, fully qualified subscription name for an ephemeral
/// subscription: `projects/{project}/subscriptions/RST` followed by thirty
/// random alphanumeric characters.
pub fn new_subscription_name(project: &str) -> (r: String)
    ensures
        exists|suffix: Seq<char>|
            #![auto]
            suffix.len() == 30 && (forall|i: int| 0 <= i < suffix.len() ==> is_alnum_char(
                suffix[i],
            )) && r@ == subscription_qname(project@, "RST"@ + suffix),
{
    let slug = random_alphanumeric_suffix();
    let mut short = "RST".to_owned();
    short.append(slug.as_str());
    let n = subscription_name(project, short.as_str());
    assert(n@ == subscription_qname(project@, "RST"@ + slug@));
    n
}

/// Binds a subscription resource parsed from the wire to the client that
/// created it: the name and topic are exactly the parsed ones, the client
/// this one.
pub fn bind_subscription(parsed: Subscription, client: &Client) -> (s: Subscription)
    ensures
        s.name == parsed.name,
        s.topic == parsed.topic,
        s.client is Some,
{
    Subscription { name: parsed.name, topic: parsed.topic, client: Some(client.clone()) }
}

impl Topic {
    /// Creates an ephemeral subscription against this topic under a fresh
    /// random name and binds it to the same client. A `404` names this
    /// topic in a structured not-found error; any other non-`200` status
    /// is a structured remote error carrying the raw body.
    pub fn subscribe<Tr: Transport, C: WireCodec>(&self, transport: &Tr, codec: &C) -> (r: Result<
        Subscription,
        Error,
    >)
        requires
            self.client is Some,
        ensures
            r matches Ok(s) ==> s.client is Some,
            r matches Err(e) ==> (e matches Error::Http(_) || e matches Error::Json(_)
                || e matches Error::PubSub { .. }),
    {
        let client = self.client.as_ref().unwrap();
        let project = client.project();
        let name = new_subscription_name(project.as_str());
        let body = sub_create_body(name.as_str(), self.name.as_str());
        let mut req = client.request(Method::Put, body);
        req.uri = build_uri(client.host().as_str(), name.as_str(), "");
        let resp = match transport.send(&req) {
            Ok(resp) => resp,
            Err(e) => {
                return Err(Error::Http(e));
            },
        };
        let ok_body = match classify_response(resp.status, resp.body, "Not Found",
            "Error occurred attempting to subscribe", self.name.as_str()) {
            Ok(b) => b,
            Err(e) => {
                return Err(e);
            },
        };
        match settle_parse(codec.parse_subscription(ok_body.as_str())) {
            Ok(parsed) => Ok(bind_subscription(parsed, client)),
            Err(e) => Err(e),
        }
    }

    /// Publishes one application value: encodes it, then sends it as a
    /// one-element batch.
    pub fn publish<T: serde::Serialize, Tr: Transport, C: WireCodec>(
        &self,
        transport: &Tr,
        codec: &C,
        data: &T,
    ) -> (r: Result<PublishMessageResponse, Error>)
        requires
            self.client is Some,
        ensures
            r matches Err(e) ==> (e matches Error::Http(_) || e matches Error::Json(_)
                || e matches Error::PubSub { .. }),
    {
        match EncodedMessage::new(data, None) {
            Ok(message) => self.publish_message(transport, codec, message),
            Err(e) => Err(e),
        }
    }

    /// Publishes one pre-built message as a one-element batch and returns
    /// the server-assigned message ids. A `404` names this topic in a
    /// structured not-found error; any other non-`200` status is a
    /// structured remote error carrying the raw body.
    pub fn publish_message<Tr: Transport, C: WireCodec>(
        &self,
        transport: &Tr,
        codec: &C,
        message: EncodedMessage,
    ) -> (r: Result<PublishMessageResponse, Error>)
        requires
            self.client is Some,
        ensures
            r matches Err(e) ==> (e matches Error::Http(_) || e matches Error::Json(_)
                || e matches Error::PubSub { .. }),
    {
        let client = self.client.as_ref().unwrap();
        let mut messages: Vec<EncodedMessage> = Vec::new();
        messages.push(message);
        let payload = PublishMessageRequest { messages };
        let body = publish_body(&payload);
        let mut req = client.request(Method::Post, body);
        req.uri = build_uri(client.host().as_str(), self.name.as_str(), ":publish");
        let resp = match transport.send(&req) {
            Ok(resp) => resp,
            Err(e) => {
                return Err(Error::Http(e));
            },
        };
        let ok_body = match classify_response(resp.status, resp.body, "Not Found",
            "Error occurred attempting to subscribe", self.name.as_str()) {
            Ok(b) => b,
            Err(e) => {
                return Err(e);
            },
        };
        settle_parse(codec.parse_publish(ok_body.as_str()))
    }
}

} // verus!
