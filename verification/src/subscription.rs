//! A subscription: pulls batches of wire messages, converts each one
//! independently, acknowledges processed messages best-effort, and can be
//! destroyed once.
use vstd::prelude::*;
use vstd::string::StringSliceAdditionalSpecFns;
use crate::client::Client;
use crate::error::Error;
use crate::framing::{int_text, push_bytes, push_int, push_text_json, text_json};
use crate::message::{FromPubSubMessage, Message};
use crate::wire::{build_uri, settle_parse, Method, Transport, WireCodec};

verus! {

/// The error envelope a response body can carry in place of a message
/// list: a structured remote failure.
pub struct ErrorEnvelope {
    pub code: i32,
    pub message: String,
    pub status: String,
}

/// A pull response once decoded from the wire: zero or more received
/// messages, or an embedded error envelope.
pub struct PullResponse {
    pub received_messages: Option<Vec<Message>>,
    pub error: Option<ErrorEnvelope>,
}

/// The body of a pull call: `{"maxMessages": N}`.
pub open spec fn pull_body_spec(n: int) -> Seq<u8> {
    "{\"maxMessages\": ".spec_bytes() + int_text(n) + "}".spec_bytes()
}

/// Builds the pull call's body.
pub fn pull_body(max_messages: i32) -> (r: Vec<u8>)
    ensures
        r@ == pull_body_spec(max_messages as int),
{
    let mut out: Vec<u8> = Vec::new();
    push_bytes(&mut out, "{\"maxMessages\": ".as_bytes());
    push_int(&mut out, max_messages);
    push_bytes(&mut out, "}".as_bytes());
    assert(out@ =~= pull_body_spec(max_messages as int));
    out
}

/// The acknowledgment ids as a JSON array body: each id a JSON string,
/// joined by `", "`.
pub open spec fn ids_json(ids: Seq<String>) -> Seq<u8>
    decreases ids.len(),
{
    if ids.len() == 0 {
        Seq::<u8>::empty()
    } else if ids.len() == 1 {
        text_json(ids[0]@)
    } else {
        text_json(ids[0]@) + ", ".spec_bytes() + ids_json(ids.drop_first())
    }
}

/// Appending one id extends the joined list by a separator (when the list
/// was non-empty) and that id's JSON string.
pub proof fn lemma_ids_json_push(ids: Seq<String>, x: String)
    ensures
        ids.len() == 0 ==> ids_json(ids.push(x)) == text_json(x@),
        ids.len() > 0 ==> ids_json(ids.push(x)) == ids_json(ids) + ", ".spec_bytes() + text_json(
            x@,
        ),
    decreases ids.len(),
{
    if ids.len() == 0 {
        assert(ids.push(x).len() == 1);
        assert(ids.push(x)[0] == x);
    } else if ids.len() == 1 {
        assert(ids.push(x)[0] == ids[0]);
        assert(ids.push(x).drop_first() =~= seq![x]);
        assert(ids_json(seq![x]) == text_json(x@));
    } else {
        lemma_ids_json_push(ids.drop_first(), x);
        assert(ids.push(x).drop_first() =~= ids.drop_first().push(x));
        assert(ids.push(x)[0] == ids[0]);
        assert(text_json(ids[0]@) + ", ".spec_bytes() + (ids_json(ids.drop_first()) + ", ".spec_bytes()
            + text_json(x@)) =~= (text_json(ids[0]@) + ", ".spec_bytes() + ids_json(
            ids.drop_first(),
        )) + ", ".spec_bytes() + text_json(x@));
    }
}

/// The body of an acknowledge call: `{"ackIds": [...]}`.
pub open spec fn ack_body_spec(ids: Seq<String>) -> Seq<u8> {
    "{\"ackIds\": [".spec_bytes() + ids_json(ids) + "]}".spec_bytes()
}

/// Builds the acknowledge call's body.
pub fn ack_body(ids: &Vec<String>) -> (r: Vec<u8>)
    ensures
        r@ == ack_body_spec(ids@),
{
    let mut out: Vec<u8> = Vec::new();
    push_bytes(&mut out, "{\"ackIds\": [".as_bytes());
    let ghost header = out@;
    let mut i: usize = 0;
    while i < ids.len()
        invariant
            i <= ids.len(),
            out@ == header + ids_json(ids@.take(i as int)),
        decreases ids.len() - i,
    {
        if i > 0 {
            push_bytes(&mut out, ", ".as_bytes());
        }
        push_text_json(&mut out, ids[i].as_str());
        proof {
            lemma_ids_json_push(ids@.take(i as int), ids@[i as int]);
            assert(ids@.take(i as int).push(ids@[i as int]) =~= ids@.take(i + 1));
            assert(out@ =~= header + ids_json(ids@.take(i + 1)));
        }
        i = i + 1;
    }
    assert(ids@.take(ids@.len() as int) =~= ids@);
    push_bytes(&mut out, "]}".as_bytes());
    assert(out@ =~= ack_body_spec(ids@));
    out
}

/// Converts each pulled message independently through the caller's
/// conversion capability: exactly one `(conversion result, ack id)` pair
/// per message, in the order received. One message's conversion sees only
/// that message, so a failure on one cannot disturb its neighbours.
pub fn convert_messages<T: FromPubSubMessage>(msgs: Vec<Message>) -> (r: Vec<
    (Result<T, Error>, String),
>)
    ensures
        r@.len() == msgs@.len(),
        forall|i: int| 0 <= i < msgs@.len() ==> #[trigger] r@[i].1 == msgs@[i].ack_id,
{
    let ghost orig = msgs@;
    let mut rest = msgs;
    let mut r: Vec<(Result<T, Error>, String)> = Vec::new();
    while rest.len() > 0
        invariant
            orig =~= orig.take(r@.len() as int) + rest@,
            r@.len() + rest@.len() == orig.len(),
            forall|i: int| 0 <= i < r@.len() ==> #[trigger] r@[i].1 == orig[i].ack_id,
        decreases rest.len(),
    {
        let m = rest.remove(0);
        assert(m == orig[r@.len() as int]);
        let Message { ack_id, message } = m;
        r.push((T::from(message), ack_id));
        proof {
            assert(orig.take(r@.len() as int) =~= orig.take((r@.len() - 1) as int).push(
                orig[(r@.len() - 1) as int],
            ));
            assert(orig =~= orig.take(r@.len() as int) + rest@);
        }
    }
    r
}

/// How the status and body of a pull response decide the outcome: `404` is
/// the structured not-found error naming the subscription; any other
/// response's body goes to the wire codec, whose outcome [`settle_parse`]
/// settles exactly (the parsed response, or the decode error carrying the
/// codec's text).
pub fn interpret_pull_response<C: WireCodec>(codec: &C, status: u16, body: String, name: &str) -> (r:
    Result<PullResponse, Error>)
    ensures
        status == 404 ==> (r matches Err(e) && e matches Error::PubSub {
            code,
            message,
            status: st,
        } && code == 404 && message@ == name@ && st@ == "Subscription Not Found"@),
        r matches Err(e) ==> (e matches Error::PubSub { .. } || e matches Error::Json(_)),
{
    if status == 404 {
        return Err(Error::PubSub {
            code: 404,
            message: name.to_owned(),
            status: "Subscription Not Found".to_owned(),
        });
    }
    settle_parse(codec.parse_pull(body.as_str()))
}

/// How a decoded pull response settles: an embedded error envelope
/// surfaces as exactly that structured remote error and no pairs are
/// produced; otherwise the pull succeeds — each received message becomes
/// one `(conversion result, ack id)` pair in order, and a missing message
/// list is the empty batch.
pub fn resolve_pull_response<T: FromPubSubMessage>(parsed: PullResponse) -> (r: Result<
    Vec<(Result<T, Error>, String)>,
    Error,
>)
    ensures
        parsed.error matches Some(env) ==> (r matches Err(e) && e matches Error::PubSub {
            code,
            message,
            status,
        } && code == env.code && message@ == env.message@ && status@ == env.status@),
        parsed.error is None ==> (r matches Ok(v) && (match parsed.received_messages {
            Some(msgs) => v@.len() == msgs@.len() && (forall|i: int|
                0 <= i < msgs@.len() ==> #[trigger] v@[i].1 == msgs@[i].ack_id),
            None => v@.len() == 0,
        })),
{
    match parsed.error {
        Some(envelope) => Err(Error::PubSub {
            code: envelope.code,
            message: envelope.message,
            status: envelope.status,
        }),
        None => match parsed.received_messages {
            Some(msgs) => Ok(convert_messages::<T>(msgs)),
            None => Ok(Vec::new()),
        },
    }
}

/// How the delete response's status decides the outcome: `404` is exactly
/// the structured not-found error naming the subscription; any delivered
/// response with another status means the resource is gone.
pub fn destroy_outcome(status: u16, name: String) -> (r: Result<(), Error>)
    ensures
        status == 404 ==> (r matches Err(e) && e matches Error::PubSub {
            code,
            message,
            status: st,
        } && code == 404 && message@ == name@ && st@ == "Subscription Not Found"@),
        status != 404 ==> r is Ok,
{
    if status == 404 {
        Err(Error::PubSub {
            code: 404,
            message: name,
            status: "Subscription Not Found".to_owned(),
        })
    } else {
        Ok(())
    }
}

/// A handle on one subscription, fully named. `topic` is set when the
/// subscription was created from a topic; `client` is absent only on a
/// value freshly decoded from the wire, before it is bound to a client.
#[derive(Clone)]
pub struct Subscription {
    pub name: String,
    pub topic: Option<String>,
    pub client: Option<Client>,
}

impl Subscription {
    /// Acknowledges the given ids, best-effort: the call is issued without
    /// precondition checks (the service treats repeated acknowledgment of
    /// an id as idempotent), and a failed call is deliberately dropped —
    /// the service redelivers unacknowledged messages on its own timeout.
    pub fn acknowledge_messages<Tr: Transport>(&self, transport: &Tr, ids: Vec<String>)
        requires
            self.client is Some,
    {
        let client = self.client.as_ref().unwrap();
        let body = ack_body(&ids);
        let mut req = client.request(Method::Post, body);
        req.uri = build_uri(client.host().as_str(), self.name.as_str(), ":acknowledge");
        let _outcome = transport.send(&req);
    }

    /// Pulls up to `max_messages` messages and converts each one
    /// independently. An embedded error envelope and a `404` surface as
    /// structured remote errors; transport and decode failures keep their
    /// own kinds; a missing message list is an empty batch.
    pub fn get_messages<T: FromPubSubMessage, Tr: Transport, C: WireCodec>(
        &self,
        transport: &Tr,
        codec: &C,
        max_messages: i32,
    ) -> (r: Result<Vec<(Result<T, Error>, String)>, Error>)
        requires
            self.client is Some,
        ensures
            r matches Err(e) ==> (e matches Error::Http(_) || e matches Error::Json(_)
                || e matches Error::PubSub { .. }),
    {
        let client = self.client.as_ref().unwrap();
        let body = pull_body(max_messages);
        let mut req = client.request(Method::Post, body);
        req.uri = build_uri(client.host().as_str(), self.name.as_str(), ":pull");
        let resp = match transport.send(&req) {
            Ok(resp) => resp,
            Err(e) => {
                return Err(Error::Http(e));
            },
        };
        let parsed = match interpret_pull_response(codec, resp.status, resp.body,
            self.name.as_str()) {
            Ok(p) => p,
            Err(e) => {
                return Err(e);
            },
        };
        resolve_pull_response::<T>(parsed)
    }

    /// Destroys the subscription: consumes the handle and issues the
    /// delete call. A connection failure and a `404` (naming this
    /// subscription) are returned; any other response means the resource
    /// is gone.
    pub fn destroy<Tr: Transport>(self, transport: &Tr) -> (r: Result<(), Error>)
        requires
            self.client is Some,
        ensures
            r matches Err(e) ==> (e matches Error::Http(_) || (e matches Error::PubSub {
                code,
                message,
                status: st,
            } && code == 404 && message@ == self.name@ && st@ == "Subscription Not Found"@)),
    {
        let Subscription { name, topic: _topic, client } = self;
        let client = client.unwrap();
        let mut req = client.request(Method::Delete, Vec::new());
        req.uri = build_uri(client.host().as_str(), name.as_str(), "");
        match transport.send(&req) {
            Err(e) => Err(Error::Http(e)),
            Ok(resp) => destroy_outcome(resp.status, name),
        }
    }

    /// The client this subscription is bound to.
    pub fn client(&self) -> (r: &Client)
        requires
            self.client is Some,
        ensures
            *r == self.client->0,
    {
        self.client.as_ref().unwrap()
    }
}

} // verus!
