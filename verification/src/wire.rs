//! The shape of one HTTP exchange as the client sees it: a fully addressed,
//! authorized request, the transport capability that carries it, and the
//! classification of a response's status.
use vstd::prelude::*;
use vstd::string::StringExecFns;
use crate::error::Error;
use crate::subscription::{PullResponse, Subscription};
use crate::topic::PublishMessageResponse;

verus! {

/// The wire decoding capability, an external collaborator: it turns JSON
/// response bodies into the response shapes the core decides over. A
/// failure is described by its text and surfaces as a decode error.
pub trait WireCodec {
    fn parse_pull(&self, body: &str) -> Result<PullResponse, String>;

    fn parse_publish(&self, body: &str) -> Result<PublishMessageResponse, String>;

    fn parse_subscription(&self, body: &str) -> Result<Subscription, String>;
}

/// The HTTP methods the service's five operations use.
#[derive(Clone, Copy, PartialEq, Eq, Structural, Debug)]
pub enum Method {
    Put,
    Post,
    Delete,
}

/// One request, fully shaped: the caller of the transport sends it as-is.
/// `content_type` and `authorization` are the two headers every request
/// carries; `body` is the JSON request body in bytes.
pub struct Request {
    pub method: Method,
    pub uri: String,
    pub content_type: String,
    pub authorization: String,
    pub body: Vec<u8>,
}

/// One response: the status code and the raw body text.
pub struct Response {
    pub status: u16,
    pub body: String,
}

/// The injected HTTP transport capability: send a request, get back a
/// response or a connection-level failure, described by its text. The
/// network is an external collaborator, so nothing is promised of the
/// outcome.
pub trait Transport {
    fn send(&self, req: &Request) -> Result<Response, String>;
}

/// How a wire codec's parse outcome settles: a parsed value is returned
/// exactly as it is; a failure surfaces as the decode error carrying the
/// codec's text, never silently swallowed.
pub fn settle_parse<U>(parse: Result<U, String>) -> (r: Result<U, Error>)
    ensures
        parse matches Ok(u) ==> (r matches Ok(v) && v == u),
        parse matches Err(m) ==> (r matches Err(e) && e matches Error::Json(t) && t@ == m@),
{
    match parse {
        Ok(u) => Ok(u),
        Err(m) => Err(Error::Json(m)),
    }
}

/// A resource URI under the service's `v1` surface:
/// `{host}/v1/{name}{suffix}`.
pub open spec fn v1_uri(host: Seq<char>, name: Seq<char>, suffix: Seq<char>) -> Seq<char> {
    host + "/v1/"@ + name + suffix
}

/// Builds `{host}/v1/{name}{suffix}`.
pub fn build_uri(host: &str, name: &str, suffix: &str) -> (r: String)
    ensures
        r@ == v1_uri(host@, name@, suffix@),
{
    let mut u = host.to_owned();
    u.append("/v1/");
    u.append(name);
    u.append(suffix);
    u
}

/// How a response's status decides the outcome of a publish, create or
/// delete call: `404` is a structured not-found error naming the resource,
/// `200` hands the body on for decoding, and any other status is a
/// structured remote error carrying the raw body text.
pub fn classify_response(status: u16, body: String, not_found_status: &str, generic_status: &str,
    resource: &str) -> (r: Result<String, Error>)
    ensures
        status == 404 ==> (r matches Err(e) && e matches Error::PubSub { code, message, status: st }
            && code == 404 && message@ == resource@ && st@ == not_found_status@),
        status == 200 ==> (r matches Ok(b) && b == body),
        status != 404 && status != 200 ==> (r matches Err(e) && e matches Error::PubSub {
            code,
            message,
            status: st,
        } && code == status as i32 && message@ == body@ && st@ == generic_status@),
{
    if status == 404 {
        Err(Error::PubSub {
            code: 404,
            message: resource.to_owned(),
            status: not_found_status.to_owned(),
        })
    } else if status == 200 {
        Ok(body)
    } else {
        Err(Error::PubSub {
            code: status as i32,
            message: body,
            status: generic_status.to_owned(),
        })
    }
}

} // verus!
