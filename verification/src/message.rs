//! Messages as they travel on the wire: a base64-encoded body with an
//! optional attribute list, and the conversion capability a caller supplies
//! to turn a pulled message into an application value.
use vstd::prelude::*;
use crate::error::Error;
use base64::Engine;

verus! {

/// The text that the standard base64 encoding (padded, canonical) produces
/// for `bytes`. Its value is fixed by the base64 crate; the contracts of
/// [`base64_encode`] and [`base64_decode`] relate the two directions.
pub uninterp spec fn base64_of(bytes: Seq<u8>) -> Seq<char>;

/// Relies on base64's `STANDARD` engine `encode`: it renders the input in
/// the standard alphabet with padding, so the result is `base64_of` of the
/// input bytes.
#[verifier::external_body]
fn base64_encode(bytes: &[u8]) -> (r: String)
    ensures
        r@ == base64_of(bytes@),
{
    base64::engine::general_purpose::STANDARD.encode(bytes)
}

#[verifier::external_type_specification]
#[verifier::external_body]
pub struct ExDecodeError(base64::DecodeError);

/// Relies on base64's `STANDARD` engine `decode`. That engine requires
/// canonical padding and rejects set trailing bits, so it accepts exactly
/// the texts that `encode` produces: decoding the encoding of `b` gives
/// back `b`, and any accepted text is the encoding of the returned bytes.
#[verifier::external_body]
fn base64_decode(s: &str) -> (r: Result<Vec<u8>, base64::DecodeError>)
    ensures
        r matches Ok(v) ==> s@ == base64_of(v@),
        r matches Ok(v) ==> forall|b: Seq<u8>| s@ == base64_of(b) ==> v@ == b,
        r matches Err(_) ==> forall|b: Seq<u8>| s@ != base64_of(b),
{
    base64::engine::general_purpose::STANDARD.decode(s)
}

/// Relies on serde_json::to_string: renders a serializable value as JSON
/// text. What it returns depends on the caller's `Serialize` impl, so
/// nothing is claimed of the result.
#[verifier::external_body]
fn json_text_of<T: serde::Serialize>(value: &T) -> (r: Result<String, String>) {
    match serde_json::to_string(value) {
        Ok(s) => Ok(s),
        Err(e) => Err(format!("{}", e)),
    }
}

/// An attribute list that stands for a map: no key occurs twice. The wire
/// carries attributes as a string-to-string map, so a message's list is
/// expected to keep that shape.
pub open spec fn attrs_unique(attrs: Option<Vec<(String, String)>>) -> bool {
    match attrs {
        None => true,
        Some(a) => forall|i: int, j: int|
            #![trigger a@[i], a@[j]]
            0 <= i < j < a@.len() ==> a@[i].0@ != a@[j].0@,
    }
}

/// A message in wire form: `data` is the base64 encoding of the payload
/// bytes, `attributes` an optional list of key/value pairs carried
/// alongside (the wire carries them as a string-to-string map, so the
/// keys are unique — see [`attrs_unique`] — and the list keeps the pairs
/// in the order they were given).
#[derive(Clone)]
pub struct EncodedMessage {
    pub data: String,
    pub attributes: Option<Vec<(String, String)>>,
}

/// The conversion capability a caller supplies per subscription: how a
/// pulled wire message becomes an application value. A failed conversion
/// is reported per message and never fails the batch.
pub trait FromPubSubMessage where Self: Sized {
    fn from(message: EncodedMessage) -> Result<Self, Error>;
}

impl EncodedMessage {
    /// The payload bytes, recovered from the base64 body. Decoding the
    /// message built by [`EncodedMessage::new_binary`] from bytes `b`
    /// returns exactly `b`.
    pub fn decode(&self) -> (r: Result<Vec<u8>, base64::DecodeError>)
        ensures
            r matches Ok(v) ==> self.data@ == base64_of(v@),
            forall|b: Seq<u8>| self.data@ == base64_of(b) ==> (r matches Ok(v) && v@ == b),
    {
        base64_decode(self.data.as_str())
    }

    /// The attribute list, if the message carries one.
    pub fn attributes(&self) -> (r: Option<&Vec<(String, String)>>)
        ensures
            r is Some <==> self.attributes is Some,
            r is Some ==> *r->0 == self.attributes->0,
    {
        self.attributes.as_ref()
    }

    /// Encodes an application value: serializes it to JSON text, then
    /// wraps the text's bytes with [`EncodedMessage::new_binary`]. Fails
    /// with `Error::Json` exactly when the caller's serializer fails.
    pub fn new<T: serde::Serialize>(data: &T, attributes: Option<Vec<(String, String)>>) -> (r:
        Result<Self, Error>)
        requires
            attrs_unique(attributes),
        ensures
            r matches Ok(m) ==> m.attributes == attributes && (exists|t: Seq<u8>|
                m.data@ == base64_of(t)),
            r matches Err(e) ==> e matches Error::Json(_),
    {
        match json_text_of(data) {
            Ok(text) => Ok(Self::new_binary(text.as_str().as_bytes(), attributes)),
            Err(msg) => Err(Error::Json(msg)),
        }
    }

    /// Wraps raw payload bytes: the body is their base64 encoding, the
    /// attributes are taken as given.
    pub fn new_binary(incoming: &[u8], attributes: Option<Vec<(String, String)>>) -> (r: Self)
        requires
            attrs_unique(attributes),
        ensures
            r.data@ == base64_of(incoming@),
            r.attributes == attributes,
            attrs_unique(r.attributes),
    {
        let data = base64_encode(incoming);
        EncodedMessage { data, attributes }
    }
}

/// One pulled message: the server-assigned, single-use acknowledgment id,
/// and the message itself.
pub struct Message {
    pub ack_id: String,
    pub message: EncodedMessage,
}

} // verus!
