use vstd::prelude::*;

verus! {

/// serde_json's dynamic JSON value. It is opaque here: the engine is
/// payload-agnostic and only carries these values through to the caller.
#[verifier::external_type_specification]
#[verifier::external_body]
pub struct ExValue(serde_json::Value);

/// The plain shape of an inbound envelope: its id and which payload fields
/// are present. The payload values themselves stay opaque.
pub ghost struct EnvelopeView {
    pub id: Option<u64>,
    pub has_result: bool,
    pub has_error: bool,
}

/// An inbound JSON-RPC envelope: a reply (id present) or a broadcast
/// notification (id absent). At most one of result/error is meaningful
/// when the id is present; both absent means a null-result success.
pub struct ResponseEnvelope {
    pub id: Option<u64>,
    pub result: Option<serde_json::Value>,
    pub error: Option<serde_json::Value>,
}

impl View for ResponseEnvelope {
    type V = EnvelopeView;

    open spec fn view(&self) -> EnvelopeView {
        EnvelopeView {
            id: self.id,
            has_result: self.result is Some,
            has_error: self.error is Some,
        }
    }
}

/// What parsing an inbound text frame yields: `None` exactly when the text
/// is not valid JSON, else the envelope's plain shape. Parsing is a function
/// of the text alone.
pub uninterp spec fn parse_response(s: Seq<char>) -> Option<EnvelopeView>;

/// Relies on serde_json::from_str::<Value>, which accepts exactly the valid
/// JSON texts, and on serde_json::Value::{get, as_u64} to read the
/// envelope's id and to take its payload fields.
#[verifier::external_body]
pub fn decode_response(s: &str) -> (r: Option<ResponseEnvelope>)
    ensures
        r is Some <==> parse_response(s@) is Some,
        r is Some ==> (r->0)@ == parse_response(s@)->0,
{
    let v: serde_json::Value = match serde_json::from_str(s) {
        Ok(v) => v,
        Err(_) => return None,
    };
    Some(ResponseEnvelope {
        id: v.get("id").and_then(serde_json::Value::as_u64),
        result: v.get("result").cloned(),
        error: v.get("error").cloned(),
    })
}

/// An outbound JSON-RPC envelope. Every request this client sends carries
/// an id; an id-less envelope (a fire-and-forget notification) is
/// representable but unused.
pub struct RequestEnvelope {
    /// The protocol tag; constructors set it to "2.0".
    pub jsonrpc: String,
    pub id: Option<u64>,
    pub method: String,
    pub params: Option<serde_json::Value>,
}

impl RequestEnvelope {
    /// Builds a request envelope bearing the protocol tag.
    pub fn new(id: Option<u64>, method: &str, params: Option<serde_json::Value>) -> (r: Self)
        ensures
            r.jsonrpc@ == "2.0"@,
            r.id == id,
            r.method@ == method@,
            r.params == params,
    {
        RequestEnvelope { jsonrpc: String::from_str("2.0"), id, method: String::from_str(method), params }
    }
}

/// Relies on serde_json::to_string over an object assembled from the
/// envelope's four fields, one member each. The exact text depends on the
/// params value, of which nothing can be stated here; the frame is handed
/// to the transport untouched.
#[verifier::external_body]
pub fn encode_request(req: &RequestEnvelope) -> (r: String)
{
    let mut map = serde_json::Map::new();
    map.insert("jsonrpc".to_string(), serde_json::Value::String(req.jsonrpc.clone()));
    if let Some(id) = req.id {
        map.insert("id".to_string(), serde_json::Value::from(id));
    }
    map.insert("method".to_string(), serde_json::Value::String(req.method.clone()));
    if let Some(p) = &req.params {
        map.insert("params".to_string(), p.clone());
    }
    serde_json::Value::Object(map).to_string()
}

/// The value owed to the caller a reply is for. An error payload wins over
/// a result (it must not be silently shadowed); a reply carrying neither is
/// a null-result success.
pub enum Payload {
    Result(serde_json::Value),
    Error(serde_json::Value),
    Null,
}

/// The payload an envelope delivers, by the precedence above.
pub open spec fn payload_of(env: ResponseEnvelope) -> Payload {
    if env.error is Some {
        Payload::Error(env.error->0)
    } else if env.result is Some {
        Payload::Result(env.result->0)
    } else {
        Payload::Null
    }
}

/// Whether a payload has the shape the envelope's view calls for: error
/// when one is present, else result when one is present, else null.
pub open spec fn payload_fits_view(p: Payload, v: EnvelopeView) -> bool {
    match p {
        Payload::Error(_) => v.has_error,
        Payload::Result(_) => !v.has_error && v.has_result,
        Payload::Null => !v.has_error && !v.has_result,
    }
}

/// Chooses the payload a decoded reply delivers: the error value if one is
/// present, else the result value, else null.
pub fn select_payload(env: ResponseEnvelope) -> (p: Payload)
    ensures
        p == payload_of(env),
        payload_fits_view(p, env@),
{
    match (env.error, env.result) {
        (Some(e), _) => Payload::Error(e),
        (None, Some(v)) => Payload::Result(v),
        (None, None) => Payload::Null,
    }
}

} // verus!
