//! JSON-RPC frames: the bytes of one message and what they say.

use libmcp::{FrameParseError, FramedMessage, RpcEnvelopeKind};
use vstd::prelude::*;

use crate::json::{Json, JsonView, json_from_value, json_of};
use crate::text::blank;

verus! {

/// `libmcp::FramedMessage`, carried as it is.
#[verifier::external_type_specification]
#[verifier::external_body]
pub struct ExFramedMessage(libmcp::FramedMessage);

/// What kind of message a frame is.
pub enum FrameKind {
    Request { id: Json, method: String },
    Notification { method: String },
    Response,
}

/// What kind of message a frame is, in plain values.
pub enum FrameKindView {
    Request { id: JsonView, method: Seq<char> },
    Notification { method: Seq<char> },
    Response { id: JsonView, has_error: bool },
}

/// A frame in plain values.
pub struct FrameView {
    pub payload: Seq<u8>,
    pub kind: FrameKindView,
    pub body: JsonView,
}

/// Why some bytes are no JSON-RPC message.
pub enum FrameFault {
    /// They are no JSON; the parser's message.
    InvalidJson(String),
    /// They are JSON, but no JSON-RPC message; what is wrong with them.
    Malformed(String),
}

/// Why some bytes are no JSON-RPC message, in plain values.
pub enum FrameFaultView {
    InvalidJson(Seq<char>),
    Malformed(Seq<char>),
}

impl View for FrameFault {
    type V = FrameFaultView;

    open spec fn view(&self) -> FrameFaultView {
        match *self {
            FrameFault::InvalidJson(detail) => FrameFaultView::InvalidJson(detail@),
            FrameFault::Malformed(detail) => FrameFaultView::Malformed(detail@),
        }
    }
}

/// One JSON-RPC message.
///
/// Values of this type come from [`Frame::parse`] only, so its parts are the
/// parts of one message.
pub struct Frame {
    message: libmcp::FramedMessage,
    payload: Vec<u8>,
    envelope: Envelope,
    value: serde_json::Value,
}

enum Envelope {
    Request { id: serde_json::Value, method: String },
    Notification { method: String },
    Response { id: serde_json::Value, has_error: bool },
}

impl View for Frame {
    type V = FrameView;

    closed spec fn view(&self) -> FrameView {
        FrameView {
            payload: self.payload@,
            kind: match self.envelope {
                Envelope::Request { id, method } => FrameKindView::Request {
                    id: json_of(id),
                    method: method@,
                },
                Envelope::Notification { method } => FrameKindView::Notification {
                    method: method@,
                },
                Envelope::Response { id, has_error } => FrameKindView::Response {
                    id: json_of(id),
                    has_error,
                },
            },
            body: json_of(self.value),
        }
    }
}

impl FrameView {
    /// The parameters of a message: an empty object where it has none.
    pub open spec fn params(self) -> JsonView {
        match self.body.member("params"@) {
            Some(params) => params,
            None => JsonView::Object(Map::empty()),
        }
    }
}

/// An identifier that a request can have: a text or a number.
pub open spec fn request_id(id: JsonView) -> bool {
    id is Text || id is Unsigned || id is Negative || id is Fraction
}

/// The frame is what its bytes say, and has the form of a message.
pub open spec fn well_read(frame: FrameView) -> bool {
    &&& frame_reading(frame.payload) == Ok::<FrameView, FrameFaultView>(frame)
    &&& frame.body is Object
    &&& match frame.kind {
        FrameKindView::Request { id, method } => request_id(id) && !blank(method),
        FrameKindView::Notification { method } => !blank(method),
        FrameKindView::Response { id, has_error } => request_id(id),
    }
}

impl Frame {
    #[verifier::type_invariant]
    spec fn well_formed(self) -> bool {
        &&& well_read(self@)
        &&& message_payload(self.message) == self.payload@
    }

    /// Reads one message.
    pub fn parse(payload: Vec<u8>) -> (frame: Result<Frame, FrameFault>)
        ensures
            match frame {
                Ok(frame) => frame_reading(payload@) == Ok::<FrameView, FrameFaultView>(frame@)
                    && frame@.payload == payload@ && well_read(frame@),
                Err(fault) => frame_reading(payload@) == Err::<FrameView, FrameFaultView>(fault@),
            },
    {
        parse_message(payload)
    }

    /// The bytes of the message.
    pub fn payload(&self) -> (payload: &Vec<u8>)
        ensures
            payload@ == self@.payload,
    {
        &self.payload
    }

    /// What kind of message it is.
    pub fn kind(&self) -> (kind: FrameKind)
        ensures
            match kind {
                FrameKind::Request { id, method } => self@.kind == (FrameKindView::Request {
                    id: id@,
                    method: method@,
                }),
                FrameKind::Notification { method } => self@.kind == (FrameKindView::Notification {
                    method: method@,
                }),
                FrameKind::Response => self@.kind is Response,
            },
            well_read(self@),
    {
        proof {
            use_type_invariant(self);
        }
        match &self.envelope {
            Envelope::Request { id, method } => FrameKind::Request {
                id: json_from_value(id),
                method: method.clone(),
            },
            Envelope::Notification { method } => FrameKind::Notification { method: method.clone() },
            Envelope::Response { .. } => FrameKind::Response,
        }
    }

    /// The parameters of the message: an empty object where it has none.
    pub fn params(&self) -> (params: Json)
        ensures
            params@ == self@.params(),
    {
        let body = json_from_value(&self.value);
        match body.get("params") {
            Some(params) => params.duplicate(),
            None => Json::empty_object(),
        }
    }

    /// The message as `libmcp` holds it: the one with the bytes of the frame,
    /// which say what the frame says.
    pub(crate) fn message(&self) -> (message: &libmcp::FramedMessage)
        ensures
            message_payload(*message) == self@.payload,
            frame_reading(message_payload(*message)) == Ok::<FrameView, FrameFaultView>(self@),
    {
        proof {
            use_type_invariant(self);
        }
        &self.message
    }
}

/// What the bytes of a frame say: a message, or why they are none.
pub uninterp spec fn frame_reading(payload: Seq<u8>) -> Result<FrameView, FrameFaultView>;

/// The bytes that a message was read from, as `libmcp::FramedMessage::payload`
/// gives them.
pub uninterp spec fn message_payload(message: libmcp::FramedMessage) -> Seq<u8>;

/// `libmcp::FramedMessage::parse` with `payload`, `classify` and `value` of
/// the message: what they give is a function of the bytes, and the payload of
/// a message, which the frame keeps, is the bytes themselves. A message is an object; an identifier is
/// a text or a number, and a method is not blank.
#[verifier::external_body]
fn parse_message(payload: Vec<u8>) -> (frame: Result<Frame, FrameFault>)
    ensures
        match frame {
            Ok(frame) => frame_reading(payload@) == Ok::<FrameView, FrameFaultView>(frame@)
                && frame@.payload == payload@ && message_payload(frame.message) == payload@
                && well_read(frame@),
            Err(fault) => frame_reading(payload@) == Err::<FrameView, FrameFaultView>(fault@),
        },
{
    let message = FramedMessage::parse(payload).map_err(|error| match error {
        FrameParseError::InvalidJson(error) => FrameFault::InvalidJson(error.to_string()),
        other => FrameFault::Malformed(other.to_string()),
    })?;
    let envelope = match message.classify() {
        RpcEnvelopeKind::Request { id, method } =>
            Envelope::Request { id: id.to_json_value(), method: method.to_string() },
        RpcEnvelopeKind::Notification { method } =>
            Envelope::Notification { method: method.to_string() },
        RpcEnvelopeKind::Response { id, has_error } =>
            Envelope::Response { id: id.to_json_value(), has_error },
    };
    Ok(Frame { payload: message.payload().to_vec(), envelope, value: message.value().clone(), message })
}

/// Whether a document nests arrays and objects at most `depth` deep.
pub open spec fn nests_within(json: JsonView, depth: nat) -> bool
    decreases depth,
{
    match json {
        JsonView::Array(items) => depth > 0 && forall|i: int|
            0 <= i < items.len() ==> nests_within(#[trigger] items[i], (depth - 1) as nat),
        JsonView::Object(members) => depth > 0 && forall|name: Seq<char>|
            members.dom().contains(name) ==> nests_within(
                #[trigger] members[name],
                (depth - 1) as nat,
            ),
        _ => true,
    }
}

/// Whether a response with this body is read back: the parser takes a document
/// that nests at most 127 deep, and the response is one level of it.
pub open spec fn shallow(body: JsonView) -> bool {
    nests_within(body, 126)
}

/// The identifier under which a response answers a request, where reading
/// the response back gives that identifier: a text or an integer.
pub open spec fn exact_id(id: JsonView) -> bool {
    id is Text || id is Unsigned || id is Negative
}

/// A response to `id`: with an error object, or with a result.
pub open spec fn response_json(id: JsonView, has_error: bool, outcome: JsonView) -> JsonView {
    if has_error {
        JsonView::Object(
            map!["jsonrpc"@ => JsonView::Text("2.0"@), "id"@ => id, "error"@ => outcome],
        )
    } else {
        JsonView::Object(
            map!["jsonrpc"@ => JsonView::Text("2.0"@), "id"@ => id, "result"@ => outcome],
        )
    }
}

/// An error object: an integer code and a text message.
pub open spec fn error_object(outcome: JsonView) -> bool {
    &&& outcome.member("code"@) matches Some(code) && (code is Unsigned && code->Unsigned_0
        <= i64::MAX || code is Negative)
    &&& outcome.text_member("message"@) is Some
}

/// The compact JSON text of a document, as bytes.
pub uninterp spec fn json_bytes(json: JsonView) -> Seq<u8>;

/// The bytes are those of a response to `id`.
pub open spec fn reads_as_response(payload: Seq<u8>, id: JsonView, has_error: bool) -> bool {
    frame_reading(payload) matches Ok(frame) && frame.payload == payload && frame.kind == (
    FrameKindView::Response { id, has_error })
}

/// `serde_json::to_vec` of a `Value`: the compact JSON text. The parser of
/// `serde_json`, which `libmcp::FramedMessage::parse` uses, fails where it
/// opens the 128th array or object within another: a document that nests at
/// least that deep is not read back. Reading the text of any other response
/// back gives a response with the same identifier, where that is an integer or
/// a text; of other identifiers nothing is said, for the text of a fraction
/// may be read as the fraction beside it.
#[verifier::external_body]
pub(crate) fn encode(value: &serde_json::Value) -> (bytes: Option<Vec<u8>>)
    ensures
        bytes is Some,
        bytes->0@ == json_bytes(json_of(*value)),
        (forall|id: JsonView, has_error: bool, outcome: JsonView|
            json_of(*value) == #[trigger] response_json(id, has_error, outcome) && exact_id(id) && (
            has_error ==> error_object(outcome)) && shallow(outcome) ==> (
            reads_as_response(bytes->0@, id, has_error))),
        !nests_within(json_of(*value), 127) ==> frame_reading(bytes->0@) is Err,
{
    serde_json::to_vec(value).ok()
}

} // verus!
