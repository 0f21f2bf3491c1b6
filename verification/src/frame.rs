//! The three kinds of frame and their passage to and from the positional
//! JSON array of the wire: `[2, id, action, payload]`, `[3, id, payload]` and
//! `[4, id, code, description, details]`.

use vstd::prelude::*;

use crate::errors::RpcErrorCode;
use crate::json::{
    copy_members, items_view, json_of_text, json_text, lemma_array_view, lemma_object_view, members_view, Json,
    JsonValue,
};
use crate::registry::{
    resolve, shape_violation, ActionRegistry, ActionView, Violation, ViolationView,
};

verus! {

/// The number that opens a frame and tells its kind.
#[derive(Clone, Copy, Debug, PartialEq, Eq, Hash, Structural)]
pub enum MessageTypeId {
    Call,
    CallResult,
    CallError,
}

impl MessageTypeId {
    /// The number of a kind: 2, 3 or 4.
    pub open spec fn number_of(self) -> int {
        match self {
            MessageTypeId::Call => 2,
            MessageTypeId::CallResult => 3,
            MessageTypeId::CallError => 4,
        }
    }

    /// The kind that a number stands for; only 2, 3 and 4 stand for one.
    pub open spec fn of_number(number: int) -> Option<MessageTypeId> {
        if number == 2 {
            Some(MessageTypeId::Call)
        } else if number == 3 {
            Some(MessageTypeId::CallResult)
        } else if number == 4 {
            Some(MessageTypeId::CallError)
        } else {
            None
        }
    }

    /// Returns the number of the kind.
    pub fn number(&self) -> (number: i64)
        ensures
            number == self.number_of(),
    {
        match self {
            MessageTypeId::Call => 2,
            MessageTypeId::CallResult => 3,
            MessageTypeId::CallError => 4,
        }
    }

    /// Reads a kind from its number.
    pub fn from_number(number: i64) -> (kind: Option<MessageTypeId>)
        ensures
            kind == MessageTypeId::of_number(number as int),
    {
        if number == 2 {
            Some(MessageTypeId::Call)
        } else if number == 3 {
            Some(MessageTypeId::CallResult)
        } else if number == 4 {
            Some(MessageTypeId::CallError)
        } else {
            None
        }
    }
}

/// A request: `[2, message_id, action, payload]`.
#[derive(Clone, Debug, PartialEq)]
pub struct Call {
    pub message_id: String,
    pub action: String,
    pub payload: Json,
}

/// The response to a request that succeeded: `[3, message_id, payload]`.
#[derive(Clone, Debug, PartialEq)]
pub struct CallResult {
    pub message_id: String,
    pub payload: Json,
}

/// The response to a request that failed:
/// `[4, message_id, error_code, error_description, error_details]`. The
/// details are the members of a JSON object.
#[derive(Clone, Debug, PartialEq)]
pub struct CallError {
    pub message_id: String,
    pub error_code: RpcErrorCode,
    pub error_description: String,
    pub error_details: Vec<(String, Json)>,
}

/// A frame of the wire.
#[derive(Clone, Debug, PartialEq)]
pub enum Frame {
    Call(Call),
    CallResult(CallResult),
    CallError(CallError),
}

/// Why a text is not a frame.
#[derive(Debug, PartialEq)]
pub enum DecodeError {
    /// The text is not JSON.
    NotJson,
    /// The value is not an array, or not one of a length that its kind admits.
    NotArray,
    /// The first element is not one of the numbers 2, 3 and 4; it is given.
    UnknownType(Json),
    /// The second element is not a string.
    MissingMessageId,
    /// The element at this position is not of the JSON type that its place asks for.
    WrongElement(usize),
    /// The table has no action of this name.
    UnknownAction(String),
    /// The payload of a Call departs from the request shape of its action.
    PayloadShape(Violation),
    /// No error code has this name.
    UnknownErrorCode(String),
}

/// The view of a [`Call`].
pub struct CallView {
    pub message_id: Seq<char>,
    pub action: Seq<char>,
    pub payload: JsonValue,
}

/// The view of a [`CallResult`].
pub struct CallResultView {
    pub message_id: Seq<char>,
    pub payload: JsonValue,
}

/// The view of a [`CallError`].
pub struct CallErrorView {
    pub message_id: Seq<char>,
    pub error_code: RpcErrorCode,
    pub error_description: Seq<char>,
    pub error_details: Seq<(Seq<char>, JsonValue)>,
}

/// The view of a [`Frame`].
pub enum FrameView {
    Call(CallView),
    CallResult(CallResultView),
    CallError(CallErrorView),
}

/// The view of a [`DecodeError`].
pub enum DecodeErrorView {
    NotJson,
    NotArray,
    UnknownType(JsonValue),
    MissingMessageId,
    WrongElement(int),
    UnknownAction(Seq<char>),
    PayloadShape(ViolationView),
    UnknownErrorCode(Seq<char>),
}

impl View for Call {
    type V = CallView;

    open spec fn view(&self) -> CallView {
        CallView { message_id: self.message_id@, action: self.action@, payload: self.payload@ }
    }
}

impl View for CallResult {
    type V = CallResultView;

    open spec fn view(&self) -> CallResultView {
        CallResultView { message_id: self.message_id@, payload: self.payload@ }
    }
}

impl View for CallError {
    type V = CallErrorView;

    open spec fn view(&self) -> CallErrorView {
        CallErrorView {
            message_id: self.message_id@,
            error_code: self.error_code,
            error_description: self.error_description@,
            error_details: members_view(self.error_details@),
        }
    }
}

impl View for Frame {
    type V = FrameView;

    open spec fn view(&self) -> FrameView {
        match self {
            Frame::Call(call) => FrameView::Call(call@),
            Frame::CallResult(result) => FrameView::CallResult(result@),
            Frame::CallError(error) => FrameView::CallError(error@),
        }
    }
}

impl View for DecodeError {
    type V = DecodeErrorView;

    open spec fn view(&self) -> DecodeErrorView {
        match self {
            DecodeError::NotJson => DecodeErrorView::NotJson,
            DecodeError::NotArray => DecodeErrorView::NotArray,
            DecodeError::UnknownType(value) => DecodeErrorView::UnknownType(value@),
            DecodeError::MissingMessageId => DecodeErrorView::MissingMessageId,
            DecodeError::WrongElement(at) => DecodeErrorView::WrongElement(*at as int),
            DecodeError::UnknownAction(name) => DecodeErrorView::UnknownAction(name@),
            DecodeError::PayloadShape(violation) => DecodeErrorView::PayloadShape(violation@),
            DecodeError::UnknownErrorCode(name) => DecodeErrorView::UnknownErrorCode(name@),
        }
    }
}

impl FrameView {
    /// The kind of the frame.
    pub open spec fn type_id(self) -> MessageTypeId {
        match self {
            FrameView::Call(_) => MessageTypeId::Call,
            FrameView::CallResult(_) => MessageTypeId::CallResult,
            FrameView::CallError(_) => MessageTypeId::CallError,
        }
    }

    /// The message identifier of the frame.
    pub open spec fn message_id(self) -> Seq<char> {
        match self {
            FrameView::Call(call) => call.message_id,
            FrameView::CallResult(result) => result.message_id,
            FrameView::CallError(error) => error.message_id,
        }
    }

    /// Whether decoding accepts the frame: the action of a Call is in the
    /// table and its payload has the request shape of that action. A
    /// CallResult and a CallError are well formed as they are.
    pub open spec fn well_formed(self, actions: Seq<ActionView>) -> bool {
        match self {
            FrameView::Call(call) => match resolve(actions, call.action) {
                Some(action) => shape_violation(action.request, call.payload) is None,
                None => false,
            },
            _ => true,
        }
    }
}

/// The kind that the first element of an array announces, if it is one.
pub open spec fn announced(first: JsonValue) -> Option<MessageTypeId> {
    match first {
        JsonValue::Integer(number) => MessageTypeId::of_number(number),
        _ => None,
    }
}

/// What an array of kind Call with the identifier `id` decodes to.
pub open spec fn decoded_call(id: Seq<char>, items: Seq<JsonValue>, actions: Seq<ActionView>) -> Result<
    FrameView,
    DecodeErrorView,
> {
    if items.len() != 4 {
        Err(DecodeErrorView::NotArray)
    } else {
        match items[2] {
            JsonValue::String(name) => match resolve(actions, name) {
                None => Err(DecodeErrorView::UnknownAction(name)),
                Some(action) => match shape_violation(action.request, items[3]) {
                    Some(violation) => Err(DecodeErrorView::PayloadShape(violation)),
                    None => Ok(
                        FrameView::Call(
                            CallView { message_id: id, action: name, payload: items[3] },
                        ),
                    ),
                },
            },
            _ => Err(DecodeErrorView::WrongElement(2)),
        }
    }
}

/// What an array of kind CallResult with the identifier `id` decodes to.
pub open spec fn decoded_result(id: Seq<char>, items: Seq<JsonValue>) -> Result<
    FrameView,
    DecodeErrorView,
> {
    if items.len() != 3 {
        Err(DecodeErrorView::NotArray)
    } else {
        Ok(FrameView::CallResult(CallResultView { message_id: id, payload: items[2] }))
    }
}

/// What an array of kind CallError with the identifier `id` decodes to. Details
/// that are `null` count as an empty object.
pub open spec fn decoded_error(id: Seq<char>, items: Seq<JsonValue>) -> Result<
    FrameView,
    DecodeErrorView,
> {
    if items.len() != 5 {
        Err(DecodeErrorView::NotArray)
    } else {
        match items[2] {
            JsonValue::String(name) => match RpcErrorCode::named(name) {
                None => Err(DecodeErrorView::UnknownErrorCode(name)),
                Some(code) => match items[3] {
                    JsonValue::String(description) => {
                        let details = match items[4] {
                            JsonValue::Object(members) => Some(members),
                            JsonValue::Null => Some(Seq::empty()),
                            _ => None,
                        };
                        match details {
                            Some(members) => Ok(
                                FrameView::CallError(
                                    CallErrorView {
                                        message_id: id,
                                        error_code: code,
                                        error_description: description,
                                        error_details: members,
                                    },
                                ),
                            ),
                            None => Err(DecodeErrorView::WrongElement(4)),
                        }
                    },
                    _ => Err(DecodeErrorView::WrongElement(3)),
                },
            },
            _ => Err(DecodeErrorView::WrongElement(2)),
        }
    }
}

/// What a JSON value decodes to, given the table of actions: the value is an
/// array of at least three elements; the first is 2, 3 or 4; the second is a
/// string; the rest is as the kind asks.
pub open spec fn decoded(json: JsonValue, actions: Seq<ActionView>) -> Result<
    FrameView,
    DecodeErrorView,
> {
    match json {
        JsonValue::Array(items) => if items.len() < 3 {
            Err(DecodeErrorView::NotArray)
        } else {
            match announced(items[0]) {
                None => Err(DecodeErrorView::UnknownType(items[0])),
                Some(kind) => match items[1] {
                    JsonValue::String(id) => match kind {
                        MessageTypeId::Call => decoded_call(id, items, actions),
                        MessageTypeId::CallResult => decoded_result(id, items),
                        MessageTypeId::CallError => decoded_error(id, items),
                    },
                    _ => Err(DecodeErrorView::MissingMessageId),
                },
            }
        },
        _ => Err(DecodeErrorView::NotArray),
    }
}

/// What a text decodes to: the text is JSON, and its value decodes.
pub open spec fn decoded_text(text: Seq<char>, actions: Seq<ActionView>) -> Result<
    FrameView,
    DecodeErrorView,
> {
    match json_of_text(text) {
        Some(json) => decoded(json, actions),
        None => Err(DecodeErrorView::NotJson),
    }
}

/// The JSON array of a frame, its elements in the order of the wire.
pub open spec fn encoded(frame: FrameView) -> JsonValue {
    match frame {
        FrameView::Call(call) => JsonValue::Array(
            seq![
                JsonValue::Integer(2),
                JsonValue::String(call.message_id),
                JsonValue::String(call.action),
                call.payload,
            ],
        ),
        FrameView::CallResult(result) => JsonValue::Array(
            seq![JsonValue::Integer(3), JsonValue::String(result.message_id), result.payload],
        ),
        FrameView::CallError(error) => JsonValue::Array(
            seq![
                JsonValue::Integer(4),
                JsonValue::String(error.message_id),
                JsonValue::String(error.error_code.name_text()),
                JsonValue::String(error.error_description),
                JsonValue::Object(error.error_details),
            ],
        ),
    }
}

/// The view of the result of decoding.
pub open spec fn decode_view(result: Result<Frame, DecodeError>) -> Result<
    FrameView,
    DecodeErrorView,
> {
    match result {
        Ok(frame) => Ok(frame@),
        Err(error) => Err(error@),
    }
}

/// Whether `serde_json` reads back from the text that it writes for a value
/// that same value.
pub open spec fn reads_back(json: JsonValue) -> bool {
    json_of_text(json_text(json)) == Some(json)
}

/// Round trip: decoding the array of a well-formed frame gives the frame
/// back.
pub proof fn lemma_decode_encode(frame: FrameView, actions: Seq<ActionView>)
    requires
        frame.well_formed(actions),
    ensures
        decoded(encoded(frame), actions) == Ok::<FrameView, DecodeErrorView>(frame),
{
    match frame {
        FrameView::CallError(error) => {
            crate::errors::lemma_name_round_trip(error.error_code);
        },
        _ => {},
    }
}

/// Round trip through text: where the text written for the array of a
/// well-formed frame reads back as that array, decoding the text gives the
/// frame back, and encoding what was decoded gives the text again.
pub proof fn lemma_decode_encode_text(frame: FrameView, actions: Seq<ActionView>)
    requires
        frame.well_formed(actions),
    ensures
        reads_back(encoded(frame)) ==> decoded_text(json_text(encoded(frame)), actions) == Ok::<
            FrameView,
            DecodeErrorView,
        >(frame),
        reads_back(encoded(frame)) ==> (decoded_text(json_text(encoded(frame)), actions) matches Ok(
            again,
        ) && json_text(encoded(again)) == json_text(encoded(frame))),
{
    lemma_decode_encode(frame, actions);
}

/// An array that opens with anything but 2, 3 or 4 is rejected for its
/// type, whatever else it holds.
pub proof fn lemma_unknown_type_rejected(items: Seq<JsonValue>, actions: Seq<ActionView>)
    requires
        items.len() >= 3,
        announced(items[0]) is None,
    ensures
        decoded(JsonValue::Array(items), actions) == Err::<FrameView, DecodeErrorView>(
            DecodeErrorView::UnknownType(items[0]),
        ),
{
}

/// What decodes is well formed, so that encoding and decoding it gives it
/// back.
pub proof fn lemma_decoded_is_well_formed(json: JsonValue, actions: Seq<ActionView>)
    ensures
        decoded(json, actions) matches Ok(frame) ==> frame.well_formed(actions),
{
}

impl Frame {
    /// The kind of the frame.
    pub fn type_id(&self) -> (kind: MessageTypeId)
        ensures
            kind == self@.type_id(),
    {
        match self {
            Frame::Call(_) => MessageTypeId::Call,
            Frame::CallResult(_) => MessageTypeId::CallResult,
            Frame::CallError(_) => MessageTypeId::CallError,
        }
    }

    /// The message identifier of the frame.
    pub fn message_id(&self) -> (id: &String)
        ensures
            id@ == self@.message_id(),
    {
        match self {
            Frame::Call(call) => &call.message_id,
            Frame::CallResult(result) => &result.message_id,
            Frame::CallError(error) => &error.message_id,
        }
    }
}

/// Decodes the elements of an array that announces a Call.
fn decode_call(id: String, items: Vec<Json>, registry: &ActionRegistry) -> (result: Result<
    Frame,
    DecodeError,
>)
    ensures
        decode_view(result) == decoded_call(id@, items_view(items@), registry@),
{
    let mut items = items;
    if items.len() != 4 {
        return Err(DecodeError::NotArray);
    }
    let action = match &items[2] {
        Json::String(name) => name.clone(),
        _ => {
            return Err(DecodeError::WrongElement(2));
        },
    };
    match registry.resolve(action.as_str()) {
        None => Err(DecodeError::UnknownAction(action)),
        Some(entry) => match entry.request.check(&items[3]) {
            Err(violation) => Err(DecodeError::PayloadShape(violation)),
            Ok(_) => match items.pop() {
                Some(payload) => Ok(Frame::Call(Call { message_id: id, action, payload })),
                None => Err(DecodeError::NotArray),
            },
        },
    }
}

/// Decodes the elements of an array that announces a CallResult.
fn decode_result(id: String, items: Vec<Json>) -> (result: Result<Frame, DecodeError>)
    ensures
        decode_view(result) == decoded_result(id@, items_view(items@)),
{
    let mut items = items;
    if items.len() != 3 {
        return Err(DecodeError::NotArray);
    }
    match items.pop() {
        Some(payload) => Ok(Frame::CallResult(CallResult { message_id: id, payload })),
        None => Err(DecodeError::NotArray),
    }
}

/// Decodes the elements of an array that announces a CallError.
fn decode_error(id: String, items: Vec<Json>) -> (result: Result<Frame, DecodeError>)
    ensures
        decode_view(result) == decoded_error(id@, items_view(items@)),
{
    let mut items = items;
    if items.len() != 5 {
        return Err(DecodeError::NotArray);
    }
    let name = match &items[2] {
        Json::String(name) => name.clone(),
        _ => {
            return Err(DecodeError::WrongElement(2));
        },
    };
    let error_code = match RpcErrorCode::from_name(name.as_str()) {
        Some(code) => code,
        None => {
            return Err(DecodeError::UnknownErrorCode(name));
        },
    };
    let error_description = match &items[3] {
        Json::String(description) => description.clone(),
        _ => {
            return Err(DecodeError::WrongElement(3));
        },
    };
    let ghost all = items_view(items@);
    let error_details = match items.pop() {
        Some(Json::Object(members)) => {
            proof {
                lemma_object_view(members);
            }
            members
        },
        Some(Json::Null) => {
            let members: Vec<(String, Json)> = Vec::new();
            assert(members_view(members@) =~= Seq::empty());
            members
        },
        _ => {
            return Err(DecodeError::WrongElement(4));
        },
    };
    let error = CallError { message_id: id, error_code, error_description, error_details };
    Ok(Frame::CallError(error))
}

/// Decodes a JSON value into a frame, given the table of actions.
pub fn decode_json(json: Json, registry: &ActionRegistry) -> (result: Result<Frame, DecodeError>)
    ensures
        decode_view(result) == decoded(json@, registry@),
{
    match json {
        Json::Array(items) => {
            proof {
                lemma_array_view(items);
            }
            let mut items = items;
            if items.len() < 3 {
                return Err(DecodeError::NotArray);
            }
            let announced = match &items[0] {
                Json::Integer(number) => MessageTypeId::from_number(*number),
                _ => None,
            };
            let kind = match announced {
                Some(kind) => kind,
                None => {
                    let first = items.swap_remove(0);
                    return Err(DecodeError::UnknownType(first));
                },
            };
            let id = match &items[1] {
                Json::String(id) => id.clone(),
                _ => {
                    return Err(DecodeError::MissingMessageId);
                },
            };
            match kind {
                MessageTypeId::Call => decode_call(id, items, registry),
                MessageTypeId::CallResult => decode_result(id, items),
                MessageTypeId::CallError => decode_error(id, items),
            }
        },
        _ => Err(DecodeError::NotArray),
    }
}

/// Decodes a text frame, given the table of actions: the text is read as
/// JSON, and the value is decoded.
pub fn decode(text: &str, registry: &ActionRegistry) -> (result: Result<Frame, DecodeError>)
    ensures
        decode_view(result) == decoded_text(text@, registry@),
{
    match Json::from_text(text) {
        Some(json) => decode_json(json, registry),
        None => Err(DecodeError::NotJson),
    }
}

/// The JSON array of a frame.
pub fn encode_json(frame: &Frame) -> (json: Json)
    ensures
        json@ == encoded(frame@),
{
    let mut items: Vec<Json> = Vec::new();
    match frame {
        Frame::Call(call) => {
            items.push(Json::Integer(2));
            items.push(Json::String(call.message_id.clone()));
            items.push(Json::String(call.action.clone()));
            items.push(call.payload.clone());
        },
        Frame::CallResult(result) => {
            items.push(Json::Integer(3));
            items.push(Json::String(result.message_id.clone()));
            items.push(result.payload.clone());
        },
        Frame::CallError(error) => {
            let members = copy_members(&error.error_details);
            proof {
                lemma_object_view(members);
            }
            let details = Json::Object(members);
            items.push(Json::Integer(4));
            items.push(Json::String(error.message_id.clone()));
            items.push(Json::String(error.error_code.name().to_owned()));
            items.push(Json::String(error.error_description.clone()));
            items.push(details);
        },
    }
    proof {
        lemma_array_view(items);
        assert(items_view(items@) =~= encoded(frame@)->Array_0);
    }
    Json::Array(items)
}

/// Encodes a frame as the compact JSON text of its array.
pub fn encode(frame: &Frame) -> (text: String)
    ensures
        text@ == json_text(encoded(frame@)),
{
    encode_json(frame).into_text()
}

} // verus!
