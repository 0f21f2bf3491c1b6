//! The engine of one connection: it takes each inbound frame, decodes it,
//! pairs a response with the call that it answers, and says what goes back to
//! the peer.

use vstd::prelude::*;
use vstd::utf8::{decode_utf8, valid_utf8};

use crate::errors::RpcErrorCode;
use crate::frame::{
    decode_json, decoded, Call, CallError, CallErrorView, CallResult, CallResultView,
    CallView, DecodeError, DecodeErrorView, Frame, FrameView,
};
use crate::json::{
    json_of_text, lemma_array_view, members_view, option_view, Json, JsonValue,
};
use crate::registry::{
    resolve, shape_violation, ActionRegistry, ActionView, Violation, ViolationView,
};
use crate::tracker::{registered, resolved, CorrelationTracker};

verus! {

/// Whether the transport still serves the connection.
#[derive(Clone, Copy, Debug, PartialEq, Eq, Hash, Structural)]
pub enum ConnectionState {
    Open,
    Closed,
}

/// What the collaborator reports when its reaction to a Call fails.
#[derive(Clone, Debug, PartialEq)]
pub struct Failure {
    pub code: RpcErrorCode,
    pub description: String,
    pub details: Vec<(String, Json)>,
}

/// Why a Call of ours is not sent.
#[derive(Clone, Debug, PartialEq)]
pub enum SendError {
    /// The connection is closed.
    Closed,
    /// The table has no action of this name.
    UnknownAction,
    /// The payload departs from the request shape of the action.
    PayloadShape(Violation),
    /// A call is outstanding under this identifier.
    DuplicateMessageId,
}

/// What the engine made of one inbound frame.
#[derive(Debug, PartialEq)]
pub enum Outcome {
    /// The connection is closed: the frame was not looked at.
    Ignored,
    /// The frame did not decode: `reply` goes back to the peer.
    Rejected { error: DecodeError, reply: CallError },
    /// A well-formed Call: the collaborator reacts to it, and `answer` makes
    /// the reply of what it reports.
    Request(Call),
    /// A response that settles the call that went out for `action`.
    Resolved { action: String, response: Frame },
    /// A CallResult for the call that went out for `action`, whose payload
    /// departs from the response shape of the action. The call is settled.
    Mismatch { action: String, response: CallResult, violation: Violation },
    /// A response under an identifier that no call is outstanding under.
    Orphan(Frame),
    /// A frame that is not text: `reply` goes back to the peer where the
    /// frame told its identifier, and nothing does where it did not.
    NotText { reply: Option<CallError> },
}

/// The view of a [`Failure`].
pub struct FailureView {
    pub code: RpcErrorCode,
    pub description: Seq<char>,
    pub details: Seq<(Seq<char>, JsonValue)>,
}

/// The view of a [`SendError`].
pub enum SendErrorView {
    Closed,
    UnknownAction,
    PayloadShape(ViolationView),
    DuplicateMessageId,
}

/// The view of an [`Outcome`].
pub enum OutcomeView {
    Ignored,
    Rejected { error: DecodeErrorView, reply: CallErrorView },
    Request(CallView),
    Resolved { action: Seq<char>, response: FrameView },
    Mismatch { action: Seq<char>, response: CallResultView, violation: ViolationView },
    Orphan(FrameView),
    NotText { reply: Option<CallErrorView> },
}

impl View for Failure {
    type V = FailureView;

    open spec fn view(&self) -> FailureView {
        FailureView {
            code: self.code,
            description: self.description@,
            details: members_view(self.details@),
        }
    }
}

impl View for SendError {
    type V = SendErrorView;

    open spec fn view(&self) -> SendErrorView {
        match self {
            SendError::Closed => SendErrorView::Closed,
            SendError::UnknownAction => SendErrorView::UnknownAction,
            SendError::PayloadShape(violation) => SendErrorView::PayloadShape(violation@),
            SendError::DuplicateMessageId => SendErrorView::DuplicateMessageId,
        }
    }
}

impl View for Outcome {
    type V = OutcomeView;

    open spec fn view(&self) -> OutcomeView {
        match self {
            Outcome::Ignored => OutcomeView::Ignored,
            Outcome::Rejected { error, reply } => OutcomeView::Rejected {
                error: error@,
                reply: reply@,
            },
            Outcome::Request(call) => OutcomeView::Request(call@),
            Outcome::Resolved { action, response } => OutcomeView::Resolved {
                action: action@,
                response: response@,
            },
            Outcome::Mismatch { action, response, violation } => OutcomeView::Mismatch {
                action: action@,
                response: response@,
                violation: violation@,
            },
            Outcome::Orphan(response) => OutcomeView::Orphan(response@),
            Outcome::NotText { reply } => OutcomeView::NotText {
                reply: match reply {
                    Some(reply) => Some(reply@),
                    None => None,
                },
            },
        }
    }
}

impl OutcomeView {
    /// The frame that goes back to the peer at once, if one does. The reply to
    /// a `Request` is not among these: `answer` makes it.
    pub open spec fn reply(self) -> Option<CallErrorView> {
        match self {
            OutcomeView::Rejected { reply, .. } => Some(reply),
            OutcomeView::NotText { reply } => reply,
            _ => None,
        }
    }
}

/// The error code that a CallError carries for a frame that did not decode.
pub open spec fn code_of(error: DecodeErrorView) -> RpcErrorCode {
    match error {
        DecodeErrorView::NotJson => RpcErrorCode::RpcFrameworkError,
        DecodeErrorView::NotArray => RpcErrorCode::RpcFrameworkError,
        DecodeErrorView::UnknownType(_) => RpcErrorCode::MessageTypeNotSupported,
        DecodeErrorView::MissingMessageId => RpcErrorCode::RpcFrameworkError,
        DecodeErrorView::WrongElement(_) => RpcErrorCode::RpcFrameworkError,
        DecodeErrorView::UnknownAction(_) => RpcErrorCode::NotImplemented,
        DecodeErrorView::PayloadShape(violation) => match violation {
            ViolationView::NotAnObject => RpcErrorCode::FormatViolation,
            ViolationView::Missing(_) => RpcErrorCode::OccurrenceConstraintViolation,
            ViolationView::WrongType(_) => RpcErrorCode::TypeConstraintViolation,
            ViolationView::InvalidValue(_) => RpcErrorCode::PropertyConstraintViolation,
        },
        DecodeErrorView::UnknownErrorCode(_) => RpcErrorCode::FormatViolation,
    }
}

/// The identifier that a value tells although it may not decode: the second
/// element of an array, where that is a string.
pub open spec fn told_id(json: JsonValue) -> Option<Seq<char>> {
    match json {
        JsonValue::Array(items) => if items.len() >= 2 {
            match items[1] {
                JsonValue::String(id) => Some(id),
                _ => None,
            }
        } else {
            None
        },
        _ => None,
    }
}

/// The identifier of the reply to a frame that did not decode: the one that
/// the frame told, and `"-1"` where it told none.
pub open spec fn reply_id(parsed: Option<JsonValue>) -> Seq<char> {
    match parsed {
        Some(json) => match told_id(json) {
            Some(id) => id,
            None => "-1"@,
        },
        None => "-1"@,
    }
}

/// The CallError for an error code under an identifier: it carries the
/// canonical description of the code and no details.
pub open spec fn refusal(id: Seq<char>, code: RpcErrorCode) -> CallErrorView {
    CallErrorView {
        message_id: id,
        error_code: code,
        error_description: code.description_text(),
        error_details: Seq::empty(),
    }
}

/// What a response that resolved to `action` comes to: a CallResult is held
/// against the response shape of the action, where the table has the action.
pub open spec fn settled(actions: Seq<ActionView>, action: Seq<char>, response: FrameView) -> OutcomeView {
    match response {
        FrameView::CallResult(result) => match resolve(actions, action) {
            Some(entry) => match shape_violation(entry.response, result.payload) {
                Some(violation) => OutcomeView::Mismatch { action, response: result, violation },
                None => OutcomeView::Resolved { action, response },
            },
            None => OutcomeView::Resolved { action, response },
        },
        _ => OutcomeView::Resolved { action, response },
    }
}

/// The state of an engine: the table of actions, the outstanding calls, and
/// whether the connection is open.
pub struct EngineView {
    pub actions: Seq<ActionView>,
    pub pending: Map<Seq<char>, Seq<char>>,
    pub state: ConnectionState,
}

impl EngineView {
    /// Every outstanding call went out for an action of the table. This holds
    /// of a new engine, and sending and handling keep it.
    pub open spec fn consistent(self) -> bool {
        forall|id: Seq<char>| #[trigger]
            self.pending.contains_key(id) ==> resolve(self.actions, self.pending[id]) is Some
    }
}

/// What an engine makes of an inbound text frame that was read as JSON
/// (`None`: the text is not JSON), and the state it is in afterwards.
pub open spec fn handled(engine: EngineView, parsed: Option<JsonValue>) -> (EngineView, OutcomeView) {
    if engine.state is Closed {
        (engine, OutcomeView::Ignored)
    } else {
        let result = match parsed {
            Some(json) => decoded(json, engine.actions),
            None => Err(DecodeErrorView::NotJson),
        };
        match result {
            Err(error) => (
                engine,
                OutcomeView::Rejected {
                    error,
                    reply: refusal(reply_id(parsed), code_of(error)),
                },
            ),
            Ok(FrameView::Call(call)) => (engine, OutcomeView::Request(call)),
            Ok(response) => {
                let (action, rest) = resolved(engine.pending, response.message_id());
                match action {
                    None => (engine, OutcomeView::Orphan(response)),
                    Some(action) => (
                        EngineView { pending: rest, ..engine },
                        settled(engine.actions, action, response),
                    ),
                }
            },
        }
    }
}

/// The reply to a Call, given what the collaborator reports: its payload in
/// a CallResult, where the payload has the response shape of the action; the
/// failure that it reports in a CallError; `InternalError` where the payload
/// departs from the shape, and `NotImplemented` where the table has no such
/// action. The reply carries the identifier of the Call.
pub open spec fn answered(
    actions: Seq<ActionView>,
    call: CallView,
    reaction: Result<JsonValue, FailureView>,
) -> FrameView {
    match reaction {
        Err(failure) => FrameView::CallError(
            CallErrorView {
                message_id: call.message_id,
                error_code: failure.code,
                error_description: failure.description,
                error_details: failure.details,
            },
        ),
        Ok(payload) => match resolve(actions, call.action) {
            None => FrameView::CallError(refusal(call.message_id, RpcErrorCode::NotImplemented)),
            Some(entry) => if shape_violation(entry.response, payload) is None {
                FrameView::CallResult(CallResultView { message_id: call.message_id, payload })
            } else {
                FrameView::CallError(refusal(call.message_id, RpcErrorCode::InternalError))
            },
        },
    }
}

/// What sending a Call of ours comes to: the frame to send and the state
/// afterwards, in which the call is outstanding; or why it is not sent.
pub open spec fn sent(engine: EngineView, id: Seq<char>, action: Seq<char>, payload: JsonValue) -> Result<
    (EngineView, FrameView),
    SendErrorView,
> {
    if engine.state is Closed {
        Err(SendErrorView::Closed)
    } else {
        match resolve(engine.actions, action) {
            None => Err(SendErrorView::UnknownAction),
            Some(entry) => match shape_violation(entry.request, payload) {
                Some(violation) => Err(SendErrorView::PayloadShape(violation)),
                None => match registered(engine.pending, id, action) {
                    Err(_) => Err(SendErrorView::DuplicateMessageId),
                    Ok(pending) => Ok(
                        (
                            EngineView { pending, ..engine },
                            FrameView::Call(CallView { message_id: id, action, payload }),
                        ),
                    ),
                },
            },
        }
    }
}

/// A Call whose action the table does not have is answered with a CallError
/// of code `NotImplemented` under the identifier of the Call, and the engine
/// stays as it is.
pub proof fn lemma_unknown_action_not_implemented(
    engine: EngineView,
    id: Seq<char>,
    action: Seq<char>,
    payload: JsonValue,
)
    requires
        engine.state is Open,
        resolve(engine.actions, action) is None,
    ensures
        handled(
            engine,
            Some(
                JsonValue::Array(
                    seq![
                        JsonValue::Integer(2),
                        JsonValue::String(id),
                        JsonValue::String(action),
                        payload,
                    ],
                ),
            ),
        ) == (
            engine,
            OutcomeView::Rejected {
                error: DecodeErrorView::UnknownAction(action),
                reply: refusal(id, RpcErrorCode::NotImplemented),
            },
        ),
{
}

/// A text that is not JSON is answered with a CallError of code
/// `RpcFrameworkError` under the identifier `"-1"`.
pub proof fn lemma_not_json_rejected(engine: EngineView)
    requires
        engine.state is Open,
    ensures
        handled(engine, None) == (
            engine,
            OutcomeView::Rejected {
                error: DecodeErrorView::NotJson,
                reply: refusal("-1"@, RpcErrorCode::RpcFrameworkError),
            },
        ),
{
}

/// An engine answers a frame that does not decode, whatever the frame, and
/// stays as it is; it answers nothing to a response; and a closed engine
/// neither answers nor changes.
pub proof fn lemma_replies(engine: EngineView, parsed: Option<JsonValue>)
    ensures
        ({
            let (after, outcome) = handled(engine, parsed);
            let result = match parsed {
                Some(json) => decoded(json, engine.actions),
                None => Err(DecodeErrorView::NotJson),
            };
            &&& after.actions == engine.actions
            &&& after.state == engine.state
            &&& engine.state is Closed ==> outcome is Ignored && after == engine
            &&& engine.state is Open && result is Err ==> outcome.reply() is Some && after == engine
            &&& engine.state is Open && result is Ok ==> outcome.reply() is None
            &&& outcome is Request ==> after == engine
        }),
{
}

/// The reply to a Call is a response under the identifier of the Call, and
/// a CallResult in it has the response shape of the action.
pub proof fn lemma_answer_is_response(
    actions: Seq<ActionView>,
    call: CallView,
    reaction: Result<JsonValue, FailureView>,
)
    ensures
        !(answered(actions, call, reaction) is Call),
        answered(actions, call, reaction).message_id() == call.message_id,
        answered(actions, call, reaction) matches FrameView::CallResult(result) ==> (resolve(
            actions,
            call.action,
        ) matches Some(entry) && shape_violation(entry.response, result.payload) is None),
{
}

/// A Call that is sent is well formed and outstanding; one that is not sent
/// under an identifier in use changes nothing.
pub proof fn lemma_sent_is_outstanding(
    engine: EngineView,
    id: Seq<char>,
    action: Seq<char>,
    payload: JsonValue,
)
    ensures
        sent(engine, id, action, payload) matches Ok((after, frame)) ==> frame.well_formed(
            engine.actions,
        ) && after.pending.contains_key(id) && after.pending[id] == action
            && !engine.pending.contains_key(id),
        engine.state is Open && engine.pending.contains_key(id) ==> sent(
            engine,
            id,
            action,
            payload,
        ) is Err,
{
}

/// Sending and handling keep an engine consistent: whatever frames come in
/// and whatever calls go out, each outstanding call is one for an action of
/// the table.
pub proof fn lemma_consistency_kept(
    engine: EngineView,
    parsed: Option<JsonValue>,
    id: Seq<char>,
    action: Seq<char>,
    payload: JsonValue,
)
    requires
        engine.consistent(),
    ensures
        handled(engine, parsed).0.consistent(),
        sent(engine, id, action, payload) matches Ok((after, _)) ==> after.consistent(),
{
}

/// The identifier that the bytes of a frame tell: they are UTF-8, the text
/// is JSON, and the value tells one.
pub open spec fn told_in_bytes(bytes: Seq<u8>) -> Option<Seq<char>> {
    if valid_utf8(bytes) {
        match json_of_text(decode_utf8(bytes)) {
            Some(json) => told_id(json),
            None => None,
        }
    } else {
        None
    }
}

/// What an engine makes of an inbound frame that is not text, given the
/// identifier that the frame told: a `FormatViolation` goes back under it,
/// and nothing where it told none.
pub open spec fn handled_not_text(engine: EngineView, told: Option<Seq<char>>) -> OutcomeView {
    if engine.state is Closed {
        OutcomeView::Ignored
    } else {
        OutcomeView::NotText {
            reply: match told {
                Some(id) => Some(refusal(id, RpcErrorCode::FormatViolation)),
                None => None,
            },
        }
    }
}

/// Calls `core::str::from_utf8`: the bytes are a text exactly where they are
/// valid UTF-8, and the text is then what they decode to.
#[verifier::external_body]
fn text_of_bytes(bytes: &[u8]) -> (text: Option<&str>)
    ensures
        text is Some <==> valid_utf8(bytes@),
        text matches Some(text) ==> text@ == decode_utf8(bytes@),
{
    core::str::from_utf8(bytes).ok()
}

impl Outcome {
    /// The frame that goes back to the peer at once, if one does.
    pub fn reply(&self) -> (reply: Option<&CallError>)
        ensures
            match reply {
                Some(reply) => self@.reply() == Some(reply@),
                None => self@.reply() is None,
            },
    {
        match self {
            Outcome::Rejected { reply, .. } => Some(reply),
            Outcome::NotText { reply } => reply.as_ref(),
            _ => None,
        }
    }
}

/// The error code that a CallError carries for a frame that did not decode.
pub fn error_code(error: &DecodeError) -> (code: RpcErrorCode)
    ensures
        code == code_of(error@),
{
    match error {
        DecodeError::NotJson => RpcErrorCode::RpcFrameworkError,
        DecodeError::NotArray => RpcErrorCode::RpcFrameworkError,
        DecodeError::UnknownType(_) => RpcErrorCode::MessageTypeNotSupported,
        DecodeError::MissingMessageId => RpcErrorCode::RpcFrameworkError,
        DecodeError::WrongElement(_) => RpcErrorCode::RpcFrameworkError,
        DecodeError::UnknownAction(_) => RpcErrorCode::NotImplemented,
        DecodeError::PayloadShape(violation) => match violation {
            Violation::NotAnObject => RpcErrorCode::FormatViolation,
            Violation::Missing(_) => RpcErrorCode::OccurrenceConstraintViolation,
            Violation::WrongType(_) => RpcErrorCode::TypeConstraintViolation,
            Violation::InvalidValue(_) => RpcErrorCode::PropertyConstraintViolation,
        },
        DecodeError::UnknownErrorCode(_) => RpcErrorCode::FormatViolation,
    }
}

/// The identifier that a value tells although it may not decode.
pub fn find_id(json: &Json) -> (id: Option<String>)
    ensures
        match id {
            Some(id) => told_id(json@) == Some(id@),
            None => told_id(json@) is None,
        },
{
    match json {
        Json::Array(items) => {
            proof {
                lemma_array_view(*items);
            }
            if items.len() >= 2 {
                match &items[1] {
                    Json::String(id) => Some(id.clone()),
                    _ => None,
                }
            } else {
                None
            }
        },
        _ => None,
    }
}

/// The CallError for an error code under an identifier.
pub fn refuse(id: String, code: RpcErrorCode) -> (reply: CallError)
    ensures
        reply@ == refusal(id@, code),
{
    let reply = CallError {
        message_id: id,
        error_code: code,
        error_description: code.description().to_owned(),
        error_details: Vec::new(),
    };
    assert(reply@.error_details =~= Seq::empty());
    reply
}

/// The view of what the collaborator reports.
pub open spec fn reaction_view(reaction: Result<Json, Failure>) -> Result<JsonValue, FailureView> {
    match reaction {
        Ok(payload) => Ok(payload@),
        Err(failure) => Err(failure@),
    }
}

/// The engine of one connection.
#[derive(Debug)]
pub struct DispatchEngine {
    registry: ActionRegistry,
    tracker: CorrelationTracker,
    state: ConnectionState,
}

impl View for DispatchEngine {
    type V = EngineView;

    closed spec fn view(&self) -> EngineView {
        EngineView { actions: self.registry@, pending: self.tracker@, state: self.state }
    }
}

impl DispatchEngine {
    /// The engine of a connection that was just made: it is open, and no
    /// call is outstanding.
    pub fn new(registry: ActionRegistry) -> (engine: DispatchEngine)
        ensures
            engine@ == (EngineView {
                actions: registry@,
                pending: Map::empty(),
                state: ConnectionState::Open,
            }),
    {
        DispatchEngine {
            registry,
            tracker: CorrelationTracker::new(),
            state: ConnectionState::Open,
        }
    }

    /// Whether the connection is open or closed.
    pub fn state(&self) -> (state: ConnectionState)
        ensures
            state == self@.state,
    {
        self.state
    }

    /// The table of actions.
    pub fn registry(&self) -> (registry: &ActionRegistry)
        ensures
            registry@ == self@.actions,
    {
        &self.registry
    }

    /// Whether a call of ours is outstanding under an identifier.
    pub fn is_pending(&self, id: &str) -> (pending: bool)
        ensures
            pending == self@.pending.contains_key(id@),
    {
        self.tracker.is_pending(id)
    }

    /// The transport reports that the connection is closed. The calls that
    /// were outstanding are forgotten, and the engine stays closed.
    pub fn close(&mut self)
        ensures
            final(self)@ == (EngineView {
                actions: old(self)@.actions,
                pending: Map::empty(),
                state: ConnectionState::Closed,
            }),
    {
        self.tracker = CorrelationTracker::new();
        self.state = ConnectionState::Closed;
    }

    /// Takes an inbound text frame that was read as JSON; `None` stands for a
    /// text that is not JSON.
    pub fn handle_parsed(&mut self, parsed: Option<Json>) -> (outcome: Outcome)
        ensures
            (final(self)@, outcome@) == handled(old(self)@, option_view(parsed)),
    {
        match self.state {
            ConnectionState::Closed => {
                return Outcome::Ignored;
            },
            ConnectionState::Open => {},
        }
        let told = match &parsed {
            Some(json) => find_id(json),
            None => None,
        };
        let result = match parsed {
            Some(json) => decode_json(json, &self.registry),
            None => Err(DecodeError::NotJson),
        };
        match result {
            Err(error) => {
                let id = match told {
                    Some(id) => id,
                    None => "-1".to_owned(),
                };
                let reply = refuse(id, error_code(&error));
                Outcome::Rejected { error, reply }
            },
            Ok(Frame::Call(call)) => Outcome::Request(call),
            Ok(Frame::CallResult(result)) => {
                match self.tracker.resolve_and_remove(result.message_id.as_str()) {
                    None => Outcome::Orphan(Frame::CallResult(result)),
                    Some(action) => {
                        let checked = match self.registry.resolve(action.as_str()) {
                            Some(entry) => entry.response.check(&result.payload),
                            None => Ok(()),
                        };
                        match checked {
                            Ok(_) => Outcome::Resolved {
                                action,
                                response: Frame::CallResult(result),
                            },
                            Err(violation) => Outcome::Mismatch {
                                action,
                                response: result,
                                violation,
                            },
                        }
                    },
                }
            },
            Ok(Frame::CallError(error)) => {
                match self.tracker.resolve_and_remove(error.message_id.as_str()) {
                    None => Outcome::Orphan(Frame::CallError(error)),
                    Some(action) => Outcome::Resolved { action, response: Frame::CallError(error) },
                }
            },
        }
    }

    /// Takes an inbound text frame: reads it as JSON and goes on as
    /// `handle_parsed` does.
    pub fn handle_inbound(&mut self, text: &str) -> (outcome: Outcome)
        ensures
            (final(self)@, outcome@) == handled(old(self)@, json_of_text(text@)),
    {
        let parsed = Json::from_text(text);
        self.handle_parsed(parsed)
    }

    /// Takes an inbound frame that is not text, given the identifier that it
    /// told, if it told one. The state stays as it is.
    pub fn handle_not_text(&self, told: Option<String>) -> (outcome: Outcome)
        ensures
            outcome@ == handled_not_text(
                self@,
                match told {
                    Some(id) => Some(id@),
                    None => None,
                },
            ),
    {
        match self.state {
            ConnectionState::Closed => Outcome::Ignored,
            ConnectionState::Open => match told {
                Some(id) => Outcome::NotText {
                    reply: Some(refuse(id, RpcErrorCode::FormatViolation)),
                },
                None => Outcome::NotText { reply: None },
            },
        }
    }

    /// Takes the bytes of an inbound frame that is not text: looks for the
    /// identifier that they tell, and goes on as `handle_not_text` does.
    pub fn handle_bytes(&self, bytes: &[u8]) -> (outcome: Outcome)
        ensures
            outcome@ == handled_not_text(self@, told_in_bytes(bytes@)),
    {
        let told = match text_of_bytes(bytes) {
            Some(text) => match Json::from_text(text) {
                Some(json) => find_id(&json),
                None => None,
            },
            None => None,
        };
        self.handle_not_text(told)
    }

    /// Makes the reply to a Call of what the collaborator reports.
    pub fn answer(&self, call: &Call, reaction: Result<Json, Failure>) -> (reply: Frame)
        ensures
            reply@ == answered(self@.actions, call@, reaction_view(reaction)),
    {
        let id = call.message_id.clone();
        match reaction {
            Err(failure) => Frame::CallError(
                CallError {
                    message_id: id,
                    error_code: failure.code,
                    error_description: failure.description,
                    error_details: failure.details,
                },
            ),
            Ok(payload) => match self.registry.resolve(call.action.as_str()) {
                None => Frame::CallError(refuse(id, RpcErrorCode::NotImplemented)),
                Some(entry) => match entry.response.check(&payload) {
                    Ok(_) => Frame::CallResult(CallResult { message_id: id, payload }),
                    Err(_) => Frame::CallError(refuse(id, RpcErrorCode::InternalError)),
                },
            },
        }
    }

    /// Sends a Call of ours: gives the frame to send and keeps the call as
    /// outstanding. The state stays as it is where the call is not sent.
    pub fn send(&mut self, id: String, action: String, payload: Json) -> (result: Result<
        Frame,
        SendError,
    >)
        ensures
            match result {
                Ok(frame) => sent(old(self)@, id@, action@, payload@) == Ok::<
                    (EngineView, FrameView),
                    SendErrorView,
                >((final(self)@, frame@)),
                Err(error) => sent(old(self)@, id@, action@, payload@) == Err::<
                    (EngineView, FrameView),
                    SendErrorView,
                >(error@) && final(self)@ == old(self)@,
            },
    {
        match self.state {
            ConnectionState::Closed => {
                return Err(SendError::Closed);
            },
            ConnectionState::Open => {},
        }
        match self.registry.resolve(action.as_str()) {
            None => {
                return Err(SendError::UnknownAction);
            },
            Some(entry) => match entry.request.check(&payload) {
                Err(violation) => {
                    return Err(SendError::PayloadShape(violation));
                },
                Ok(_) => {},
            },
        }
        match self.tracker.register(id.clone(), action.clone()) {
            Err(_) => Err(SendError::DuplicateMessageId),
            Ok(_) => Ok(Frame::Call(Call { message_id: id, action, payload })),
        }
    }
}

} // verus!
