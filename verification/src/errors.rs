//! The RPC framework's error codes and their canonical descriptions.

use vstd::prelude::*;

use crate::text::same_text;

verus! {

/// The closed set of error codes that a CallError frame may carry.
#[derive(Clone, Copy, Debug, PartialEq, Eq, Hash, Structural)]
pub enum RpcErrorCode {
    FormatViolation,
    GenericError,
    InternalError,
    MessageTypeNotSupported,
    NotImplemented,
    NotSupported,
    OccurrenceConstraintViolation,
    PropertyConstraintViolation,
    ProtocolError,
    RpcFrameworkError,
    SecurityError,
    TypeConstraintViolation,
}

impl RpcErrorCode {
    /// The canonical human-readable description of a code.
    pub open spec fn description_text(self) -> Seq<char> {
        match self {
            RpcErrorCode::FormatViolation => "Payload for Action is syntactically incorrect"@,
            RpcErrorCode::GenericError =>
                "Any other error not covered by the more specific error codes in this table"@,
            RpcErrorCode::InternalError =>
                "An internal error occurred and the receiver was not able to process the requested Action successfully"@,
            RpcErrorCode::MessageTypeNotSupported =>
                "A message with an Message Type Number received that is not supported by this implementation."@,
            RpcErrorCode::NotImplemented => "Requested Action is not known by receiver"@,
            RpcErrorCode::NotSupported =>
                "Requested Action is recognized but not supported by the receiver"@,
            RpcErrorCode::OccurrenceConstraintViolation =>
                "Payload for Action is syntactically correct but at least one of the fields violates occurrence constraints"@,
            RpcErrorCode::PropertyConstraintViolation =>
                "Payload is syntactically correct but at least one field contains an invalid value"@,
            RpcErrorCode::ProtocolError => "Payload for Action is not conform the PDU structure"@,
            RpcErrorCode::RpcFrameworkError =>
                "Content of the call is not a valid RPC Request, for example: MessageId could not be read."@,
            RpcErrorCode::SecurityError =>
                "During the processing of Action a security issue occurred preventing receiver from completing the Action successfully"@,
            RpcErrorCode::TypeConstraintViolation =>
                "Payload for Action is syntactically correct but at least one of the fields violates data type constraints (e.g. \"somestring\": 12)"@,
        }
    }

    /// The name under which a code travels in a CallError frame.
    pub open spec fn name_text(self) -> Seq<char> {
        match self {
            RpcErrorCode::FormatViolation => "FormatViolation"@,
            RpcErrorCode::GenericError => "GenericError"@,
            RpcErrorCode::InternalError => "InternalError"@,
            RpcErrorCode::MessageTypeNotSupported => "MessageTypeNotSupported"@,
            RpcErrorCode::NotImplemented => "NotImplemented"@,
            RpcErrorCode::NotSupported => "NotSupported"@,
            RpcErrorCode::OccurrenceConstraintViolation => "OccurrenceConstraintViolation"@,
            RpcErrorCode::PropertyConstraintViolation => "PropertyConstraintViolation"@,
            RpcErrorCode::ProtocolError => "ProtocolError"@,
            RpcErrorCode::RpcFrameworkError => "RpcFrameworkError"@,
            RpcErrorCode::SecurityError => "SecurityError"@,
            RpcErrorCode::TypeConstraintViolation => "TypeConstraintViolation"@,
        }
    }

    /// The code that a name stands for, if it is the name of one.
    pub open spec fn named(name: Seq<char>) -> Option<RpcErrorCode> {
        if name == "FormatViolation"@ {
            Some(RpcErrorCode::FormatViolation)
        } else if name == "GenericError"@ {
            Some(RpcErrorCode::GenericError)
        } else if name == "InternalError"@ {
            Some(RpcErrorCode::InternalError)
        } else if name == "MessageTypeNotSupported"@ {
            Some(RpcErrorCode::MessageTypeNotSupported)
        } else if name == "NotImplemented"@ {
            Some(RpcErrorCode::NotImplemented)
        } else if name == "NotSupported"@ {
            Some(RpcErrorCode::NotSupported)
        } else if name == "OccurrenceConstraintViolation"@ {
            Some(RpcErrorCode::OccurrenceConstraintViolation)
        } else if name == "PropertyConstraintViolation"@ {
            Some(RpcErrorCode::PropertyConstraintViolation)
        } else if name == "ProtocolError"@ {
            Some(RpcErrorCode::ProtocolError)
        } else if name == "RpcFrameworkError"@ {
            Some(RpcErrorCode::RpcFrameworkError)
        } else if name == "SecurityError"@ {
            Some(RpcErrorCode::SecurityError)
        } else if name == "TypeConstraintViolation"@ {
            Some(RpcErrorCode::TypeConstraintViolation)
        } else {
            None
        }
    }

    /// Returns the canonical description of the code, which is never empty.
    pub fn description(&self) -> (text: &'static str)
        ensures
            text@ == self.description_text(),
            text@.len() > 0,
    {
        proof {
            lemma_descriptions_not_empty(*self);
        }
        match self {
            RpcErrorCode::FormatViolation => "Payload for Action is syntactically incorrect",
            RpcErrorCode::GenericError =>
                "Any other error not covered by the more specific error codes in this table",
            RpcErrorCode::InternalError =>
                "An internal error occurred and the receiver was not able to process the requested Action successfully",
            RpcErrorCode::MessageTypeNotSupported =>
                "A message with an Message Type Number received that is not supported by this implementation.",
            RpcErrorCode::NotImplemented => "Requested Action is not known by receiver",
            RpcErrorCode::NotSupported =>
                "Requested Action is recognized but not supported by the receiver",
            RpcErrorCode::OccurrenceConstraintViolation =>
                "Payload for Action is syntactically correct but at least one of the fields violates occurrence constraints",
            RpcErrorCode::PropertyConstraintViolation =>
                "Payload is syntactically correct but at least one field contains an invalid value",
            RpcErrorCode::ProtocolError => "Payload for Action is not conform the PDU structure",
            RpcErrorCode::RpcFrameworkError =>
                "Content of the call is not a valid RPC Request, for example: MessageId could not be read.",
            RpcErrorCode::SecurityError =>
                "During the processing of Action a security issue occurred preventing receiver from completing the Action successfully",
            RpcErrorCode::TypeConstraintViolation =>
                "Payload for Action is syntactically correct but at least one of the fields violates data type constraints (e.g. \"somestring\": 12)",
        }
    }

    /// Returns the name under which the code travels in a CallError frame.
    pub fn name(&self) -> (text: &'static str)
        ensures
            text@ == self.name_text(),
    {
        match self {
            RpcErrorCode::FormatViolation => "FormatViolation",
            RpcErrorCode::GenericError => "GenericError",
            RpcErrorCode::InternalError => "InternalError",
            RpcErrorCode::MessageTypeNotSupported => "MessageTypeNotSupported",
            RpcErrorCode::NotImplemented => "NotImplemented",
            RpcErrorCode::NotSupported => "NotSupported",
            RpcErrorCode::OccurrenceConstraintViolation => "OccurrenceConstraintViolation",
            RpcErrorCode::PropertyConstraintViolation => "PropertyConstraintViolation",
            RpcErrorCode::ProtocolError => "ProtocolError",
            RpcErrorCode::RpcFrameworkError => "RpcFrameworkError",
            RpcErrorCode::SecurityError => "SecurityError",
            RpcErrorCode::TypeConstraintViolation => "TypeConstraintViolation",
        }
    }

    /// Reads a code from its name; any other text gives `None`.
    pub fn from_name(name: &str) -> (code: Option<RpcErrorCode>)
        ensures
            code == RpcErrorCode::named(name@),
    {
        if same_text(name, "FormatViolation") {
            Some(RpcErrorCode::FormatViolation)
        } else if same_text(name, "GenericError") {
            Some(RpcErrorCode::GenericError)
        } else if same_text(name, "InternalError") {
            Some(RpcErrorCode::InternalError)
        } else if same_text(name, "MessageTypeNotSupported") {
            Some(RpcErrorCode::MessageTypeNotSupported)
        } else if same_text(name, "NotImplemented") {
            Some(RpcErrorCode::NotImplemented)
        } else if same_text(name, "NotSupported") {
            Some(RpcErrorCode::NotSupported)
        } else if same_text(name, "OccurrenceConstraintViolation") {
            Some(RpcErrorCode::OccurrenceConstraintViolation)
        } else if same_text(name, "PropertyConstraintViolation") {
            Some(RpcErrorCode::PropertyConstraintViolation)
        } else if same_text(name, "ProtocolError") {
            Some(RpcErrorCode::ProtocolError)
        } else if same_text(name, "RpcFrameworkError") {
            Some(RpcErrorCode::RpcFrameworkError)
        } else if same_text(name, "SecurityError") {
            Some(RpcErrorCode::SecurityError)
        } else if same_text(name, "TypeConstraintViolation") {
            Some(RpcErrorCode::TypeConstraintViolation)
        } else {
            None
        }
    }
}

/// Every code has a description of at least one character.
pub proof fn lemma_descriptions_not_empty(code: RpcErrorCode)
    ensures
        code.description_text().len() > 0,
{
    reveal_strlit("Payload for Action is syntactically incorrect");
    reveal_strlit("Any other error not covered by the more specific error codes in this table");
    reveal_strlit(
        "An internal error occurred and the receiver was not able to process the requested Action successfully",
    );
    reveal_strlit(
        "A message with an Message Type Number received that is not supported by this implementation.",
    );
    reveal_strlit("Requested Action is not known by receiver");
    reveal_strlit("Requested Action is recognized but not supported by the receiver");
    reveal_strlit(
        "Payload for Action is syntactically correct but at least one of the fields violates occurrence constraints",
    );
    reveal_strlit(
        "Payload is syntactically correct but at least one field contains an invalid value",
    );
    reveal_strlit("Payload for Action is not conform the PDU structure");
    reveal_strlit(
        "Content of the call is not a valid RPC Request, for example: MessageId could not be read.",
    );
    reveal_strlit(
        "During the processing of Action a security issue occurred preventing receiver from completing the Action successfully",
    );
    reveal_strlit(
        "Payload for Action is syntactically correct but at least one of the fields violates data type constraints (e.g. \"somestring\": 12)",
    );
}

/// Reading back the name of a code gives that code: no two codes share a name.
pub proof fn lemma_name_round_trip(code: RpcErrorCode)
    ensures
        RpcErrorCode::named(code.name_text()) == Some(code),
{
    reveal_strlit("FormatViolation");
    reveal_strlit("GenericError");
    reveal_strlit("InternalError");
    reveal_strlit("MessageTypeNotSupported");
    reveal_strlit("NotImplemented");
    reveal_strlit("NotSupported");
    reveal_strlit("OccurrenceConstraintViolation");
    reveal_strlit("PropertyConstraintViolation");
    reveal_strlit("ProtocolError");
    reveal_strlit("RpcFrameworkError");
    reveal_strlit("SecurityError");
    reveal_strlit("TypeConstraintViolation");
    // Length and first character tell any two names apart.
    assert("FormatViolation"@.len() == 15 && "FormatViolation"@[0] == 'F');
    assert("GenericError"@.len() == 12 && "GenericError"@[0] == 'G');
    assert("InternalError"@.len() == 13 && "InternalError"@[0] == 'I');
    assert("MessageTypeNotSupported"@.len() == 23 && "MessageTypeNotSupported"@[0] == 'M');
    assert("NotImplemented"@.len() == 14 && "NotImplemented"@[0] == 'N');
    assert("NotSupported"@.len() == 12 && "NotSupported"@[0] == 'N');
    assert("OccurrenceConstraintViolation"@.len() == 29);
    assert("PropertyConstraintViolation"@.len() == 27);
    assert("ProtocolError"@.len() == 13 && "ProtocolError"@[0] == 'P');
    assert("RpcFrameworkError"@.len() == 17);
    assert("SecurityError"@.len() == 13 && "SecurityError"@[0] == 'S');
    assert("TypeConstraintViolation"@.len() == 23 && "TypeConstraintViolation"@[0] == 'T');
}

} // verus!
