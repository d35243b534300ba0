//! Errors of A2A handler operations and their JSON-RPC error codes.
use vstd::prelude::*;

verus! {

/// Error type for A2A handler operations.
///
/// Error codes:
/// - Standard JSON-RPC codes: -32600..-32603
/// - A2A-specific codes: -32001..-32009; an unsupported operation answers
///   -32002, the code it shares with a task that cannot be canceled.
#[derive(Debug)]
pub enum A2AError {
    TaskNotFound(String),
    TaskNotCancelable(String),
    PushNotificationNotSupported,
    UnsupportedOperation(String),
    ContentTypeNotSupported(String),
    InvalidAgentResponse(String),
    ExtendedAgentCardNotConfigured,
    ExtensionSupportRequired(String),
    VersionNotSupported(String),
    // Standard JSON-RPC errors
    MethodNotFound(String),
    InvalidParams(String),
    Internal(String),
}

impl A2AError {
    /// The JSON-RPC error code of each kind of error.
    pub open spec fn spec_code(self) -> int {
        match self {
            A2AError::MethodNotFound(_) => -32601,
            A2AError::InvalidParams(_) => -32602,
            A2AError::Internal(_) => -32603,
            A2AError::TaskNotFound(_) => -32001,
            A2AError::TaskNotCancelable(_) => -32002,
            A2AError::PushNotificationNotSupported => -32003,
            A2AError::UnsupportedOperation(_) => -32002,
            A2AError::ContentTypeNotSupported(_) => -32005,
            A2AError::InvalidAgentResponse(_) => -32006,
            A2AError::ExtendedAgentCardNotConfigured => -32007,
            A2AError::ExtensionSupportRequired(_) => -32008,
            A2AError::VersionNotSupported(_) => -32009,
        }
    }

    /// The human-readable text of an error: a fixed prefix per kind,
    /// followed by the error's detail where it carries one.
    pub open spec fn spec_message(self) -> Seq<char> {
        match self {
            A2AError::TaskNotFound(d) => "task not found: "@ + d@,
            A2AError::TaskNotCancelable(d) => "task not cancelable: "@ + d@,
            A2AError::PushNotificationNotSupported => "push notifications not supported"@,
            A2AError::UnsupportedOperation(d) => "unsupported operation: "@ + d@,
            A2AError::ContentTypeNotSupported(d) => "content type not supported: "@ + d@,
            A2AError::InvalidAgentResponse(d) => "invalid agent response: "@ + d@,
            A2AError::ExtendedAgentCardNotConfigured => "extended agent card not configured"@,
            A2AError::ExtensionSupportRequired(d) => "extension support required: "@ + d@,
            A2AError::VersionNotSupported(d) => "version not supported: "@ + d@,
            A2AError::MethodNotFound(d) => "method not found: "@ + d@,
            A2AError::InvalidParams(d) => "invalid params: "@ + d@,
            A2AError::Internal(d) => "internal error: "@ + d@,
        }
    }

    /// Whether two errors are of the same kind (the same variant).
    pub open spec fn same_kind(self, other: A2AError) -> bool {
        match (self, other) {
            (A2AError::TaskNotFound(_), A2AError::TaskNotFound(_)) => true,
            (A2AError::TaskNotCancelable(_), A2AError::TaskNotCancelable(_)) => true,
            (A2AError::PushNotificationNotSupported, A2AError::PushNotificationNotSupported) => true,
            (A2AError::UnsupportedOperation(_), A2AError::UnsupportedOperation(_)) => true,
            (A2AError::ContentTypeNotSupported(_), A2AError::ContentTypeNotSupported(_)) => true,
            (A2AError::InvalidAgentResponse(_), A2AError::InvalidAgentResponse(_)) => true,
            (A2AError::ExtendedAgentCardNotConfigured, A2AError::ExtendedAgentCardNotConfigured) => true,
            (A2AError::ExtensionSupportRequired(_), A2AError::ExtensionSupportRequired(_)) => true,
            (A2AError::VersionNotSupported(_), A2AError::VersionNotSupported(_)) => true,
            (A2AError::MethodNotFound(_), A2AError::MethodNotFound(_)) => true,
            (A2AError::InvalidParams(_), A2AError::InvalidParams(_)) => true,
            (A2AError::Internal(_), A2AError::Internal(_)) => true,
            _ => false,
        }
    }

    /// JSON-RPC error code per A2A v1.0 specification.
    pub fn code(&self) -> (c: i32)
        ensures
            c == self.spec_code(),
    {
        match self {
            // Standard JSON-RPC codes
            A2AError::MethodNotFound(_) => -32601,
            A2AError::InvalidParams(_) => -32602,
            A2AError::Internal(_) => -32603,
            // A2A-specific codes (spec section 10)
            A2AError::TaskNotFound(_) => -32001,
            A2AError::TaskNotCancelable(_) => -32002,
            A2AError::PushNotificationNotSupported => -32003,
            A2AError::UnsupportedOperation(_) => -32002,
            A2AError::ContentTypeNotSupported(_) => -32005,
            A2AError::InvalidAgentResponse(_) => -32006,
            A2AError::ExtendedAgentCardNotConfigured => -32007,
            A2AError::ExtensionSupportRequired(_) => -32008,
            A2AError::VersionNotSupported(_) => -32009,
        }
    }

    /// The error's text, as its `Display` would write it.
    pub fn to_string(&self) -> (s: String)
        ensures
            s@ == self.spec_message(),
    {
        match self {
            A2AError::TaskNotFound(d) => prefixed("task not found: ", d),
            A2AError::TaskNotCancelable(d) => prefixed("task not cancelable: ", d),
            A2AError::PushNotificationNotSupported => String::from_str(
                "push notifications not supported",
            ),
            A2AError::UnsupportedOperation(d) => prefixed("unsupported operation: ", d),
            A2AError::ContentTypeNotSupported(d) => prefixed("content type not supported: ", d),
            A2AError::InvalidAgentResponse(d) => prefixed("invalid agent response: ", d),
            A2AError::ExtendedAgentCardNotConfigured => String::from_str(
                "extended agent card not configured",
            ),
            A2AError::ExtensionSupportRequired(d) => prefixed("extension support required: ", d),
            A2AError::VersionNotSupported(d) => prefixed("version not supported: ", d),
            A2AError::MethodNotFound(d) => prefixed("method not found: ", d),
            A2AError::InvalidParams(d) => prefixed("invalid params: ", d),
            A2AError::Internal(d) => prefixed("internal error: ", d),
        }
    }
}

/// `prefix` followed by `detail`.
fn prefixed(prefix: &str, detail: &String) -> (s: String)
    ensures
        s@ == prefix@ + detail@,
{
    let mut s = String::from_str(prefix);
    s.append(detail.as_str());
    s
}

/// Every error code is either a standard JSON-RPC code (-32601..=-32603)
/// or an A2A-specific code (-32009..=-32001).
pub proof fn lemma_code_ranges(e: A2AError)
    ensures
        (-32603 <= e.spec_code() <= -32601) || (-32009 <= e.spec_code() <= -32001),
{
}

/// The code of an error determines its kind: errors with equal codes are of the
/// same kind, except that a task that cannot be canceled and an unsupported
/// operation share -32002.
pub proof fn lemma_code_determines_kind(e1: A2AError, e2: A2AError)
    requires
        e1.spec_code() == e2.spec_code(),
        e1.spec_code() != -32002,
    ensures
        e1.same_kind(e2),
{
}

/// Exactly a task that cannot be canceled and an unsupported operation carry -32002.
pub proof fn lemma_shared_code(e: A2AError)
    ensures
        e.spec_code() == -32002 <==> (e is TaskNotCancelable || e is UnsupportedOperation),
{
}

/// Exactly the three standard JSON-RPC errors carry a standard code.
pub proof fn lemma_standard_codes(e: A2AError)
    ensures
        (-32603 <= e.spec_code() <= -32601) <==> (e is MethodNotFound || e is InvalidParams
            || e is Internal),
{
}

} // verus!
