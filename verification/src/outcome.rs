//! Classification of what one "create scope" call came back with.

use vstd::prelude::*;

verus! {

/// The status the control-plane service reports for a "create scope" request.
#[derive(Clone, Copy, Debug, PartialEq, Eq, Structural)]
pub enum ScopeStatus {
    Success,
    ScopeExists,
    InvalidScopeName,
    Failure,
}

/// What arrived for one call: a status from the service, or nothing usable
/// because the transport failed underneath it.
#[derive(Clone, Copy, Debug, PartialEq, Eq, Structural)]
pub enum Reply {
    Status(ScopeStatus),
    TransportFault,
}

/// The tagged outcome of one call.
#[derive(Clone, Copy, Debug, PartialEq, Eq, Structural)]
pub enum CallOutcome {
    /// The scope was created.
    Success,
    /// The scope was there already: a benign duplicate.
    AlreadyExists,
    /// The service refused the scope name.
    InvalidInput,
    /// The service reported a failure of its own.
    RemoteFailure,
    /// No status arrived.
    TransportError,
}

/// The outcome that a reply is classified as.
pub open spec fn outcome_of(reply: Reply) -> CallOutcome {
    match reply {
        Reply::Status(ScopeStatus::Success) => CallOutcome::Success,
        Reply::Status(ScopeStatus::ScopeExists) => CallOutcome::AlreadyExists,
        Reply::Status(ScopeStatus::InvalidScopeName) => CallOutcome::InvalidInput,
        Reply::Status(ScopeStatus::Failure) => CallOutcome::RemoteFailure,
        Reply::TransportFault => CallOutcome::TransportError,
    }
}

impl CallOutcome {
    /// Whether the outcome is reported as an error. Creating a scope and
    /// finding it already there are both ordinary outcomes.
    pub open spec fn spec_is_error(self) -> bool {
        self is InvalidInput || self is RemoteFailure || self is TransportError
    }

    /// The text reported with an error outcome; empty for the others.
    pub open spec fn message(self) -> Seq<char> {
        match self {
            CallOutcome::InvalidInput => "Invalid scope"@,
            CallOutcome::RemoteFailure => "Operation failed"@,
            CallOutcome::TransportError => "Grpc error"@,
            _ => Seq::empty(),
        }
    }

    /// Classifies a reply.
    pub fn classify(reply: Reply) -> (outcome: CallOutcome)
        ensures
            outcome == outcome_of(reply),
    {
        match reply {
            Reply::Status(status) => match status {
                ScopeStatus::Success => CallOutcome::Success,
                ScopeStatus::ScopeExists => CallOutcome::AlreadyExists,
                ScopeStatus::InvalidScopeName => CallOutcome::InvalidInput,
                ScopeStatus::Failure => CallOutcome::RemoteFailure,
            },
            Reply::TransportFault => CallOutcome::TransportError,
        }
    }

    #[verifier::when_used_as_spec(spec_is_error)]
    pub fn is_error(self) -> (errant: bool)
        ensures
            errant == self.spec_is_error(),
    {
        match self {
            CallOutcome::Success => false,
            CallOutcome::AlreadyExists => false,
            _ => true,
        }
    }

    /// The outcome as the caller of "create scope" sees it: `Ok(true)` when
    /// the scope was created, `Ok(false)` when it existed already, and the
    /// error text otherwise.
    pub fn to_result(self) -> (result: Result<bool, String>)
        ensures
            self is Success ==> result == Ok::<bool, String>(true),
            self is AlreadyExists ==> result == Ok::<bool, String>(false),
            self.spec_is_error() ==> (result matches Err(text) && text@ == self.message()),
    {
        match self {
            CallOutcome::Success => Ok(true),
            CallOutcome::AlreadyExists => Ok(false),
            CallOutcome::InvalidInput => Err(String::from_str("Invalid scope")),
            CallOutcome::RemoteFailure => Err(String::from_str("Operation failed")),
            CallOutcome::TransportError => Err(String::from_str("Grpc error")),
        }
    }
}

} // verus!
