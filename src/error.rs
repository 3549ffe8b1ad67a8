use vstd::prelude::*;

verus! {

/// Why an operation of the gateway failed. Each variant but `Unsupported`
/// carries the underlying failure's own description.
#[derive(Clone, Debug, PartialEq, Eq)]
pub enum GatewayError {
    /// The request could not be completed: the daemon is not listening or
    /// the host cannot be reached.
    RequestFailed(String),
    /// The daemon answered, but its reply did not have the expected shape.
    ParseFailed(String),
    /// The daemon answered, but its reply body could not be read as text.
    ReadFailed(String),
    /// The request that starts a model download could not be sent.
    PullFailed(String),
    /// The daemon process could not be spawned.
    SpawnFailed(String),
    /// Automatic start is not defined on this platform.
    Unsupported,
}

pub open spec fn request_failed_prefix() -> Seq<char> {
    "Request failed: "@
}

pub open spec fn parse_failed_prefix() -> Seq<char> {
    "Failed to parse response: "@
}

pub open spec fn read_failed_prefix() -> Seq<char> {
    "Failed to read response: "@
}

pub open spec fn pull_failed_prefix() -> Seq<char> {
    "Failed to pull model: "@
}

pub open spec fn spawn_failed_prefix() -> Seq<char> {
    "Failed to start Ollama: "@
}

pub open spec fn unsupported_message() -> Seq<char> {
    "Platform not supported for auto-start"@
}

/// The one-sentence message the host application shows for an error.
pub open spec fn message_spec(e: GatewayError) -> Seq<char> {
    match e {
        GatewayError::RequestFailed(d) => request_failed_prefix() + d@,
        GatewayError::ParseFailed(d) => parse_failed_prefix() + d@,
        GatewayError::ReadFailed(d) => read_failed_prefix() + d@,
        GatewayError::PullFailed(d) => pull_failed_prefix() + d@,
        GatewayError::SpawnFailed(d) => spawn_failed_prefix() + d@,
        GatewayError::Unsupported => unsupported_message(),
    }
}

impl GatewayError {
    /// The message reported to the caller: a fixed sentence start naming what
    /// failed, followed by the underlying description.
    pub fn message(&self) -> (r: String)
        ensures
            r@ == message_spec(*self),
    {
        match self {
            GatewayError::RequestFailed(d) => String::from_str("Request failed: ").concat(d.as_str()),
            GatewayError::ParseFailed(d) => String::from_str("Failed to parse response: ").concat(
                d.as_str(),
            ),
            GatewayError::ReadFailed(d) => String::from_str("Failed to read response: ").concat(
                d.as_str(),
            ),
            GatewayError::PullFailed(d) => String::from_str("Failed to pull model: ").concat(
                d.as_str(),
            ),
            GatewayError::SpawnFailed(d) => String::from_str("Failed to start Ollama: ").concat(
                d.as_str(),
            ),
            GatewayError::Unsupported => String::from_str("Platform not supported for auto-start"),
        }
    }
}

/// An unreachable daemon and a malformed reply never produce the same
/// message, whatever the two underlying descriptions are.
pub proof fn unreachable_message_differs_from_parse_message(network: String, parse: String)
    ensures
        message_spec(GatewayError::RequestFailed(network)) != message_spec(
            GatewayError::ParseFailed(parse),
        ),
{
    reveal_strlit("Request failed: ");
    reveal_strlit("Failed to parse response: ");
    let a = message_spec(GatewayError::RequestFailed(network));
    let b = message_spec(GatewayError::ParseFailed(parse));
    assert(a[0] == 'R');
    assert(b[0] == 'F');
}

} // verus!
