//! The errors a caller can be handed.

use vstd::prelude::*;

verus! {

/// Why a request was turned down before its transfer began.
#[derive(Clone, Copy, Debug, PartialEq, Eq)]
pub enum ConfigurationError {
    /// The request's URI is not one the client can send.
    InvalidUri,
    /// The engine refused one of the settings; `code` is the engine's own
    /// error code.
    Rejected { code: u32 },
}

/// Why the engine gave a transfer up.
#[derive(Clone, Copy, Debug, PartialEq, Eq)]
pub enum TransportError {
    /// The engine reported a failure; `code` is the engine's own error code.
    Engine { code: u32 },
    /// The engine reported success although no response had arrived.
    NoResponse,
}

/// Why the agent did not take a submission.
#[derive(Clone, Copy, Debug, PartialEq, Eq)]
pub enum AgentError {
    /// The agent's worker has terminated; nothing can be submitted any more.
    AgentUnreachable,
}

/// Everything that can go wrong with a request.
#[derive(Clone, Copy, Debug, PartialEq, Eq)]
pub enum ClientError {
    /// The request or one of its options is invalid. Reported when the
    /// request is submitted, never later.
    Configuration(ConfigurationError),
    /// The engine failed the transfer.
    Transport(TransportError),
    /// The agent's worker has terminated.
    AgentUnreachable,
    /// The transfer was cancelled. This is what the worker tells a
    /// transfer that it let go of. A caller who cancelled is never told,
    /// since a cancelled future reports nothing any more.
    Cancellation,
}

impl ClientError {
    /// The caller-facing error for a submission the agent did not take.
    pub fn from_agent(error: AgentError) -> (out: ClientError)
        ensures
            out == ClientError::AgentUnreachable,
    {
        match error {
            AgentError::AgentUnreachable => ClientError::AgentUnreachable,
        }
    }

    /// A short description of the error.
    pub open spec fn description(self) -> Seq<char> {
        match self {
            ClientError::Configuration(ConfigurationError::InvalidUri) => "invalid URI"@,
            ClientError::Configuration(ConfigurationError::Rejected { .. }) => {
                "a setting was rejected by the engine"@
            },
            ClientError::Transport(TransportError::Engine { .. }) => "the transfer failed"@,
            ClientError::Transport(TransportError::NoResponse) => "the server sent no response"@,
            ClientError::AgentUnreachable => "the agent is no longer running"@,
            ClientError::Cancellation => "the transfer was cancelled"@,
        }
    }

    /// Describes the error in a few words.
    pub fn describe(&self) -> (text: &'static str)
        ensures
            text@ == self.description(),
    {
        match self {
            ClientError::Configuration(ConfigurationError::InvalidUri) => "invalid URI",
            ClientError::Configuration(ConfigurationError::Rejected { .. }) => {
                "a setting was rejected by the engine"
            },
            ClientError::Transport(TransportError::Engine { .. }) => "the transfer failed",
            ClientError::Transport(TransportError::NoResponse) => "the server sent no response",
            ClientError::AgentUnreachable => "the agent is no longer running",
            ClientError::Cancellation => "the transfer was cancelled",
        }
    }
}

} // verus!
