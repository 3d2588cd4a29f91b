//! Error type shared by the agent client and the command facade.

use vstd::prelude::*;

verus! {

/// Everything that can go wrong inside the bridge, each with its detail text.
#[derive(Debug)]
pub enum SlovoError {
    /// The agent could not be reached, or its reply could not be understood.
    AgentConnection(String),
    /// The agent answered and refused the request.
    AgentError(String),
    /// Voice input could not be processed.
    VoiceError(String),
    /// The configuration is unusable.
    ConfigError(String),
    /// An operating-system I/O failure, by its description.
    IoError(String),
}

/// Mathematical model of a [`SlovoError`]: the variant and its detail as a
/// sequence of characters.
pub enum ErrorModel {
    AgentConnection(Seq<char>),
    AgentError(Seq<char>),
    VoiceError(Seq<char>),
    ConfigError(Seq<char>),
    IoError(Seq<char>),
}

impl ErrorModel {
    /// The detail carried by the error, without the variant's prefix.
    pub open spec fn detail(self) -> Seq<char> {
        match self {
            ErrorModel::AgentConnection(d) => d,
            ErrorModel::AgentError(d) => d,
            ErrorModel::VoiceError(d) => d,
            ErrorModel::ConfigError(d) => d,
            ErrorModel::IoError(d) => d,
        }
    }

    /// The prefix that announces the variant in the rendered text.
    pub open spec fn prefix(self) -> Seq<char> {
        match self {
            ErrorModel::AgentConnection(_) => "Agent connection error: "@,
            ErrorModel::AgentError(_) => "Agent error: "@,
            ErrorModel::VoiceError(_) => "Voice processing error: "@,
            ErrorModel::ConfigError(_) => "Configuration error: "@,
            ErrorModel::IoError(_) => "IO error: "@,
        }
    }

    /// The one-line text shown to a user: prefix, then detail.
    pub open spec fn rendered(self) -> Seq<char> {
        self.prefix() + self.detail()
    }
}

impl View for SlovoError {
    type V = ErrorModel;

    open spec fn view(&self) -> ErrorModel {
        match self {
            SlovoError::AgentConnection(d) => ErrorModel::AgentConnection(d@),
            SlovoError::AgentError(d) => ErrorModel::AgentError(d@),
            SlovoError::VoiceError(d) => ErrorModel::VoiceError(d@),
            SlovoError::ConfigError(d) => ErrorModel::ConfigError(d@),
            SlovoError::IoError(d) => ErrorModel::IoError(d@),
        }
    }
}

impl SlovoError {
    /// Renders the error as the text that crosses the UI boundary.
    pub fn to_string(&self) -> (text: String)
        ensures
            text@ == self@.rendered(),
    {
        match self {
            SlovoError::AgentConnection(d) => String::from_str("Agent connection error: ").concat(
                d.as_str(),
            ),
            SlovoError::AgentError(d) => String::from_str("Agent error: ").concat(d.as_str()),
            SlovoError::VoiceError(d) => String::from_str("Voice processing error: ").concat(
                d.as_str(),
            ),
            SlovoError::ConfigError(d) => String::from_str("Configuration error: ").concat(
                d.as_str(),
            ),
            SlovoError::IoError(d) => String::from_str("IO error: ").concat(d.as_str()),
        }
    }
}

/// A rendered error is never empty: every variant contributes a prefix.
pub proof fn lemma_rendered_nonempty(e: ErrorModel)
    ensures
        e.rendered().len() > 0,
{
    reveal_strlit("Agent connection error: ");
    reveal_strlit("Agent error: ");
    reveal_strlit("Voice processing error: ");
    reveal_strlit("Configuration error: ");
    reveal_strlit("IO error: ");
}

} // verus!
