//! The failures that a call can end in.

use vstd::prelude::*;
use vstd::string::*;

verus! {

/// A configuration value that an image job needs.
#[derive(Debug, Clone, Copy, PartialEq, Eq, Structural)]
pub enum ConfigKey {
    /// The key of the image service.
    ApiKey,
    /// The base prompt of the image.
    BasePrompt,
}

/// Why a call produced nothing. There is no partial success: a call returns
/// its full payload or one of these.
#[derive(Debug, Clone, Copy, PartialEq, Eq, Structural)]
pub enum AgentError {
    /// The completion service failed or returned nothing usable.
    CompletionError,
    /// A required configuration value was absent.
    ConfigError(ConfigKey),
    /// Transport failure, non-success status, or an unusable request or
    /// response.
    HttpError,
    /// The system time was unavailable.
    ClockError,
}

pub const MSG_COMPLETION: &'static str = "completion failed";

pub const MSG_API_KEY: &'static str = "HEURIS_API not found in environment";

pub const MSG_BASE_PROMPT: &'static str = "IMAGE_PROMPT not found in environment";

pub const MSG_HTTP: &'static str = "http request failed";

pub const MSG_CLOCK: &'static str = "system time unavailable";

impl AgentError {
    /// The text that describes this failure.
    pub open spec fn message_text(self) -> Seq<char> {
        match self {
            AgentError::CompletionError => MSG_COMPLETION@,
            AgentError::ConfigError(ConfigKey::ApiKey) => MSG_API_KEY@,
            AgentError::ConfigError(ConfigKey::BasePrompt) => MSG_BASE_PROMPT@,
            AgentError::HttpError => MSG_HTTP@,
            AgentError::ClockError => MSG_CLOCK@,
        }
    }

    /// Describes this failure in words.
    pub fn message(&self) -> (r: String)
        ensures
            r@ == self.message_text(),
    {
        match self {
            AgentError::CompletionError => String::from_str(MSG_COMPLETION),
            AgentError::ConfigError(ConfigKey::ApiKey) => String::from_str(MSG_API_KEY),
            AgentError::ConfigError(ConfigKey::BasePrompt) => String::from_str(MSG_BASE_PROMPT),
            AgentError::HttpError => String::from_str(MSG_HTTP),
            AgentError::ClockError => String::from_str(MSG_CLOCK),
        }
    }
}

} // verus!
