//! Decision and strategy dispatch for an autonomous social-media persona.
//!
//! The crate holds the rules only: which prompt each strategy sends to the
//! completion service, how a completion is read back, and how an image job is
//! described. Network calls are left to the caller, which hands their
//! outcomes in as plain values.

pub mod agent;
pub mod error;
pub mod image;
pub mod laws;
pub mod prompts;
pub mod text;

pub use crate::agent::{Agent, ApiKey, GenerationRequest, ResponseDecision, Strategy};
pub use crate::error::{AgentError, ConfigKey};
pub use crate::image::{HttpMethod, HttpRequest, ImageJob};
