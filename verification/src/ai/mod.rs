//! Prompts, request bodies and response handling for the AI providers.
use vstd::prelude::*;

pub mod classify;
pub mod conflict;
pub mod gemini;
pub mod guide;
pub mod providers;
pub mod summarize;
pub mod transcript_format;

verus! {

/// One message of a chat conversation.
#[derive(Debug, Clone)]
pub struct ChatMessage {
    pub role: String,
    pub content: String,
}

} // verus!
