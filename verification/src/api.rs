//! The data the AI client layer exchanges: responses, usage figures,
//! streaming events, and the provider selection. The HTTP client itself
//! lives with the embedding application.

use vstd::prelude::*;

use crate::overlay::lower_of;
use crate::strutil::str_eq;

verus! {

/// Token usage figures a provider reports for one exchange.
#[derive(Debug, Clone, Copy, PartialEq, Eq, Structural)]
pub struct Usage {
    pub prompt_tokens: u32,
    pub completion_tokens: u32,
    pub total_tokens: u32,
}

/// One complete answer from a provider.
#[derive(Debug, Clone)]
pub struct ApiResponse {
    pub response: String,
    pub success: bool,
    pub error: Option<String>,
    pub usage: Option<Usage>,
}

/// One event of a streamed answer.
#[derive(Debug, Clone)]
pub enum StreamingResponse {
    Start,
    Chunk(String),
    End(ApiResponse),
    Error(String),
}

/// Which AI provider requests go to.
#[derive(Debug, Clone, Copy, PartialEq, Eq, Structural)]
pub enum AIProvider {
    OpenAI,
    Claude,
    Ollama,
    ZAiCoding,
    Custom,
}

/// The provider a name already folded to lowercase selects.
pub open spec fn provider_for_spec(p: Seq<char>) -> AIProvider {
    if p == "openai"@ {
        AIProvider::OpenAI
    } else if p == "anthropic"@ {
        AIProvider::Claude
    } else if p == "ollama"@ {
        AIProvider::Ollama
    } else if p == "z.ai coding plan"@ || p == "z.ai"@ || p == "zai"@ {
        AIProvider::ZAiCoding
    } else {
        AIProvider::Custom
    }
}

impl AIProvider {
    /// The provider a configured name selects, compared
    /// case-insensitively; an unknown name selects the custom provider.
    pub fn from_name(provider: &str) -> (r: AIProvider)
        ensures
            r == provider_for_spec(lower_of(provider@)),
    {
        let lowered = crate::overlay::lowercase(provider);
        let p = lowered.as_str();
        if str_eq(p, "openai") {
            AIProvider::OpenAI
        } else if str_eq(p, "anthropic") {
            AIProvider::Claude
        } else if str_eq(p, "ollama") {
            AIProvider::Ollama
        } else if str_eq(p, "z.ai coding plan") || str_eq(p, "z.ai") || str_eq(p, "zai") {
            AIProvider::ZAiCoding
        } else {
            AIProvider::Custom
        }
    }
}

} // verus!
