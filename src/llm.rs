//! Options of the summarization call.

use vstd::prelude::*;

verus! {

/// LLM service provider
#[derive(Clone, Copy, Debug, PartialEq, Eq, Structural)]
pub enum Provider {
    GitHubCopilot,
    /// OpenAI Chat Completions, and OpenAI compatible APIs
    OpenAI,
    /// OpenAI Responses API
    OpenAIResp,
    Gemini,
    Anthropic,
    Fireworks,
    Together,
    Groq,
    Mimo,
    Nebius,
    Xai,
    DeepSeek,
    Zai,
    BigModel,
    Cohere,
    Ollama,
}

pub open spec fn provider_name(p: Provider) -> Seq<char> {
    match p {
        Provider::GitHubCopilot => "github-copilot"@,
        Provider::OpenAI => "openai"@,
        Provider::OpenAIResp => "openai-resp"@,
        Provider::Gemini => "gemini"@,
        Provider::Anthropic => "anthropic"@,
        Provider::Fireworks => "fireworks"@,
        Provider::Together => "together"@,
        Provider::Groq => "groq"@,
        Provider::Mimo => "mimo"@,
        Provider::Nebius => "nebius"@,
        Provider::Xai => "xai"@,
        Provider::DeepSeek => "deepseek"@,
        Provider::Zai => "zai"@,
        Provider::BigModel => "bigmodel"@,
        Provider::Cohere => "cohere"@,
        Provider::Ollama => "ollama"@,
    }
}

impl Provider {
    /// The provider's name on the command line.
    pub fn as_str(&self) -> (r: &'static str)
        ensures
            r@ == provider_name(*self),
    {
        match self {
            Provider::GitHubCopilot => "github-copilot",
            Provider::OpenAI => "openai",
            Provider::OpenAIResp => "openai-resp",
            Provider::Gemini => "gemini",
            Provider::Anthropic => "anthropic",
            Provider::Fireworks => "fireworks",
            Provider::Together => "together",
            Provider::Groq => "groq",
            Provider::Mimo => "mimo",
            Provider::Nebius => "nebius",
            Provider::Xai => "xai",
            Provider::DeepSeek => "deepseek",
            Provider::Zai => "zai",
            Provider::BigModel => "bigmodel",
            Provider::Cohere => "cohere",
            Provider::Ollama => "ollama",
        }
    }
}

/// Options to construct LLM client
#[derive(Clone, Copy, Debug, PartialEq, Eq, Structural)]
pub struct LLMConstructionOptions {
    /// Provider chosen explicitly; otherwise inferred from the model name.
    pub provider: Option<Provider>,
}

/// Options for LLM requests
#[derive(Clone, Debug)]
pub struct LLMRequestOptions {
    /// LLM model identifier
    pub model: String,
}

} // verus!
