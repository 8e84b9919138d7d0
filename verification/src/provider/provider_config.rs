//! Per-backend configuration for OpenAI-compatible providers.
//!
//! Each [`Backend`] variant maps to a [`ProviderConfig`] with the default base
//! URL, endpoint paths, and custom headers. Anthropic and Google are not
//! OpenAI-compatible; they map to the OpenAI shape only to keep the mapping
//! total.

use vstd::prelude::*;

use crate::provider::backend::Backend;

verus! {

/// Static configuration for an OpenAI-compatible backend.
#[derive(Debug, Clone)]
pub struct ProviderConfig {
    /// Human-readable provider name (for error messages and logging).
    pub name: &'static str,
    /// Default base URL for API requests (trailing slash).
    pub default_base_url: &'static str,
    /// Chat completions endpoint path relative to base URL.
    pub chat_endpoint: &'static str,
    /// Models endpoint path relative to base URL.
    pub models_endpoint: &'static str,
    /// Custom HTTP headers to send with every request.
    pub custom_headers: Vec<(String, String)>,
}

/// Whether `c` has the given name and base URL, the standard endpoint paths,
/// and the given headers.
pub open spec fn config_is(
    c: ProviderConfig,
    name: Seq<char>,
    base_url: Seq<char>,
    headers: Seq<(Seq<char>, Seq<char>)>,
) -> bool {
    &&& c.name@ == name
    &&& c.default_base_url@ == base_url
    &&& c.chat_endpoint@ == "chat/completions"@
    &&& c.models_endpoint@ == "models"@
    &&& c.custom_headers@.len() == headers.len()
    &&& forall|i: int|
        0 <= i < headers.len() ==> (#[trigger] c.custom_headers@[i]).0@ == headers[i].0
            && c.custom_headers@[i].1@ == headers[i].1
}

/// The attribution headers that identify jinn on openrouter.ai.
pub open spec fn openrouter_headers() -> Seq<(Seq<char>, Seq<char>)> {
    seq![
        ("X-OpenRouter-Experimental-Metadata"@, "enabled"@),
        ("HTTP-Referer"@, "https://jaysonlennon.dev"@),
        ("X-OpenRouter-Title"@, "jinn"@),
        ("X-OpenRouter-Categories"@, "cli-agent"@),
    ]
}

/// The configuration a backend maps to: its name, base URL and headers.
pub open spec fn backend_config(b: Backend) -> (Seq<char>, Seq<char>, Seq<(Seq<char>, Seq<char>)>) {
    match b {
        Backend::OpenAI | Backend::OpenAiCodex | Backend::Anthropic | Backend::Google
        | Backend::AzureOpenAI => ("OpenAI"@, "https://api.openai.com/v1/"@, Seq::empty()),
        Backend::OpenRouter => ("OpenRouter"@, "https://openrouter.ai/api/v1/"@, openrouter_headers()),
        Backend::ZAI => ("ZAI"@, "https://api.z.ai/api/coding/paas/v4/"@, Seq::empty()),
        Backend::DeepSeek => ("DeepSeek"@, "https://api.deepseek.com/"@, Seq::empty()),
        Backend::Groq => ("Groq"@, "https://api.groq.com/openai/v1/"@, Seq::empty()),
        Backend::XAI => ("XAI"@, "https://api.x.ai/v1/"@, Seq::empty()),
        Backend::Mistral => ("Mistral"@, "https://api.mistral.ai/v1/"@, Seq::empty()),
        Backend::Cohere => ("Cohere"@, "https://api.cohere.ai/v2/"@, Seq::empty()),
        Backend::HuggingFace => ("HuggingFace"@, "https://api-inference.huggingface.co/v1/"@, Seq::empty()),
        Backend::LmStudio => ("LMStudio"@, "http://localhost:1234/v1/"@, Seq::empty()),
        Backend::Phind => ("Phind"@, "https://https.api.phind.com/v1/"@, Seq::empty()),
        Backend::Ollama => ("Ollama"@, "http://localhost:11434/v1/"@, Seq::empty()),
        Backend::ElevenLabs => ("ElevenLabs"@, "https://api.elevenlabs.io/v1/"@, Seq::empty()),
    }
}

impl ProviderConfig {
    /// A configuration with the standard endpoint paths and no headers.
    fn plain(name: &'static str, default_base_url: &'static str) -> (c: ProviderConfig)
        ensures
            config_is(c, name@, default_base_url@, Seq::empty()),
    {
        ProviderConfig {
            name,
            default_base_url,
            chat_endpoint: "chat/completions",
            models_endpoint: "models",
            custom_headers: Vec::new(),
        }
    }

    /// Static configuration for the OpenAI backend.
    pub fn openai() -> (c: ProviderConfig)
        ensures
            config_is(c, "OpenAI"@, "https://api.openai.com/v1/"@, Seq::empty()),
    {
        ProviderConfig::plain("OpenAI", "https://api.openai.com/v1/")
    }

    /// Static configuration for the OpenRouter backend, including app
    /// attribution headers that identify jinn on openrouter.ai.
    pub fn openrouter() -> (c: ProviderConfig)
        ensures
            config_is(c, "OpenRouter"@, "https://openrouter.ai/api/v1/"@, openrouter_headers()),
    {
        let mut headers: Vec<(String, String)> = Vec::new();
        headers.push(("X-OpenRouter-Experimental-Metadata".to_owned(), "enabled".to_owned()));
        headers.push(("HTTP-Referer".to_owned(), "https://jaysonlennon.dev".to_owned()));
        headers.push(("X-OpenRouter-Title".to_owned(), "jinn".to_owned()));
        headers.push(("X-OpenRouter-Categories".to_owned(), "cli-agent".to_owned()));
        ProviderConfig {
            name: "OpenRouter",
            default_base_url: "https://openrouter.ai/api/v1/",
            chat_endpoint: "chat/completions",
            models_endpoint: "models",
            custom_headers: headers,
        }
    }

    /// Static configuration for the ZAI backend.
    pub fn zai() -> (c: ProviderConfig)
        ensures
            config_is(c, "ZAI"@, "https://api.z.ai/api/coding/paas/v4/"@, Seq::empty()),
    {
        ProviderConfig::plain("ZAI", "https://api.z.ai/api/coding/paas/v4/")
    }

    /// Static configuration for the DeepSeek backend.
    pub fn deepseek() -> (c: ProviderConfig)
        ensures
            config_is(c, "DeepSeek"@, "https://api.deepseek.com/"@, Seq::empty()),
    {
        ProviderConfig::plain("DeepSeek", "https://api.deepseek.com/")
    }

    /// Static configuration for the Groq backend.
    pub fn groq() -> (c: ProviderConfig)
        ensures
            config_is(c, "Groq"@, "https://api.groq.com/openai/v1/"@, Seq::empty()),
    {
        ProviderConfig::plain("Groq", "https://api.groq.com/openai/v1/")
    }

    /// Static configuration for the XAI backend.
    pub fn xai() -> (c: ProviderConfig)
        ensures
            config_is(c, "XAI"@, "https://api.x.ai/v1/"@, Seq::empty()),
    {
        ProviderConfig::plain("XAI", "https://api.x.ai/v1/")
    }

    /// Static configuration for the Mistral backend.
    pub fn mistral() -> (c: ProviderConfig)
        ensures
            config_is(c, "Mistral"@, "https://api.mistral.ai/v1/"@, Seq::empty()),
    {
        ProviderConfig::plain("Mistral", "https://api.mistral.ai/v1/")
    }

    /// Static configuration for the Cohere backend.
    pub fn cohere() -> (c: ProviderConfig)
        ensures
            config_is(c, "Cohere"@, "https://api.cohere.ai/v2/"@, Seq::empty()),
    {
        ProviderConfig::plain("Cohere", "https://api.cohere.ai/v2/")
    }

    /// Static configuration for the HuggingFace backend.
    pub fn huggingface() -> (c: ProviderConfig)
        ensures
            config_is(c, "HuggingFace"@, "https://api-inference.huggingface.co/v1/"@, Seq::empty()),
    {
        ProviderConfig::plain("HuggingFace", "https://api-inference.huggingface.co/v1/")
    }

    /// Static configuration for the LMStudio backend.
    pub fn lmstudio() -> (c: ProviderConfig)
        ensures
            config_is(c, "LMStudio"@, "http://localhost:1234/v1/"@, Seq::empty()),
    {
        ProviderConfig::plain("LMStudio", "http://localhost:1234/v1/")
    }

    /// Static configuration for the Phind backend.
    pub fn phind() -> (c: ProviderConfig)
        ensures
            config_is(c, "Phind"@, "https://https.api.phind.com/v1/"@, Seq::empty()),
    {
        ProviderConfig::plain("Phind", "https://https.api.phind.com/v1/")
    }

    /// Static configuration for the Ollama backend.
    pub fn ollama() -> (c: ProviderConfig)
        ensures
            config_is(c, "Ollama"@, "http://localhost:11434/v1/"@, Seq::empty()),
    {
        ProviderConfig::plain("Ollama", "http://localhost:11434/v1/")
    }

    /// Static configuration for the ElevenLabs backend.
    pub fn elevenlabs() -> (c: ProviderConfig)
        ensures
            config_is(c, "ElevenLabs"@, "https://api.elevenlabs.io/v1/"@, Seq::empty()),
    {
        ProviderConfig::plain("ElevenLabs", "https://api.elevenlabs.io/v1/")
    }

    /// The configuration `backend` maps to.
    pub fn for_backend(backend: &Backend) -> (c: ProviderConfig)
        ensures
            config_is(c, backend_config(*backend).0, backend_config(*backend).1, backend_config(*backend).2),
    {
        match backend {
            Backend::OpenAI | Backend::OpenAiCodex | Backend::Anthropic | Backend::Google
            | Backend::AzureOpenAI => ProviderConfig::openai(),
            Backend::OpenRouter => ProviderConfig::openrouter(),
            Backend::ZAI => ProviderConfig::zai(),
            Backend::DeepSeek => ProviderConfig::deepseek(),
            Backend::Groq => ProviderConfig::groq(),
            Backend::XAI => ProviderConfig::xai(),
            Backend::Mistral => ProviderConfig::mistral(),
            Backend::Cohere => ProviderConfig::cohere(),
            Backend::HuggingFace => ProviderConfig::huggingface(),
            Backend::LmStudio => ProviderConfig::lmstudio(),
            Backend::Phind => ProviderConfig::phind(),
            Backend::Ollama => ProviderConfig::ollama(),
            Backend::ElevenLabs => ProviderConfig::elevenlabs(),
        }
    }
}

/// Only OpenRouter carries attribution headers; every other backend sends
/// none.
pub proof fn lemma_only_openrouter_attributes(b: Backend)
    ensures
        b != Backend::OpenRouter ==> backend_config(b).2.len() == 0,
        b == Backend::OpenRouter ==> backend_config(b).2 == openrouter_headers(),
{
}

} // verus!
