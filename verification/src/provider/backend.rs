//! Backend discriminator for LLM providers, mapped to and from the names
//! provider configuration uses.

use vstd::prelude::*;

use crate::codecs::{all_ascii, ascii_lower, lowercase, to_lowercase};
use crate::text::str_eq;

verus! {

/// Raised for a backend name jinn does not know.
#[derive(Debug, Clone, Copy, PartialEq, Eq, Structural)]
pub struct BackendError;

impl BackendError {
    /// What went wrong, for diagnostics.
    pub fn message(&self) -> (m: &'static str)
        ensures
            m@ == "invalid backend"@,
    {
        "invalid backend"
    }
}

/// Supported LLM backend providers.
#[derive(Debug, Clone, Copy, PartialEq, Eq, Structural)]
pub enum Backend {
    /// OpenAI (also covers OpenAI-compatible providers).
    OpenAI,
    /// OpenAI Codex, reached through a ChatGPT subscription rather than an
    /// API key. Speaks the Responses protocol against the Codex backend.
    OpenAiCodex,
    /// Anthropic.
    Anthropic,
    /// Ollama (local inference).
    Ollama,
    /// DeepSeek.
    DeepSeek,
    /// xAI (Grok models).
    XAI,
    /// Phind.
    Phind,
    /// Google (Gemini models).
    Google,
    /// Groq.
    Groq,
    /// Azure OpenAI.
    AzureOpenAI,
    /// ElevenLabs.
    ElevenLabs,
    /// Cohere.
    Cohere,
    /// Mistral.
    Mistral,
    /// OpenRouter.
    OpenRouter,
    /// HuggingFace.
    HuggingFace,
    /// LM Studio (local inference).
    LmStudio,
    /// ZAI.
    ZAI,
}

/// The configuration name of a backend.
pub open spec fn backend_name(b: Backend) -> Seq<char> {
    match b {
        Backend::OpenAI => "openai"@,
        Backend::OpenAiCodex => "openai-codex"@,
        Backend::Anthropic => "anthropic"@,
        Backend::Ollama => "ollama"@,
        Backend::DeepSeek => "deepseek"@,
        Backend::XAI => "xai"@,
        Backend::Phind => "phind"@,
        Backend::Google => "google"@,
        Backend::Groq => "groq"@,
        Backend::AzureOpenAI => "azure-openai"@,
        Backend::ElevenLabs => "elevenlabs"@,
        Backend::Cohere => "cohere"@,
        Backend::Mistral => "mistral"@,
        Backend::OpenRouter => "openrouter"@,
        Backend::HuggingFace => "huggingface"@,
        Backend::LmStudio => "lmstudio"@,
        Backend::ZAI => "zai"@,
    }
}

/// The backend a lowercase configuration name stands for.
pub open spec fn backend_for_name(s: Seq<char>) -> Option<Backend> {
    if s == "openai"@ {
        Some(Backend::OpenAI)
    } else if s == "openai-codex"@ {
        Some(Backend::OpenAiCodex)
    } else if s == "anthropic"@ {
        Some(Backend::Anthropic)
    } else if s == "ollama"@ {
        Some(Backend::Ollama)
    } else if s == "deepseek"@ {
        Some(Backend::DeepSeek)
    } else if s == "xai"@ {
        Some(Backend::XAI)
    } else if s == "phind"@ {
        Some(Backend::Phind)
    } else if s == "google"@ {
        Some(Backend::Google)
    } else if s == "groq"@ {
        Some(Backend::Groq)
    } else if s == "azure-openai"@ {
        Some(Backend::AzureOpenAI)
    } else if s == "elevenlabs"@ {
        Some(Backend::ElevenLabs)
    } else if s == "cohere"@ {
        Some(Backend::Cohere)
    } else if s == "mistral"@ {
        Some(Backend::Mistral)
    } else if s == "openrouter"@ {
        Some(Backend::OpenRouter)
    } else if s == "huggingface"@ {
        Some(Backend::HuggingFace)
    } else if s == "lmstudio"@ {
        Some(Backend::LmStudio)
    } else if s == "zai"@ {
        Some(Backend::ZAI)
    } else {
        None
    }
}

impl Backend {
    /// The configuration name.
    pub fn name(&self) -> (s: &'static str)
        ensures
            s@ == backend_name(*self),
    {
        match self {
            Backend::OpenAI => "openai",
            Backend::OpenAiCodex => "openai-codex",
            Backend::Anthropic => "anthropic",
            Backend::Ollama => "ollama",
            Backend::DeepSeek => "deepseek",
            Backend::XAI => "xai",
            Backend::Phind => "phind",
            Backend::Google => "google",
            Backend::Groq => "groq",
            Backend::AzureOpenAI => "azure-openai",
            Backend::ElevenLabs => "elevenlabs",
            Backend::Cohere => "cohere",
            Backend::Mistral => "mistral",
            Backend::OpenRouter => "openrouter",
            Backend::HuggingFace => "huggingface",
            Backend::LmStudio => "lmstudio",
            Backend::ZAI => "zai",
        }
    }

    /// The configuration name as an owned string (what `Display` prints).
    pub fn to_string(&self) -> (s: String)
        ensures
            s@ == backend_name(*self),
    {
        self.name().to_owned()
    }

    /// Parses a backend name, ignoring case.
    pub fn from_name(s: &str) -> (r: Result<Backend, BackendError>)
        ensures
            match backend_for_name(lowercase(s@)) {
                Some(b) => r == Ok::<Backend, BackendError>(b),
                None => r == Err::<Backend, BackendError>(BackendError),
            },
            all_ascii(s@) ==> match backend_for_name(ascii_lower(s@)) {
                Some(b) => r == Ok::<Backend, BackendError>(b),
                None => r == Err::<Backend, BackendError>(BackendError),
            },
    {
        let lowered = to_lowercase(s);
        let l = lowered.as_str();
        let candidates: [Backend; 17] = [
            Backend::OpenAI,
            Backend::OpenAiCodex,
            Backend::Anthropic,
            Backend::Ollama,
            Backend::DeepSeek,
            Backend::XAI,
            Backend::Phind,
            Backend::Google,
            Backend::Groq,
            Backend::AzureOpenAI,
            Backend::ElevenLabs,
            Backend::Cohere,
            Backend::Mistral,
            Backend::OpenRouter,
            Backend::HuggingFace,
            Backend::LmStudio,
            Backend::ZAI,
        ];
        let mut i: usize = 0;
        while i < 17
            invariant
                i <= 17,
                candidates@ == seq![
                    Backend::OpenAI,
                    Backend::OpenAiCodex,
                    Backend::Anthropic,
                    Backend::Ollama,
                    Backend::DeepSeek,
                    Backend::XAI,
                    Backend::Phind,
                    Backend::Google,
                    Backend::Groq,
                    Backend::AzureOpenAI,
                    Backend::ElevenLabs,
                    Backend::Cohere,
                    Backend::Mistral,
                    Backend::OpenRouter,
                    Backend::HuggingFace,
                    Backend::LmStudio,
                    Backend::ZAI,
                ],
                forall|j: int| 0 <= j < i ==> l@ != backend_name(#[trigger] candidates@[j]),
                l@ == lowercase(s@),
                all_ascii(s@) ==> l@ == ascii_lower(s@),
            decreases 17 - i,
        {
            let candidate = candidates[i];
            if str_eq(l, candidate.name()) {
                proof {
                    lemma_backend_name_picks(candidate);
                }
                return Ok(candidate);
            }
            i = i + 1;
        }
        proof {
            reveal_strlit("openai");
            reveal_strlit("openai-codex");
            reveal_strlit("anthropic");
            reveal_strlit("ollama");
            reveal_strlit("deepseek");
            reveal_strlit("xai");
            reveal_strlit("phind");
            reveal_strlit("google");
            reveal_strlit("groq");
            reveal_strlit("azure-openai");
            reveal_strlit("elevenlabs");
            reveal_strlit("cohere");
            reveal_strlit("mistral");
            reveal_strlit("openrouter");
            reveal_strlit("huggingface");
            reveal_strlit("lmstudio");
            reveal_strlit("zai");
            assert(backend_for_name(l@) is None) by {
                assert(l@ != backend_name(candidates@[0]));
                assert(l@ != backend_name(candidates@[1]));
                assert(l@ != backend_name(candidates@[2]));
                assert(l@ != backend_name(candidates@[3]));
                assert(l@ != backend_name(candidates@[4]));
                assert(l@ != backend_name(candidates@[5]));
                assert(l@ != backend_name(candidates@[6]));
                assert(l@ != backend_name(candidates@[7]));
                assert(l@ != backend_name(candidates@[8]));
                assert(l@ != backend_name(candidates@[9]));
                assert(l@ != backend_name(candidates@[10]));
                assert(l@ != backend_name(candidates@[11]));
                assert(l@ != backend_name(candidates@[12]));
                assert(l@ != backend_name(candidates@[13]));
                assert(l@ != backend_name(candidates@[14]));
                assert(l@ != backend_name(candidates@[15]));
                assert(l@ != backend_name(candidates@[16]));
            }
        }
        Err(BackendError)
    }
}

impl std::str::FromStr for Backend {
    type Err = BackendError;

    fn from_str(s: &str) -> (r: Result<Backend, BackendError>)
        ensures
            match backend_for_name(lowercase(s@)) {
                Some(b) => r == Ok::<Backend, BackendError>(b),
                None => r == Err::<Backend, BackendError>(BackendError),
            },
            all_ascii(s@) ==> match backend_for_name(ascii_lower(s@)) {
                Some(b) => r == Ok::<Backend, BackendError>(b),
                None => r == Err::<Backend, BackendError>(BackendError),
            },
    {
        Backend::from_name(s)
    }
}

/// The length and first two characters of each backend name, which tell
/// the names apart.
proof fn lemma_backend_name_shapes()
    ensures
        "openai"@.len() == 6 && "openai"@[0] == 'o' && "openai"@[1] == 'p',
        "openai-codex"@.len() == 12 && "openai-codex"@[0] == 'o' && "openai-codex"@[1] == 'p',
        "anthropic"@.len() == 9 && "anthropic"@[0] == 'a' && "anthropic"@[1] == 'n',
        "ollama"@.len() == 6 && "ollama"@[0] == 'o' && "ollama"@[1] == 'l',
        "deepseek"@.len() == 8 && "deepseek"@[0] == 'd' && "deepseek"@[1] == 'e',
        "xai"@.len() == 3 && "xai"@[0] == 'x' && "xai"@[1] == 'a',
        "phind"@.len() == 5 && "phind"@[0] == 'p' && "phind"@[1] == 'h',
        "google"@.len() == 6 && "google"@[0] == 'g' && "google"@[1] == 'o',
        "groq"@.len() == 4 && "groq"@[0] == 'g' && "groq"@[1] == 'r',
        "azure-openai"@.len() == 12 && "azure-openai"@[0] == 'a' && "azure-openai"@[1] == 'z',
        "elevenlabs"@.len() == 10 && "elevenlabs"@[0] == 'e' && "elevenlabs"@[1] == 'l',
        "cohere"@.len() == 6 && "cohere"@[0] == 'c' && "cohere"@[1] == 'o',
        "mistral"@.len() == 7 && "mistral"@[0] == 'm' && "mistral"@[1] == 'i',
        "openrouter"@.len() == 10 && "openrouter"@[0] == 'o' && "openrouter"@[1] == 'p',
        "huggingface"@.len() == 11 && "huggingface"@[0] == 'h' && "huggingface"@[1] == 'u',
        "lmstudio"@.len() == 8 && "lmstudio"@[0] == 'l' && "lmstudio"@[1] == 'm',
        "zai"@.len() == 3 && "zai"@[0] == 'z' && "zai"@[1] == 'a',
{
    reveal_strlit("openai");
    reveal_strlit("openai-codex");
    reveal_strlit("anthropic");
    reveal_strlit("ollama");
    reveal_strlit("deepseek");
    reveal_strlit("xai");
    reveal_strlit("phind");
    reveal_strlit("google");
    reveal_strlit("groq");
    reveal_strlit("azure-openai");
    reveal_strlit("elevenlabs");
    reveal_strlit("cohere");
    reveal_strlit("mistral");
    reveal_strlit("openrouter");
    reveal_strlit("huggingface");
    reveal_strlit("lmstudio");
    reveal_strlit("zai");
}

/// A backend's name picks out that backend.
pub proof fn lemma_backend_name_picks(b: Backend)
    ensures
        backend_for_name(backend_name(b)) == Some(b),
{
    lemma_backend_name_shapes();
    match b {
        Backend::OpenAI => {},
        Backend::OpenAiCodex => {},
        Backend::Anthropic => {},
        Backend::Ollama => {},
        Backend::DeepSeek => {},
        Backend::XAI => {},
        Backend::Phind => {},
        Backend::Google => {},
        Backend::Groq => {},
        Backend::AzureOpenAI => {},
        Backend::ElevenLabs => {},
        Backend::Cohere => {},
        Backend::Mistral => {},
        Backend::OpenRouter => {},
        Backend::HuggingFace => {},
        Backend::LmStudio => {},
        Backend::ZAI => {},
    }
}

/// Printing a backend and parsing the text back gives the same backend:
/// names are lowercase ASCII, so parsing (which ignores case) reads each one
/// back as itself.
pub proof fn lemma_display_round_trips(b: Backend)
    ensures
        all_ascii(backend_name(b)),
        ascii_lower(backend_name(b)) == backend_name(b),
        backend_for_name(ascii_lower(backend_name(b))) == Some(b),
{
    lemma_backend_name_picks(b);
    reveal_strlit("openai");
    reveal_strlit("openai-codex");
    reveal_strlit("anthropic");
    reveal_strlit("ollama");
    reveal_strlit("deepseek");
    reveal_strlit("xai");
    reveal_strlit("phind");
    reveal_strlit("google");
    reveal_strlit("groq");
    reveal_strlit("azure-openai");
    reveal_strlit("elevenlabs");
    reveal_strlit("cohere");
    reveal_strlit("mistral");
    reveal_strlit("openrouter");
    reveal_strlit("huggingface");
    reveal_strlit("lmstudio");
    reveal_strlit("zai");
    assert(ascii_lower(backend_name(b)) =~= backend_name(b));
}

} // verus!
