//! OpenAI Codex — the subscription-backed model transport.
//!
//! Codex serves ChatGPT subscribers through its own backend, speaking the
//! Responses protocol and authenticating with a subscription access token
//! rather than an API key. Requests are billed to the subscription; there is
//! deliberately no fallback to API-key access.
//!
//! Codex publishes no listing endpoint, so the catalog is carried here.
//! Entries appear under their own provider name, keeping subscription-backed
//! models visibly distinct from OpenAI API-key models in the picker.

use vstd::prelude::*;

use crate::failures::AccessTokenError;
use crate::text::{chars_of, ends_with, ends_with_chars, string_from_chars, trim_end_char, trim_end_char_chars};

verus! {

/// Provider block name that subscription-backed OpenAI models appear under.
pub const CODEX_PROVIDER_NAME: &'static str = "openai-codex";

/// Default Codex backend host.
pub const DEFAULT_CODEX_BASE_URL: &'static str = "https://chatgpt.com/backend-api";

/// Client identifier the Codex backend expects on every request.
pub const CODEX_ORIGINATOR: &'static str = "jinn";

/// Fallback instructions when a request carries no system prompt.
pub const DEFAULT_INSTRUCTIONS: &'static str = "You are a helpful assistant.";

/// Context window shared by the general-purpose Codex models.
pub const STANDARD_CONTEXT: u32 = 272_000;

/// Context window of the smaller, text-only Spark model.
pub const SPARK_CONTEXT: u32 = 128_000;

/// One model served through a Codex subscription.
#[derive(Debug, Clone, Copy, PartialEq, Eq)]
pub struct CodexModel {
    /// Model id sent to the backend and shown in the picker.
    pub id: &'static str,
    /// Maximum context window in tokens.
    pub context_length: u32,
    /// Whether the model accepts image input.
    pub supports_images: bool,
}

/// The catalog, in picker order: id, context window, image support.
pub open spec fn codex_catalog() -> Seq<(Seq<char>, u32, bool)> {
    seq![
        ("gpt-5.6-terra"@, STANDARD_CONTEXT, true),
        ("gpt-5.6-luna"@, STANDARD_CONTEXT, true),
        ("gpt-5.6-sol"@, STANDARD_CONTEXT, true),
        ("gpt-6-astra"@, STANDARD_CONTEXT, true),
        ("gpt-5.5"@, STANDARD_CONTEXT, true),
        ("gpt-5.3-codex-spark"@, SPARK_CONTEXT, false),
    ]
}

/// A catalog entry.
fn model(id: &'static str, context_length: u32, supports_images: bool) -> (m: CodexModel)
    ensures
        m.id@ == id@,
        m.context_length == context_length,
        m.supports_images == supports_images,
{
    CodexModel { id, context_length, supports_images }
}

/// The subscription model catalog, in picker order.
pub fn codex_models() -> (models: Vec<CodexModel>)
    ensures
        models@.len() == codex_catalog().len(),
        forall|i: int|
            0 <= i < models@.len() ==> (#[trigger] models@[i]).id@ == codex_catalog()[i].0
                && models@[i].context_length == codex_catalog()[i].1
                && models@[i].supports_images == codex_catalog()[i].2,
{
    let mut models: Vec<CodexModel> = Vec::new();
    models.push(model("gpt-5.6-terra", STANDARD_CONTEXT, true));
    models.push(model("gpt-5.6-luna", STANDARD_CONTEXT, true));
    models.push(model("gpt-5.6-sol", STANDARD_CONTEXT, true));
    models.push(model("gpt-6-astra", STANDARD_CONTEXT, true));
    models.push(model("gpt-5.5", STANDARD_CONTEXT, true));
    models.push(model("gpt-5.3-codex-spark", SPARK_CONTEXT, false));
    models
}

/// The catalog is not empty, and no model id is listed twice, so no picker
/// row can collide.
pub proof fn lemma_catalog_ids_unique()
    ensures
        codex_catalog().len() > 0,
        forall|i: int, j: int|
            0 <= i < j < codex_catalog().len() ==> #[trigger] codex_catalog()[i].0
                != #[trigger] codex_catalog()[j].0,
{
    reveal_strlit("gpt-5.6-terra");
    reveal_strlit("gpt-5.6-luna");
    reveal_strlit("gpt-5.6-sol");
    reveal_strlit("gpt-6-astra");
    reveal_strlit("gpt-5.5");
    reveal_strlit("gpt-5.3-codex-spark");
    assert("gpt-5.6-terra"@.len() == 13);
    assert("gpt-5.6-luna"@.len() == 12);
    assert("gpt-5.6-sol"@.len() == 11);
    assert("gpt-6-astra"@.len() == 11);
    assert("gpt-5.5"@.len() == 7);
    assert("gpt-5.3-codex-spark"@.len() == 19);
    assert("gpt-5.6-sol"@[4] == '5');
    assert("gpt-6-astra"@[4] == '6');
}

/// The base URL a service uses: the configured one, or the default host.
pub fn codex_base_url(base_url: Option<String>) -> (s: String)
    ensures
        s@ == (match base_url {
            Some(b) => b@,
            None => DEFAULT_CODEX_BASE_URL@,
        }),
{
    match base_url {
        Some(b) => b,
        None => DEFAULT_CODEX_BASE_URL.to_owned(),
    }
}

/// The Codex responses endpoint for a backend host: trailing slashes are
/// dropped, and the `/codex/responses` path is added unless the URL already
/// names it (or names `/codex`, which only needs `/responses`).
pub open spec fn codex_endpoint_of(base_url: Seq<char>) -> Seq<char> {
    let base = trim_end_char(base_url, '/');
    if ends_with(base, "/codex/responses"@) {
        base
    } else if ends_with(base, "/codex"@) {
        base + "/responses"@
    } else {
        base + "/codex/responses"@
    }
}

/// The Codex responses endpoint for a backend host.
pub fn codex_endpoint(base_url: &str) -> (url: String)
    ensures
        url@ == codex_endpoint_of(base_url@),
{
    let cs = chars_of(base_url);
    let base = trim_end_char_chars(cs.as_slice(), '/');
    let full = chars_of("/codex/responses");
    let codex = chars_of("/codex");
    let mut url = string_from_chars(base.as_slice());
    if ends_with_chars(base.as_slice(), full.as_slice()) {
        return url;
    }
    if ends_with_chars(base.as_slice(), codex.as_slice()) {
        url.append("/responses");
        return url;
    }
    url.append("/codex/responses");
    url
}

/// The instructions a request carries: the system prompt, or the default.
pub fn request_instructions(system_prompt: Option<&str>) -> (s: String)
    ensures
        s@ == (match system_prompt {
            Some(p) => p@,
            None => DEFAULT_INSTRUCTIONS@,
        }),
{
    match system_prompt {
        Some(p) => p.to_owned(),
        None => DEFAULT_INSTRUCTIONS.to_owned(),
    }
}

/// The headers that accompany the bearer token on a Codex request, in order.
pub open spec fn codex_headers(account_id: Seq<char>, request_id: Seq<char>) -> Seq<
    (Seq<char>, Seq<char>),
> {
    seq![
        ("chatgpt-account-id"@, account_id),
        ("originator"@, CODEX_ORIGINATOR@),
        ("OpenAI-Beta"@, "responses=experimental"@),
        ("session-id"@, request_id),
        ("x-client-request-id"@, request_id),
        ("accept"@, "text/event-stream"@),
    ]
}

/// The headers that accompany the bearer token on a Codex request.
pub fn codex_request_headers(account_id: &str, request_id: &str) -> (h: Vec<(String, String)>)
    ensures
        h@.len() == codex_headers(account_id@, request_id@).len(),
        forall|i: int|
            0 <= i < h@.len() ==> (#[trigger] h@[i]).0@ == codex_headers(
                account_id@,
                request_id@,
            )[i].0 && h@[i].1@ == codex_headers(account_id@, request_id@)[i].1,
{
    let mut h: Vec<(String, String)> = Vec::new();
    h.push(("chatgpt-account-id".to_owned(), account_id.to_owned()));
    h.push(("originator".to_owned(), CODEX_ORIGINATOR.to_owned()));
    h.push(("OpenAI-Beta".to_owned(), "responses=experimental".to_owned()));
    h.push(("session-id".to_owned(), request_id.to_owned()));
    h.push(("x-client-request-id".to_owned(), request_id.to_owned()));
    h.push(("accept".to_owned(), "text/event-stream".to_owned()));
    h
}

/// Whether a token failure means the user must authenticate (as opposed to
/// storage or the provider failing). Credentials that cannot be refreshed
/// surface as an authentication problem, so the request fails and the
/// session is preserved: logging in again stays an explicit user action.
pub fn token_error_needs_login(error: AccessTokenError) -> (r: bool)
    ensures
        r == (error == AccessTokenError::NotAuthenticated || error == AccessTokenError::Expired),
{
    match error {
        AccessTokenError::NotAuthenticated | AccessTokenError::Expired => true,
        _ => false,
    }
}

} // verus!
