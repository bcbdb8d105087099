//! Trusted bindings to the backend SDK clients of the `rig` crate.
//!
//! Each backend client type is declared so it can stand inside [`crate::client::Client`],
//! and each constructor this library dispatches to is wrapped in one trusted
//! function. The clients are opaque here: network transport, authentication
//! and wire formats stay the SDK's responsibility.
//!
//! Constructors that place the credential in a default HTTP header refuse,
//! by panicking, a credential with characters that no header may carry;
//! those wrappers require [`crate::client::credential_ok`]. No constructor
//! validates or parses the base URL at construction time.

use vstd::prelude::*;
use crate::client::credential_ok;
use rig::providers::anthropic::Client as AnthropicSdk;
use rig::providers::azure::Client as AzureSdk;
use rig::providers::cohere::Client as CohereSdk;
use rig::providers::deepseek::Client as DeepSeekSdk;
use rig::providers::galadriel::Client as GaladrielSdk;
use rig::providers::gemini::Client as GeminiSdk;
use rig::providers::groq::Client as GroqSdk;
use rig::providers::hyperbolic::Client as HyperbolicSdk;
use rig::providers::moonshot::Client as MoonshotSdk;
use rig::providers::openai::Client as OpenAISdk;
use rig::providers::ollama::Client as OllamaSdk;
use rig::providers::perplexity::Client as PerplexitySdk;
use rig::providers::xai::Client as XaiSdk;

verus! {

/// Declares rig's Anthropic client type.
#[verifier::external_type_specification]
#[verifier::external_body]
pub struct ExAnthropicClient(AnthropicSdk);

/// Declares rig's Azure OpenAI client type.
#[verifier::external_type_specification]
#[verifier::external_body]
pub struct ExAzureClient(AzureSdk);

/// Declares rig's Cohere client type.
#[verifier::external_type_specification]
#[verifier::external_body]
pub struct ExCohereClient(CohereSdk);

/// Declares rig's DeepSeek client type.
#[verifier::external_type_specification]
#[verifier::external_body]
pub struct ExDeepSeekClient(DeepSeekSdk);

/// Declares rig's Galadriel client type.
#[verifier::external_type_specification]
#[verifier::external_body]
pub struct ExGaladrielClient(GaladrielSdk);

/// Declares rig's Gemini client type.
#[verifier::external_type_specification]
#[verifier::external_body]
pub struct ExGeminiClient(GeminiSdk);

/// Declares rig's Groq client type.
#[verifier::external_type_specification]
#[verifier::external_body]
pub struct ExGroqClient(GroqSdk);

/// Declares rig's Hyperbolic client type.
#[verifier::external_type_specification]
#[verifier::external_body]
pub struct ExHyperbolicClient(HyperbolicSdk);

/// Declares rig's Moonshot client type.
#[verifier::external_type_specification]
#[verifier::external_body]
pub struct ExMoonshotClient(MoonshotSdk);

/// Declares rig's OpenAI client type.
#[verifier::external_type_specification]
#[verifier::external_body]
pub struct ExOpenAIClient(OpenAISdk);

/// Declares rig's Ollama client type.
#[verifier::external_type_specification]
#[verifier::external_body]
pub struct ExOllamaClient(OllamaSdk);

/// Declares rig's Perplexity client type.
#[verifier::external_type_specification]
#[verifier::external_body]
pub struct ExPerplexityClient(PerplexitySdk);

/// Declares rig's xAI client type.
#[verifier::external_type_specification]
#[verifier::external_body]
pub struct ExXaiClient(XaiSdk);

/// Relies on the derived `Clone` of rig's Anthropic client: every field is
/// duplicated, so the clone stands for the same backend client.
pub assume_specification[ <AnthropicSdk as Clone>::clone ](
    c: &AnthropicSdk,
) -> (r: AnthropicSdk)
    ensures
        r == *c,
;

/// Relies on the derived `Clone` of rig's Azure OpenAI client.
pub assume_specification[ <AzureSdk as Clone>::clone ](
    c: &AzureSdk,
) -> (r: AzureSdk)
    ensures
        r == *c,
;

/// Relies on the derived `Clone` of rig's Cohere client.
pub assume_specification[ <CohereSdk as Clone>::clone ](
    c: &CohereSdk,
) -> (r: CohereSdk)
    ensures
        r == *c,
;

/// Relies on the derived `Clone` of rig's DeepSeek client.
pub assume_specification[ <DeepSeekSdk as Clone>::clone ](
    c: &DeepSeekSdk,
) -> (r: DeepSeekSdk)
    ensures
        r == *c,
;

/// Relies on the derived `Clone` of rig's Galadriel client.
pub assume_specification[ <GaladrielSdk as Clone>::clone ](
    c: &GaladrielSdk,
) -> (r: GaladrielSdk)
    ensures
        r == *c,
;

/// Relies on the derived `Clone` of rig's Gemini client.
pub assume_specification[ <GeminiSdk as Clone>::clone ](
    c: &GeminiSdk,
) -> (r: GeminiSdk)
    ensures
        r == *c,
;

/// Relies on the derived `Clone` of rig's Groq client.
pub assume_specification[ <GroqSdk as Clone>::clone ](
    c: &GroqSdk,
) -> (r: GroqSdk)
    ensures
        r == *c,
;

/// Relies on the derived `Clone` of rig's Hyperbolic client.
pub assume_specification[ <HyperbolicSdk as Clone>::clone ](
    c: &HyperbolicSdk,
) -> (r: HyperbolicSdk)
    ensures
        r == *c,
;

/// Relies on the derived `Clone` of rig's Moonshot client.
pub assume_specification[ <MoonshotSdk as Clone>::clone ](
    c: &MoonshotSdk,
) -> (r: MoonshotSdk)
    ensures
        r == *c,
;

/// Relies on the derived `Clone` of rig's OpenAI client.
pub assume_specification[ <OpenAISdk as Clone>::clone ](
    c: &OpenAISdk,
) -> (r: OpenAISdk)
    ensures
        r == *c,
;

/// Relies on the derived `Clone` of rig's Ollama client.
pub assume_specification[ <OllamaSdk as Clone>::clone ](
    c: &OllamaSdk,
) -> (r: OllamaSdk)
    ensures
        r == *c,
;

/// Relies on the derived `Clone` of rig's Perplexity client.
pub assume_specification[ <PerplexitySdk as Clone>::clone ](
    c: &PerplexitySdk,
) -> (r: PerplexitySdk)
    ensures
        r == *c,
;

/// Relies on the derived `Clone` of rig's xAI client.
pub assume_specification[ <XaiSdk as Clone>::clone ](
    c: &XaiSdk,
) -> (r: XaiSdk)
    ensures
        r == *c,
;

/// Relies on rig's `anthropic::ClientBuilder` (`new`, then `build`): stages
/// and builds an Anthropic client for the default endpoint. Panics only on a
/// credential no header may carry.
#[verifier::external_body]
pub(crate) fn anthropic_new(api_key: &str) -> AnthropicSdk
    requires
        credential_ok(api_key@),
{
    rig::providers::anthropic::ClientBuilder::new(api_key).build()
}

/// Relies on rig's `anthropic::ClientBuilder` (`new`, `base_url`, `build`):
/// stages and builds an Anthropic client for the given endpoint.
#[verifier::external_body]
pub(crate) fn anthropic_from_url(api_key: &str, base_url: &str) -> AnthropicSdk
    requires
        credential_ok(api_key@),
{
    rig::providers::anthropic::ClientBuilder::new(api_key).base_url(base_url).build()
}

/// Relies on rig's `azure::Client::new`: builds a client for the given
/// endpoint, with the credential carried as a bearer token.
#[verifier::external_body]
pub(crate) fn azure_new(
    api_key: &str,
    api_version: &str,
    azure_endpoint: &str,
) -> AzureSdk
    requires
        credential_ok(api_key@),
{
    AzureSdk::new(api_key.to_owned(), api_version, azure_endpoint)
}

/// Relies on rig's `cohere::Client::new`: builds a client for the default
/// endpoint.
#[verifier::external_body]
pub(crate) fn cohere_new(api_key: &str) -> CohereSdk
    requires
        credential_ok(api_key@),
{
    CohereSdk::new(api_key)
}

/// Relies on rig's `cohere::Client::from_url`: builds a client for the given
/// endpoint.
#[verifier::external_body]
pub(crate) fn cohere_from_url(api_key: &str, base_url: &str) -> CohereSdk
    requires
        credential_ok(api_key@),
{
    CohereSdk::from_url(api_key, base_url)
}

/// Relies on rig's `deepseek::Client::new`.
#[verifier::external_body]
pub(crate) fn deepseek_new(api_key: &str) -> DeepSeekSdk
    requires
        credential_ok(api_key@),
{
    DeepSeekSdk::new(api_key)
}

/// Relies on rig's `deepseek::Client::from_url`.
#[verifier::external_body]
pub(crate) fn deepseek_from_url(api_key: &str, base_url: &str) -> DeepSeekSdk
    requires
        credential_ok(api_key@),
{
    DeepSeekSdk::from_url(api_key, base_url)
}

/// Relies on rig's `galadriel::Client::new`; the optional fine-tune
/// credential is carried in a header as well.
#[verifier::external_body]
pub(crate) fn galadriel_new(
    api_key: &str,
    fine_tune_api_key: Option<&str>,
) -> GaladrielSdk
    requires
        credential_ok(api_key@),
        fine_tune_api_key matches Some(k) ==> credential_ok(k@),
{
    GaladrielSdk::new(api_key, fine_tune_api_key)
}

/// Relies on rig's `galadriel::Client::from_url`.
#[verifier::external_body]
pub(crate) fn galadriel_from_url(
    api_key: &str,
    base_url: &str,
    fine_tune_api_key: Option<&str>,
) -> GaladrielSdk
    requires
        credential_ok(api_key@),
        fine_tune_api_key matches Some(k) ==> credential_ok(k@),
{
    GaladrielSdk::from_url(api_key, base_url, fine_tune_api_key)
}

/// Relies on rig's `gemini::Client::new`: the credential is kept as a plain
/// string, not parsed at construction.
#[verifier::external_body]
pub(crate) fn gemini_new(api_key: &str) -> GeminiSdk {
    GeminiSdk::new(api_key)
}

/// Relies on rig's `gemini::Client::from_url`.
#[verifier::external_body]
pub(crate) fn gemini_from_url(api_key: &str, base_url: &str) -> GeminiSdk {
    GeminiSdk::from_url(api_key, base_url)
}

/// Relies on rig's `groq::Client::new`.
#[verifier::external_body]
pub(crate) fn groq_new(api_key: &str) -> GroqSdk
    requires
        credential_ok(api_key@),
{
    GroqSdk::new(api_key)
}

/// Relies on rig's `groq::Client::from_url`.
#[verifier::external_body]
pub(crate) fn groq_from_url(api_key: &str, base_url: &str) -> GroqSdk
    requires
        credential_ok(api_key@),
{
    GroqSdk::from_url(api_key, base_url)
}

/// Relies on rig's `hyperbolic::Client::new`.
#[verifier::external_body]
pub(crate) fn hyperbolic_new(api_key: &str) -> HyperbolicSdk
    requires
        credential_ok(api_key@),
{
    HyperbolicSdk::new(api_key)
}

/// Relies on rig's `hyperbolic::Client::from_url`.
#[verifier::external_body]
pub(crate) fn hyperbolic_from_url(
    api_key: &str,
    base_url: &str,
) -> HyperbolicSdk
    requires
        credential_ok(api_key@),
{
    HyperbolicSdk::from_url(api_key, base_url)
}

/// Relies on rig's `moonshot::Client::new`.
#[verifier::external_body]
pub(crate) fn moonshot_new(api_key: &str) -> MoonshotSdk
    requires
        credential_ok(api_key@),
{
    MoonshotSdk::new(api_key)
}

/// Relies on rig's `moonshot::Client::from_url`.
#[verifier::external_body]
pub(crate) fn moonshot_from_url(api_key: &str, base_url: &str) -> MoonshotSdk
    requires
        credential_ok(api_key@),
{
    MoonshotSdk::from_url(api_key, base_url)
}

/// Relies on rig's `openai::Client::new`.
#[verifier::external_body]
pub(crate) fn openai_new(api_key: &str) -> OpenAISdk
    requires
        credential_ok(api_key@),
{
    OpenAISdk::new(api_key)
}

/// Relies on rig's `openai::Client::from_url`.
#[verifier::external_body]
pub(crate) fn openai_from_url(api_key: &str, base_url: &str) -> OpenAISdk
    requires
        credential_ok(api_key@),
{
    OpenAISdk::from_url(api_key, base_url)
}

/// Relies on rig's `ollama::Client::new`: no credential at all; the default
/// local endpoint is kept as a plain string.
#[verifier::external_body]
pub(crate) fn ollama_new() -> OllamaSdk {
    OllamaSdk::new()
}

/// Relies on rig's `ollama::Client::from_url`: no credential; the given
/// endpoint is kept as a plain string.
#[verifier::external_body]
pub(crate) fn ollama_from_url(base_url: &str) -> OllamaSdk {
    OllamaSdk::from_url(base_url)
}

/// Relies on rig's `perplexity::Client::new`.
#[verifier::external_body]
pub(crate) fn perplexity_new(api_key: &str) -> PerplexitySdk
    requires
        credential_ok(api_key@),
{
    PerplexitySdk::new(api_key)
}

/// Relies on rig's `perplexity::Client::from_url`.
#[verifier::external_body]
pub(crate) fn perplexity_from_url(
    api_key: &str,
    base_url: &str,
) -> PerplexitySdk
    requires
        credential_ok(api_key@),
{
    PerplexitySdk::from_url(api_key, base_url)
}

/// Relies on rig's `xai::Client::new`: builds a client for the fixed xAI
/// endpoint.
#[verifier::external_body]
pub(crate) fn xai_new(api_key: &str) -> XaiSdk
    requires
        credential_ok(api_key@),
{
    XaiSdk::new(api_key)
}

} // verus!
