//! The runtime client value and its per-provider construction recipes.
//!
//! A [`Client`] is a tagged union with exactly one case per [`Provider`]
//! value; each case owns exactly one constructed backend client. The tag of
//! a client always equals the provider it was built from, and a client is
//! never mutated after construction.

use vstd::prelude::*;
use crate::backend;
use crate::provider::Provider;

verus! {

/// Whether `c` may stand in an HTTP header value: horizontal tab or any
/// character other than an ASCII control character or delete.
pub open spec fn header_ok_char(c: char) -> bool {
    c == '\t' || (32 <= c as int && c as int != 127)
}

/// Whether a credential can be carried in an HTTP header. Backend clients
/// that put the credential in a default header refuse any other credential
/// at construction.
pub open spec fn credential_ok(s: Seq<char>) -> bool {
    forall|i: int| 0 <= i < s.len() ==> header_ok_char(s[i])
}

/// Which providers place the credential in a default HTTP header when the
/// client is constructed. Gemini keeps it as a plain string and Ollama
/// takes no credential at all.
pub open spec fn credential_in_header(p: Provider) -> bool {
    p != Provider::Gemini && p != Provider::Ollama
}

/// Why a client could not be built.
#[derive(Clone, Copy, PartialEq, Eq, Structural, Debug)]
pub enum ConstructionError {
    /// The chosen backend has no default endpoint, so a base URL must be
    /// supplied.
    MissingRequiredUrl,
}

/// A runtime value holding exactly one constructed backend client, tagged
/// by the provider it was built for.
pub enum Client {
    Anthropic(rig::providers::anthropic::Client),
    Azure(rig::providers::azure::Client),
    Cohere(rig::providers::cohere::Client),
    DeepSeek(rig::providers::deepseek::Client),
    Galadriel(rig::providers::galadriel::Client),
    Gemini(rig::providers::gemini::Client),
    Groq(rig::providers::groq::Client),
    Hyperbolic(rig::providers::hyperbolic::Client),
    Moonshot(rig::providers::moonshot::Client),
    OpenAI(rig::providers::openai::Client),
    Ollama(rig::providers::ollama::Client),
    Perplexity(rig::providers::perplexity::Client),
    Xai(rig::providers::xai::Client),
}

impl Client {
    /// The provider this client was built for: the tag of the union.
    pub open spec fn provider_spec(&self) -> Provider {
        match *self {
            Client::Anthropic(_) => Provider::Anthropic,
            Client::Azure(_) => Provider::Azure,
            Client::Cohere(_) => Provider::Cohere,
            Client::DeepSeek(_) => Provider::DeepSeek,
            Client::Galadriel(_) => Provider::Galadriel,
            Client::Gemini(_) => Provider::Gemini,
            Client::Groq(_) => Provider::Groq,
            Client::Hyperbolic(_) => Provider::Hyperbolic,
            Client::Moonshot(_) => Provider::Moonshot,
            Client::OpenAI(_) => Provider::OpenAI,
            Client::Ollama(_) => Provider::Ollama,
            Client::Perplexity(_) => Provider::Perplexity,
            Client::Xai(_) => Provider::Xai,
        }
    }

    /// Reads the tag back as a provider value.
    pub fn provider(&self) -> (p: Provider)
        ensures
            p == self.provider_spec(),
    {
        match *self {
            Client::Anthropic(_) => Provider::Anthropic,
            Client::Azure(_) => Provider::Azure,
            Client::Cohere(_) => Provider::Cohere,
            Client::DeepSeek(_) => Provider::DeepSeek,
            Client::Galadriel(_) => Provider::Galadriel,
            Client::Gemini(_) => Provider::Gemini,
            Client::Groq(_) => Provider::Groq,
            Client::Hyperbolic(_) => Provider::Hyperbolic,
            Client::Moonshot(_) => Provider::Moonshot,
            Client::OpenAI(_) => Provider::OpenAI,
            Client::Ollama(_) => Provider::Ollama,
            Client::Perplexity(_) => Provider::Perplexity,
            Client::Xai(_) => Provider::Xai,
        }
    }

    /// Duplicates the client. A client is cheap to duplicate: the owned
    /// backend client is itself cheaply shareable.
    pub fn duplicate(&self) -> (r: Client)
        ensures
            r == *self,
    {
        match self {
            Client::Anthropic(c) => Client::Anthropic(c.clone()),
            Client::Azure(c) => Client::Azure(c.clone()),
            Client::Cohere(c) => Client::Cohere(c.clone()),
            Client::DeepSeek(c) => Client::DeepSeek(c.clone()),
            Client::Galadriel(c) => Client::Galadriel(c.clone()),
            Client::Gemini(c) => Client::Gemini(c.clone()),
            Client::Groq(c) => Client::Groq(c.clone()),
            Client::Hyperbolic(c) => Client::Hyperbolic(c.clone()),
            Client::Moonshot(c) => Client::Moonshot(c.clone()),
            Client::OpenAI(c) => Client::OpenAI(c.clone()),
            Client::Ollama(c) => Client::Ollama(c.clone()),
            Client::Perplexity(c) => Client::Perplexity(c.clone()),
            Client::Xai(c) => Client::Xai(c.clone()),
        }
    }
}

impl Provider {
    /// Builds a client for this provider from a credential and an optional
    /// base-URL override.
    ///
    /// Exactly one construction recipe exists per provider. Every recipe
    /// succeeds but Azure's, which has no default endpoint: it fails with
    /// [`ConstructionError::MissingRequiredUrl`] when no base URL is given,
    /// and fixes the protocol version when one is. Ollama's recipe takes no
    /// credential: it reaches a local instance, through the base URL when
    /// one is given. The tag of a built client always equals this provider.
    ///
    /// Most backend clients place the credential in a default HTTP header
    /// and refuse, by panicking, a credential no header may carry; such
    /// credentials are excluded up front for the providers concerned.
    pub fn client(&self, api_key: &str, custom_url: Option<&str>) -> (r: Result<
        Client,
        ConstructionError,
    >)
        requires
            credential_in_header(*self) ==> credential_ok(api_key@),
        ensures
            match r {
                Ok(c) => c.provider_spec() == *self && (*self == Provider::Azure
                    ==> custom_url is Some),
                Err(e) => e == ConstructionError::MissingRequiredUrl && *self == Provider::Azure
                    && custom_url is None,
            },
    {
        match *self {
            Provider::Anthropic => Ok(Client::Anthropic(match custom_url {
                None => backend::anthropic_new(api_key),
                Some(url) => backend::anthropic_from_url(api_key, url),
            })),
            Provider::Azure => match custom_url {
                Some(url) => Ok(Client::Azure(backend::azure_new(api_key, "2024-10-21", url))),
                None => Err(ConstructionError::MissingRequiredUrl),
            },
            Provider::Cohere => Ok(Client::Cohere(match custom_url {
                None => backend::cohere_new(api_key),
                Some(url) => backend::cohere_from_url(api_key, url),
            })),
            Provider::DeepSeek => Ok(Client::DeepSeek(match custom_url {
                None => backend::deepseek_new(api_key),
                Some(url) => backend::deepseek_from_url(api_key, url),
            })),
            Provider::Galadriel => Ok(Client::Galadriel(match custom_url {
                None => backend::galadriel_new(api_key, None),
                Some(url) => backend::galadriel_from_url(api_key, url, None),
            })),
            Provider::Gemini => Ok(Client::Gemini(match custom_url {
                None => backend::gemini_new(api_key),
                Some(url) => backend::gemini_from_url(api_key, url),
            })),
            Provider::Groq => Ok(Client::Groq(match custom_url {
                None => backend::groq_new(api_key),
                Some(url) => backend::groq_from_url(api_key, url),
            })),
            Provider::Hyperbolic => Ok(Client::Hyperbolic(match custom_url {
                None => backend::hyperbolic_new(api_key),
                Some(url) => backend::hyperbolic_from_url(api_key, url),
            })),
            Provider::Moonshot => Ok(Client::Moonshot(match custom_url {
                None => backend::moonshot_new(api_key),
                Some(url) => backend::moonshot_from_url(api_key, url),
            })),
            Provider::OpenAI => Ok(Client::OpenAI(match custom_url {
                None => backend::openai_new(api_key),
                Some(url) => backend::openai_from_url(api_key, url),
            })),
            Provider::Ollama => Ok(Client::Ollama(match custom_url {
                None => backend::ollama_new(),
                Some(url) => backend::ollama_from_url(url),
            })),
            Provider::Perplexity => Ok(Client::Perplexity(match custom_url {
                None => backend::perplexity_new(api_key),
                Some(url) => backend::perplexity_from_url(api_key, url),
            })),
            Provider::Xai => Ok(Client::Xai(backend::xai_new(api_key))),
        }
    }
}

} // verus!
