//! The closed set of supported backends and its text form.
//!
//! Each provider has one canonical lowercase spelling, used whenever a
//! provider is persisted, and may accept further alias spellings on parse.
//! Parsing is case-normalized: input is lower-cased character by character
//! before it is compared against the recognized names.

use vstd::prelude::*;

verus! {

/// Names one supported AI-service backend.
///
/// Every backend offers completions; only some offer embeddings, as
/// [`embedding_support_spec`] records.
#[derive(Clone, Copy, PartialEq, Eq, Structural, Debug, Hash)]
pub enum Provider {
    Anthropic,
    Azure,
    Cohere,
    DeepSeek,
    Galadriel,
    Gemini,
    Groq,
    Hyperbolic,
    Moonshot,
    OpenAI,
    Ollama,
    Perplexity,
    Xai,
}

/// Error for text that names no supported backend.
#[derive(Debug)]
pub struct ParseError {
    /// The text that was not recognized, exactly as given.
    pub text: String,
}

/// ASCII lower-casing of one character; any other character is unchanged.
pub open spec fn to_lower_char(c: char) -> char {
    if 'A' <= c && c <= 'Z' {
        ((c as int) + 32) as char
    } else {
        c
    }
}

/// Character-wise ASCII lower-casing of a text.
pub open spec fn to_lower(s: Seq<char>) -> Seq<char> {
    s.map_values(|c: char| to_lower_char(c))
}

/// The canonical spelling of a provider: the one text it serializes to.
pub open spec fn canonical_name(p: Provider) -> Seq<char> {
    match p {
        Provider::Anthropic => "anthropic"@,
        Provider::Azure => "azure"@,
        Provider::Cohere => "cohere"@,
        Provider::DeepSeek => "deepseek"@,
        Provider::Galadriel => "galadriel"@,
        Provider::Gemini => "gemini"@,
        Provider::Groq => "groq"@,
        Provider::Hyperbolic => "hyperbolic"@,
        Provider::Moonshot => "moonshot"@,
        Provider::OpenAI => "openai"@,
        Provider::Ollama => "ollama"@,
        Provider::Perplexity => "perplexity"@,
        Provider::Xai => "xai"@,
    }
}

/// The provider a lower-cased text denotes: each canonical name is
/// recognized, and `openai-api` and `openai-compatible` are the two
/// documented aliases of the OpenAI backend.
pub open spec fn provider_of_name(t: Seq<char>) -> Option<Provider> {
    if t == "anthropic"@ {
        Some(Provider::Anthropic)
    } else if t == "azure"@ {
        Some(Provider::Azure)
    } else if t == "cohere"@ {
        Some(Provider::Cohere)
    } else if t == "deepseek"@ {
        Some(Provider::DeepSeek)
    } else if t == "galadriel"@ {
        Some(Provider::Galadriel)
    } else if t == "gemini"@ {
        Some(Provider::Gemini)
    } else if t == "groq"@ {
        Some(Provider::Groq)
    } else if t == "hyperbolic"@ {
        Some(Provider::Hyperbolic)
    } else if t == "moonshot"@ {
        Some(Provider::Moonshot)
    } else if t == "openai"@ || t == "openai-api"@ || t == "openai-compatible"@ {
        Some(Provider::OpenAI)
    } else if t == "ollama"@ {
        Some(Provider::Ollama)
    } else if t == "perplexity"@ {
        Some(Provider::Perplexity)
    } else if t == "xai"@ {
        Some(Provider::Xai)
    } else {
        None
    }
}

/// How a backend supports embeddings.
#[derive(Clone, Copy, PartialEq, Eq, Structural, Debug)]
pub enum EmbeddingSupport {
    /// Embedding models are available with no extra parameter.
    Available,
    /// Embedding models are available only when an input-type discriminator
    /// is supplied.
    NeedsInputType,
    /// The backend offers no embedding models.
    Unavailable,
}

/// The statically known embedding group of each provider.
pub open spec fn embedding_support_spec(p: Provider) -> EmbeddingSupport {
    match p {
        Provider::Azure => EmbeddingSupport::Available,
        Provider::Gemini => EmbeddingSupport::Available,
        Provider::OpenAI => EmbeddingSupport::Available,
        Provider::Ollama => EmbeddingSupport::Available,
        Provider::Xai => EmbeddingSupport::Available,
        Provider::Cohere => EmbeddingSupport::NeedsInputType,
        Provider::Anthropic => EmbeddingSupport::Unavailable,
        Provider::DeepSeek => EmbeddingSupport::Unavailable,
        Provider::Galadriel => EmbeddingSupport::Unavailable,
        Provider::Groq => EmbeddingSupport::Unavailable,
        Provider::Hyperbolic => EmbeddingSupport::Unavailable,
        Provider::Moonshot => EmbeddingSupport::Unavailable,
        Provider::Perplexity => EmbeddingSupport::Unavailable,
    }
}

/// Whether an embedding capability is handed out for `p` when an input-type
/// discriminator is (`has_input_type`) or is not supplied.
pub open spec fn embedding_allowed(p: Provider, has_input_type: bool) -> bool {
    match embedding_support_spec(p) {
        EmbeddingSupport::Available => true,
        EmbeddingSupport::NeedsInputType => has_input_type,
        EmbeddingSupport::Unavailable => false,
    }
}

/// ASCII lower-casing of one character.
fn lower_char(c: char) -> (r: char)
    ensures
        r == to_lower_char(c),
{
    match c {
        'A' => 'a',
        'B' => 'b',
        'C' => 'c',
        'D' => 'd',
        'E' => 'e',
        'F' => 'f',
        'G' => 'g',
        'H' => 'h',
        'I' => 'i',
        'J' => 'j',
        'K' => 'k',
        'L' => 'l',
        'M' => 'm',
        'N' => 'n',
        'O' => 'o',
        'P' => 'p',
        'Q' => 'q',
        'R' => 'r',
        'S' => 's',
        'T' => 't',
        'U' => 'u',
        'V' => 'v',
        'W' => 'w',
        'X' => 'x',
        'Y' => 'y',
        'Z' => 'z',
        _ => c,
    }
}

/// Whether the lower-cased `text` reads exactly as `name`.
fn matches_name(text: &str, name: &str) -> (r: bool)
    ensures
        r == (to_lower(text@) == name@),
{
    let n = text.unicode_len();
    if n != name.unicode_len() {
        proof {
            assert(to_lower(text@).len() == text@.len());
        }
        return false;
    }
    let mut i: usize = 0;
    while i < n
        invariant
            n == text@.len(),
            n == name@.len(),
            i <= n,
            forall|j: int| 0 <= j < i ==> to_lower(text@)[j] == name@[j],
        decreases n - i,
    {
        let c = lower_char(text.get_char(i));
        if c != name.get_char(i) {
            proof {
                assert(to_lower(text@)[i as int] != name@[i as int]);
            }
            return false;
        }
        i = i + 1;
    }
    proof {
        assert(to_lower(text@) =~= name@);
    }
    true
}

impl Provider {
    /// Parses a provider from text, lower-casing it first and accepting the
    /// canonical names and the documented aliases. Unrecognized text fails
    /// with a [`ParseError`] carrying the offending input.
    pub fn parse(text: &str) -> (r: Result<Provider, ParseError>)
        ensures
            match r {
                Ok(p) => provider_of_name(to_lower(text@)) == Some(p),
                Err(e) => provider_of_name(to_lower(text@)) is None && e.text@ == text@,
            },
    {
        if matches_name(text, "anthropic") {
            Ok(Provider::Anthropic)
        } else if matches_name(text, "azure") {
            Ok(Provider::Azure)
        } else if matches_name(text, "cohere") {
            Ok(Provider::Cohere)
        } else if matches_name(text, "deepseek") {
            Ok(Provider::DeepSeek)
        } else if matches_name(text, "galadriel") {
            Ok(Provider::Galadriel)
        } else if matches_name(text, "gemini") {
            Ok(Provider::Gemini)
        } else if matches_name(text, "groq") {
            Ok(Provider::Groq)
        } else if matches_name(text, "hyperbolic") {
            Ok(Provider::Hyperbolic)
        } else if matches_name(text, "moonshot") {
            Ok(Provider::Moonshot)
        } else if matches_name(text, "openai") || matches_name(text, "openai-api")
            || matches_name(text, "openai-compatible") {
            Ok(Provider::OpenAI)
        } else if matches_name(text, "ollama") {
            Ok(Provider::Ollama)
        } else if matches_name(text, "perplexity") {
            Ok(Provider::Perplexity)
        } else if matches_name(text, "xai") {
            Ok(Provider::Xai)
        } else {
            Err(ParseError { text: text.to_owned() })
        }
    }

    /// The canonical spelling of this provider, never an alias, so persisted
    /// identifiers stay stable.
    pub fn to_string(&self) -> (r: String)
        ensures
            r@ == canonical_name(*self),
    {
        let name: &str = match *self {
            Provider::Anthropic => "anthropic",
            Provider::Azure => "azure",
            Provider::Cohere => "cohere",
            Provider::DeepSeek => "deepseek",
            Provider::Galadriel => "galadriel",
            Provider::Gemini => "gemini",
            Provider::Groq => "groq",
            Provider::Hyperbolic => "hyperbolic",
            Provider::Moonshot => "moonshot",
            Provider::OpenAI => "openai",
            Provider::Ollama => "ollama",
            Provider::Perplexity => "perplexity",
            Provider::Xai => "xai",
        };
        name.to_owned()
    }

    /// The statically known embedding group of this provider.
    pub fn embedding_support(&self) -> (r: EmbeddingSupport)
        ensures
            r == embedding_support_spec(*self),
    {
        match *self {
            Provider::Azure => EmbeddingSupport::Available,
            Provider::Gemini => EmbeddingSupport::Available,
            Provider::OpenAI => EmbeddingSupport::Available,
            Provider::Ollama => EmbeddingSupport::Available,
            Provider::Xai => EmbeddingSupport::Available,
            Provider::Cohere => EmbeddingSupport::NeedsInputType,
            Provider::Anthropic => EmbeddingSupport::Unavailable,
            Provider::DeepSeek => EmbeddingSupport::Unavailable,
            Provider::Galadriel => EmbeddingSupport::Unavailable,
            Provider::Groq => EmbeddingSupport::Unavailable,
            Provider::Hyperbolic => EmbeddingSupport::Unavailable,
            Provider::Moonshot => EmbeddingSupport::Unavailable,
            Provider::Perplexity => EmbeddingSupport::Unavailable,
        }
    }
}

impl Default for Provider {
    /// The ecosystem-standard fallback backend.
    fn default() -> (r: Provider)
        ensures
            r == Provider::OpenAI,
    {
        Provider::OpenAI
    }
}

/// Law: serializing any provider and parsing the result yields the same
/// provider again, even through the parser's case normalization.
pub proof fn lemma_parse_canonical_name(p: Provider)
    ensures
        provider_of_name(to_lower(canonical_name(p))) == Some(p),
{
    // Pin every recognized name to its concrete characters, so that each
    // branch of the recognizer decides.
    reveal_strlit("anthropic");
    reveal_strlit("azure");
    reveal_strlit("cohere");
    reveal_strlit("deepseek");
    reveal_strlit("galadriel");
    reveal_strlit("gemini");
    reveal_strlit("groq");
    reveal_strlit("hyperbolic");
    reveal_strlit("moonshot");
    reveal_strlit("openai");
    reveal_strlit("openai-api");
    reveal_strlit("openai-compatible");
    reveal_strlit("ollama");
    reveal_strlit("perplexity");
    reveal_strlit("xai");
    assert("anthropic"@.len() == 9);
    assert("azure"@.len() == 5);
    assert("cohere"@.len() == 6);
    assert("deepseek"@.len() == 8);
    assert("galadriel"@.len() == 9);
    assert("gemini"@.len() == 6);
    assert("groq"@.len() == 4);
    assert("hyperbolic"@.len() == 10);
    assert("moonshot"@.len() == 8);
    assert("openai"@.len() == 6);
    assert("openai-api"@.len() == 10);
    assert("openai-compatible"@.len() == 17);
    assert("ollama"@.len() == 6);
    assert("perplexity"@.len() == 10);
    assert("xai"@.len() == 3);
    assert("anthropic"@[0] == 'a');
    assert("galadriel"@[0] == 'g');
    assert("cohere"@[0] == 'c');
    assert("gemini"@[0] == 'g');
    assert("openai"@[1] == 'p');
    assert("ollama"@[1] == 'l');
    assert("deepseek"@[0] == 'd');
    assert("moonshot"@[0] == 'm');
    assert("hyperbolic"@[0] == 'h');
    assert("openai-api"@[1] == 'p');
    assert("openai-api"@[0] == 'o');
    assert("perplexity"@[0] == 'p');
    assert(to_lower(canonical_name(p)) =~= canonical_name(p));
}

/// Law: the two documented aliases of the OpenAI backend, and its canonical
/// name, all parse to the OpenAI provider.
pub proof fn lemma_parse_openai_aliases()
    ensures
        provider_of_name(to_lower("openai"@)) == Some(Provider::OpenAI),
        provider_of_name(to_lower("openai-api"@)) == Some(Provider::OpenAI),
        provider_of_name(to_lower("openai-compatible"@)) == Some(Provider::OpenAI),
{
    // Pin every recognized name to its concrete characters, so that each
    // branch of the recognizer decides.
    reveal_strlit("anthropic");
    reveal_strlit("azure");
    reveal_strlit("cohere");
    reveal_strlit("deepseek");
    reveal_strlit("galadriel");
    reveal_strlit("gemini");
    reveal_strlit("groq");
    reveal_strlit("hyperbolic");
    reveal_strlit("moonshot");
    reveal_strlit("openai");
    reveal_strlit("openai-api");
    reveal_strlit("openai-compatible");
    reveal_strlit("ollama");
    reveal_strlit("perplexity");
    reveal_strlit("xai");
    assert("anthropic"@.len() == 9);
    assert("azure"@.len() == 5);
    assert("cohere"@.len() == 6);
    assert("deepseek"@.len() == 8);
    assert("galadriel"@.len() == 9);
    assert("gemini"@.len() == 6);
    assert("groq"@.len() == 4);
    assert("hyperbolic"@.len() == 10);
    assert("moonshot"@.len() == 8);
    assert("openai"@.len() == 6);
    assert("openai-api"@.len() == 10);
    assert("openai-compatible"@.len() == 17);
    assert("ollama"@.len() == 6);
    assert("perplexity"@.len() == 10);
    assert("xai"@.len() == 3);
    assert("anthropic"@[0] == 'a');
    assert("galadriel"@[0] == 'g');
    assert("cohere"@[0] == 'c');
    assert("gemini"@[0] == 'g');
    assert("openai"@[1] == 'p');
    assert("ollama"@[1] == 'l');
    assert("deepseek"@[0] == 'd');
    assert("moonshot"@[0] == 'm');
    assert("hyperbolic"@[0] == 'h');
    assert("openai-api"@[1] == 'p');
    assert("openai-api"@[0] == 'o');
    assert("perplexity"@[0] == 'p');
    assert(to_lower("openai"@) =~= "openai"@);
    assert(to_lower("openai-api"@) =~= "openai-api"@);
    assert(to_lower("openai-compatible"@) =~= "openai-compatible"@);
}

} // verus!




