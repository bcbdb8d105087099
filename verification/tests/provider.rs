use dyn_provider::EmbeddingSupport;
use dyn_provider::Provider;

fn all_providers() -> Vec<Provider> {
    vec![
        Provider::Anthropic,
        Provider::Azure,
        Provider::Cohere,
        Provider::DeepSeek,
        Provider::Galadriel,
        Provider::Gemini,
        Provider::Groq,
        Provider::Hyperbolic,
        Provider::Moonshot,
        Provider::OpenAI,
        Provider::Ollama,
        Provider::Perplexity,
        Provider::Xai,
    ]
}

#[test]
fn round_trip_canonical_names() {
    for p in all_providers() {
        let text = p.to_string();
        assert_eq!(Provider::parse(&text).unwrap(), p);
    }
}

#[test]
fn canonical_names_are_fixed() {
    assert_eq!(Provider::Anthropic.to_string(), "anthropic");
    assert_eq!(Provider::Azure.to_string(), "azure");
    assert_eq!(Provider::Cohere.to_string(), "cohere");
    assert_eq!(Provider::DeepSeek.to_string(), "deepseek");
    assert_eq!(Provider::Galadriel.to_string(), "galadriel");
    assert_eq!(Provider::Gemini.to_string(), "gemini");
    assert_eq!(Provider::Groq.to_string(), "groq");
    assert_eq!(Provider::Hyperbolic.to_string(), "hyperbolic");
    assert_eq!(Provider::Moonshot.to_string(), "moonshot");
    assert_eq!(Provider::OpenAI.to_string(), "openai");
    assert_eq!(Provider::Ollama.to_string(), "ollama");
    assert_eq!(Provider::Perplexity.to_string(), "perplexity");
    assert_eq!(Provider::Xai.to_string(), "xai");
}

#[test]
fn openai_alias_spellings_parse() {
    assert_eq!(Provider::parse("openai").unwrap(), Provider::OpenAI);
    assert_eq!(Provider::parse("openai-api").unwrap(), Provider::OpenAI);
    assert_eq!(Provider::parse("openai-compatible").unwrap(), Provider::OpenAI);
}

#[test]
fn openai_compatible_parses_and_serializes_canonically() {
    assert_eq!(Provider::parse("openai-compatible").unwrap(), Provider::OpenAI);
    assert_eq!(Provider::OpenAI.to_string(), "openai");
}

#[test]
fn parse_is_case_normalized() {
    assert_eq!(Provider::parse("OpenAI").unwrap(), Provider::OpenAI);
    assert_eq!(Provider::parse("ANTHROPIC").unwrap(), Provider::Anthropic);
    assert_eq!(Provider::parse("Azure").unwrap(), Provider::Azure);
    assert_eq!(Provider::parse("dEEpSeEk").unwrap(), Provider::DeepSeek);
    assert_eq!(Provider::parse("OPENAI-COMPATIBLE").unwrap(), Provider::OpenAI);
}

#[test]
fn unrecognized_text_fails_with_offending_input() {
    let err = Provider::parse("no-such-backend").unwrap_err();
    assert_eq!(err.text, "no-such-backend");
    let err = Provider::parse("").unwrap_err();
    assert_eq!(err.text, "");
    assert!(Provider::parse("openai ").is_err());
    assert!(Provider::parse("open ai").is_err());
}

#[test]
fn default_provider_is_openai() {
    assert_eq!(Provider::default(), Provider::OpenAI);
}

#[test]
fn embedding_groups_partition_the_providers() {
    let available = [
        Provider::Azure,
        Provider::Gemini,
        Provider::OpenAI,
        Provider::Ollama,
        Provider::Xai,
    ];
    let unavailable = [
        Provider::Anthropic,
        Provider::DeepSeek,
        Provider::Galadriel,
        Provider::Groq,
        Provider::Hyperbolic,
        Provider::Moonshot,
        Provider::Perplexity,
    ];
    for p in available {
        assert_eq!(p.embedding_support(), EmbeddingSupport::Available);
    }
    for p in unavailable {
        assert_eq!(p.embedding_support(), EmbeddingSupport::Unavailable);
    }
    assert_eq!(Provider::Cohere.embedding_support(), EmbeddingSupport::NeedsInputType);
}
