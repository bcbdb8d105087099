use dyn_provider::ConstructionError;
use dyn_provider::Provider;

fn all_providers() -> Vec<Provider> {
    vec![
        Provider::Anthropic,
        Provider::Azure,
        Provider::Cohere,
        Provider::DeepSeek,
        Provider::Galadriel,
        Provider::Gemini,
        Provider::Groq,
        Provider::Hyperbolic,
        Provider::Moonshot,
        Provider::OpenAI,
        Provider::Ollama,
        Provider::Perplexity,
        Provider::Xai,
    ]
}

#[test]
fn azure_without_url_fails() {
    let r = Provider::Azure.client("test-api-key", None);
    assert!(matches!(r, Err(ConstructionError::MissingRequiredUrl)));
}

#[test]
fn azure_with_url_succeeds() {
    let c = Provider::Azure
        .client("test-api-key", Some("https://resource.openai.azure.example"))
        .unwrap();
    assert_eq!(c.provider(), Provider::Azure);
}

#[test]
fn every_provider_builds_with_a_base_url() {
    for p in all_providers() {
        let c = p.client("test-api-key", Some("http://localhost:8080")).unwrap();
        assert_eq!(c.provider(), p);
    }
}

#[test]
fn every_provider_but_azure_builds_without_a_base_url() {
    for p in all_providers() {
        let r = p.client("test-api-key", None);
        if p == Provider::Azure {
            assert!(r.is_err());
        } else {
            assert_eq!(r.unwrap().provider(), p);
        }
    }
}

#[test]
fn ollama_builds_without_a_credential() {
    let c = Provider::Ollama.client("", None).unwrap();
    assert_eq!(c.provider(), Provider::Ollama);
    let c = Provider::Ollama.client("", Some("http://localhost:11434")).unwrap();
    assert_eq!(c.provider(), Provider::Ollama);
}

#[test]
fn duplicate_keeps_the_tag() {
    for p in all_providers() {
        let c = p.client("test-api-key", Some("http://localhost:8080")).unwrap();
        assert_eq!(c.duplicate().provider(), p);
    }
}
