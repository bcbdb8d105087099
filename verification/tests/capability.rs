use dyn_provider::Client;
use dyn_provider::Provider;

fn build(p: Provider) -> Client {
    p.client("test-api-key", Some("http://localhost:8080")).unwrap()
}

fn all_providers() -> Vec<Provider> {
    vec![
        Provider::Anthropic,
        Provider::Azure,
        Provider::Cohere,
        Provider::DeepSeek,
        Provider::Galadriel,
        Provider::Gemini,
        Provider::Groq,
        Provider::Hyperbolic,
        Provider::Moonshot,
        Provider::OpenAI,
        Provider::Ollama,
        Provider::Perplexity,
        Provider::Xai,
    ]
}

#[test]
fn completion_capability_exists_for_every_provider() {
    for p in all_providers() {
        let cap = build(p).completion_model("some-model");
        assert_eq!(cap.client.provider(), p);
        assert_eq!(cap.model, "some-model");
    }
}

#[test]
fn no_embedding_group_always_yields_none() {
    let unavailable = [
        Provider::Anthropic,
        Provider::DeepSeek,
        Provider::Galadriel,
        Provider::Groq,
        Provider::Hyperbolic,
        Provider::Moonshot,
        Provider::Perplexity,
    ];
    for p in unavailable {
        let c = build(p);
        assert!(c.embedding_model("m", None).is_none());
        assert!(c.embedding_model("m", Some("classification")).is_none());
        assert!(c.embedding_model_with_ndims("m", 256, None).is_none());
        assert!(c.embedding_model_with_ndims("m", 256, Some("classification")).is_none());
    }
}

#[test]
fn embedding_group_yields_a_capability() {
    let available = [
        Provider::Azure,
        Provider::Gemini,
        Provider::OpenAI,
        Provider::Ollama,
        Provider::Xai,
    ];
    for p in available {
        let c = build(p);
        let cap = c.embedding_model("embed-model", None).unwrap();
        assert_eq!(cap.client.provider(), p);
        assert_eq!(cap.model, "embed-model");
        assert_eq!(cap.input_type, None);
        assert_eq!(cap.ndims, None);
    }
}

#[test]
fn cohere_needs_an_input_type() {
    let c = build(Provider::Cohere);
    assert!(c.embedding_model("embed-english-v3.0", None).is_none());
    let cap = c.embedding_model("embed-english-v3.0", Some("search_document")).unwrap();
    assert_eq!(cap.client.provider(), Provider::Cohere);
    assert_eq!(cap.input_type.as_deref(), Some("search_document"));
    assert_eq!(cap.ndims, None);
}

#[test]
fn ndims_override_is_advertised() {
    let c = build(Provider::OpenAI);
    let cap = c.embedding_model_with_ndims("text-embedding-3-small", 512, None).unwrap();
    assert_eq!(cap.ndims, Some(512));
    assert_eq!(cap.model, "text-embedding-3-small");

    let c = build(Provider::Cohere);
    assert!(c.embedding_model_with_ndims("embed-english-v3.0", 512, None).is_none());
    let cap = c
        .embedding_model_with_ndims("embed-english-v3.0", 512, Some("search_query"))
        .unwrap();
    assert_eq!(cap.ndims, Some(512));
    assert_eq!(cap.input_type.as_deref(), Some("search_query"));
}

#[test]
fn capability_keeps_the_client_tag() {
    let c = build(Provider::Gemini);
    let completion = c.completion_model("gemini-model");
    assert_eq!(completion.client.provider(), Provider::Gemini);
    let embedding = c.embedding_model("embedding-model", None).unwrap();
    assert_eq!(embedding.client.provider(), Provider::Gemini);
}
