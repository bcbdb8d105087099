//! Capability handles minted from a client.
//!
//! A capability handle erases which backend stands behind it: it binds one
//! backend client and one model name at construction and is immutable
//! afterwards. Every backend yields a completion capability; embedding
//! capabilities follow the static partition recorded by
//! [`embedding_support_spec`], and one backend hands a capability out only
//! when an input-type discriminator is supplied.

use vstd::prelude::*;
use crate::client::Client;
use crate::provider::EmbeddingSupport;
use crate::provider::Provider;
use crate::provider::embedding_allowed;
use crate::provider::embedding_support_spec;

verus! {

/// A handle exposing only the completion operation, bound at construction
/// to one backend client and one model name.
pub struct CompletionCapability {
    /// The backend client the handle is bound to.
    pub client: Client,
    /// The model name the handle is bound to.
    pub model: String,
}

/// A handle exposing only the embedding operations, bound at construction
/// to one backend client, one model name, an optional input-type
/// discriminator and an optional output-dimensionality override. When the
/// override is absent the model's default dimensionality applies.
pub struct EmbeddingCapability {
    /// The backend client the handle is bound to.
    pub client: Client,
    /// The model name the handle is bound to.
    pub model: String,
    /// The input-type discriminator, meaningful to the one backend that
    /// requires it.
    pub input_type: Option<String>,
    /// The advertised output dimensionality, overriding the model default.
    pub ndims: Option<usize>,
}

/// The text carried by an optional borrowed string.
pub open spec fn text_of(o: Option<&str>) -> Option<Seq<char>> {
    match o {
        Some(s) => Some(s@),
        None => None,
    }
}

/// The text carried by an optional owned string.
pub open spec fn text_of_owned(o: Option<String>) -> Option<Seq<char>> {
    match o {
        Some(s) => Some(s@),
        None => None,
    }
}

/// Turns an optional borrowed string into an owned one with the same text.
fn own_text(o: Option<&str>) -> (r: Option<String>)
    ensures
        text_of_owned(r) == text_of(o),
{
    match o {
        Some(s) => Some(s.to_owned()),
        None => None,
    }
}

impl Client {
    /// Returns a completion capability bound to this client and `model`.
    ///
    /// Total: every supported backend offers completions, so no client is
    /// ever refused one.
    pub fn completion_model(&self, model: &str) -> (r: CompletionCapability)
        ensures
            r.client == *self,
            r.model@ == model@,
    {
        CompletionCapability { client: self.duplicate(), model: model.to_owned() }
    }

    /// Returns an embedding capability bound to this client and `model`, or
    /// `None` when this backend offers none.
    ///
    /// `None` is a legitimate "no capability" result, not a fault: the
    /// backends partition statically into those that embed, those that do
    /// not, and the one that embeds only when `input_type` is supplied.
    /// A handed-out capability carries the model's default dimensionality.
    pub fn embedding_model(&self, model: &str, input_type: Option<&str>) -> (r: Option<
        EmbeddingCapability,
    >)
        ensures
            r is Some <==> embedding_allowed(self.provider_spec(), input_type is Some),
            r matches Some(c) ==> c.client == *self && c.model@ == model@ && text_of_owned(
                c.input_type,
            ) == text_of(input_type) && c.ndims is None,
    {
        match self.provider().embedding_support() {
            EmbeddingSupport::Available => Some(
                EmbeddingCapability {
                    client: self.duplicate(),
                    model: model.to_owned(),
                    input_type: own_text(input_type),
                    ndims: None,
                },
            ),
            EmbeddingSupport::NeedsInputType => match input_type {
                Some(_) => Some(
                    EmbeddingCapability {
                        client: self.duplicate(),
                        model: model.to_owned(),
                        input_type: own_text(input_type),
                        ndims: None,
                    },
                ),
                None => None,
            },
            EmbeddingSupport::Unavailable => None,
        }
    }

    /// Like [`Client::embedding_model`], but the returned capability
    /// advertises `ndims` as its output dimensionality instead of the
    /// model's default.
    pub fn embedding_model_with_ndims(
        &self,
        model: &str,
        ndims: usize,
        input_type: Option<&str>,
    ) -> (r: Option<EmbeddingCapability>)
        ensures
            r is Some <==> embedding_allowed(self.provider_spec(), input_type is Some),
            r matches Some(c) ==> c.client == *self && c.model@ == model@ && text_of_owned(
                c.input_type,
            ) == text_of(input_type) && c.ndims == Some(ndims),
    {
        match self.provider().embedding_support() {
            EmbeddingSupport::Available => Some(
                EmbeddingCapability {
                    client: self.duplicate(),
                    model: model.to_owned(),
                    input_type: own_text(input_type),
                    ndims: Some(ndims),
                },
            ),
            EmbeddingSupport::NeedsInputType => match input_type {
                Some(_) => Some(
                    EmbeddingCapability {
                        client: self.duplicate(),
                        model: model.to_owned(),
                        input_type: own_text(input_type),
                        ndims: Some(ndims),
                    },
                ),
                None => None,
            },
            EmbeddingSupport::Unavailable => None,
        }
    }
}

/// Law: a provider without embedding support yields no embedding
/// capability, whether or not an input-type discriminator is supplied.
pub proof fn lemma_embedding_unavailable(p: Provider, has_input_type: bool)
    requires
        embedding_support_spec(p) == EmbeddingSupport::Unavailable,
    ensures
        !embedding_allowed(p, has_input_type),
{
}

/// Law: the one provider that requires an input-type discriminator yields
/// an embedding capability exactly when one is supplied.
pub proof fn lemma_embedding_needs_input_type(p: Provider)
    requires
        embedding_support_spec(p) == EmbeddingSupport::NeedsInputType,
    ensures
        embedding_allowed(p, true),
        !embedding_allowed(p, false),
{
}

} // verus!

