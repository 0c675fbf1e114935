//! Collection administration: configuration and request parameters.

use crate::auth::{ApiKeyAuth, AuthConfig};
use crate::text::owned;
use crate::types::{EmbeddingsModel, Language};
use crate::utils::{create_random_string, is_lower_hex};
use vstd::prelude::*;

verus! {

/// Configuration for OramaCoreManager
#[derive(Debug, Clone, PartialEq, Eq)]
pub struct OramaCoreManagerConfig {
    pub url: String,
    pub master_api_key: String,
}

/// Parameters for creating a collection
#[derive(Debug, Clone, PartialEq, Eq)]
pub struct CreateCollectionParams {
    pub id: String,
    pub description: Option<String>,
    pub write_api_key: Option<String>,
    pub read_api_key: Option<String>,
    pub language: Option<Language>,
    pub embeddings_model: Option<EmbeddingsModel>,
}

/// Response from creating a new collection
#[derive(Debug, Clone, PartialEq, Eq)]
pub struct NewCollectionResponse {
    pub id: String,
    pub description: Option<String>,
    pub write_api_key: String,
    pub readonly_api_key: String,
}

/// The length of a generated API key.
pub const GENERATED_KEY_LEN: usize = 32;

impl OramaCoreManagerConfig {
    /// The authentication of the manager: the master key, on the writer at
    /// the configured URL.
    pub fn auth_config(&self) -> (r: AuthConfig)
        ensures
            r matches AuthConfig::ApiKey(a) && {
                &&& a.api_key@ == self.master_api_key@
                &&& a.reader_url is None
                &&& a.writer_url.deep_view() == Some(self.url@)
            },
    {
        AuthConfig::ApiKey(
            ApiKeyAuth::new(self.master_api_key.as_str()).with_writer_url(self.url.as_str()),
        )
    }
}

/// A key that is the given one, or a generated one of 32 lowercase
/// hexadecimal digits.
pub open spec fn key_or_generated(given: Option<String>, key: Seq<char>) -> bool {
    match given {
        Some(k) => key == k@,
        None => key.len() == 32 && forall|i: int| 0 <= i < 32 ==> is_lower_hex(#[trigger] key[i]),
    }
}

impl CreateCollectionParams {
    /// Create a new CreateCollectionParams
    pub fn new(id: &str) -> (r: Self)
        ensures
            r.id@ == id@,
            r.description is None,
            r.write_api_key is None,
            r.read_api_key is None,
            r.language is None,
            r.embeddings_model is None,
    {
        CreateCollectionParams {
            id: owned(id),
            description: None,
            write_api_key: None,
            read_api_key: None,
            language: None,
            embeddings_model: None,
        }
    }

    /// Set the description
    pub fn with_description(self, description: &str) -> (r: Self)
        ensures
            r == (CreateCollectionParams { description: r.description, ..self }),
            r.description.deep_view() == Some(description@),
    {
        CreateCollectionParams { description: Some(owned(description)), ..self }
    }

    /// Set the write API key
    pub fn with_write_api_key(self, key: &str) -> (r: Self)
        ensures
            r == (CreateCollectionParams { write_api_key: r.write_api_key, ..self }),
            r.write_api_key.deep_view() == Some(key@),
    {
        CreateCollectionParams { write_api_key: Some(owned(key)), ..self }
    }

    /// Set the read API key
    pub fn with_read_api_key(self, key: &str) -> (r: Self)
        ensures
            r == (CreateCollectionParams { read_api_key: r.read_api_key, ..self }),
            r.read_api_key.deep_view() == Some(key@),
    {
        CreateCollectionParams { read_api_key: Some(owned(key)), ..self }
    }

    /// Set the language
    pub fn with_language(self, language: Language) -> (r: Self)
        ensures
            r == (CreateCollectionParams { language: Some(language), ..self }),
    {
        CreateCollectionParams { language: Some(language), ..self }
    }

    /// Set the embeddings model
    pub fn with_embeddings_model(self, model: EmbeddingsModel) -> (r: Self)
        ensures
            r == (CreateCollectionParams { embeddings_model: Some(model), ..self }),
    {
        CreateCollectionParams { embeddings_model: Some(model), ..self }
    }

    /// The parameters with both API keys present: a key that was not given
    /// is generated at random.
    pub fn with_generated_keys(self) -> (r: Self)
        ensures
            r == (CreateCollectionParams {
                write_api_key: r.write_api_key,
                read_api_key: r.read_api_key,
                ..self
            }),
            r.write_api_key matches Some(k) && key_or_generated(self.write_api_key, k@),
            r.read_api_key matches Some(k) && key_or_generated(self.read_api_key, k@),
    {
        let write_api_key = match self.write_api_key {
            Some(k) => k,
            None => create_random_string(GENERATED_KEY_LEN),
        };
        let read_api_key = match self.read_api_key {
            Some(k) => k,
            None => create_random_string(GENERATED_KEY_LEN),
        };
        CreateCollectionParams {
            write_api_key: Some(write_api_key),
            read_api_key: Some(read_api_key),
            ..self
        }
    }
}

} // verus!
