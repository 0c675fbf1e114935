//! Collection manager configuration, and how it selects the authentication
//! flow and the endpoints.

use crate::auth::{ApiKeyAuth, AuthConfig, JwtAuth};
use crate::text::owned;
use crate::types::{Hook, LlmConfig, Message};
use vstd::prelude::*;
use vstd::string::StrSliceExecFns;

verus! {

/// The reader endpoint used when the cluster configuration names none.
pub const DEFAULT_READER_URL: &'static str = "https://collections.orama.com";

/// The JWT endpoint used when the configuration names none.
pub const DEFAULT_JWT_URL: &'static str = "https://app.orama.com/api/user/jwt";

/// Configuration for CollectionManager
#[derive(Debug, Clone, PartialEq, Eq)]
pub struct CollectionManagerConfig {
    pub collection_id: String,
    pub api_key: String,
    pub cluster: Option<ClusterConfig>,
    pub auth_jwt_url: Option<String>,
}

/// Cluster configuration
#[derive(Debug, Clone, PartialEq, Eq)]
pub struct ClusterConfig {
    pub writer_url: Option<String>,
    pub read_url: Option<String>,
}

/// NLP search parameters
#[derive(Debug, Clone, PartialEq, Eq)]
pub struct NlpSearchParams {
    pub query: String,
    pub llm_config: Option<LlmConfig>,
    pub user_id: Option<String>,
}

/// Hook configuration for insertion
#[derive(Debug, Clone, PartialEq, Eq)]
pub struct AddHookConfig {
    pub name: Hook,
    pub code: String,
}

/// Response from hook insertion
#[derive(Debug, Clone, PartialEq, Eq)]
pub struct NewHookResponse {
    pub hook_id: String,
    pub code: String,
}

/// Execute tools request body
#[derive(Debug, Clone, PartialEq, Eq)]
pub struct ExecuteToolsBody {
    pub tool_ids: Option<Vec<String>>,
    pub messages: Vec<Message>,
    pub llm_config: Option<LlmConfig>,
}

/// A private API key starts with `p_` and goes through the JWT flow.
pub open spec fn is_private_key(key: Seq<char>) -> bool {
    key.len() >= 2 && key[0] == 'p' && key[1] == '_'
}

/// Whether `key` is a private API key.
pub fn is_private_api_key(key: &str) -> (r: bool)
    ensures
        r == is_private_key(key@),
{
    key.unicode_len() >= 2 && key.get_char(0) == 'p' && key.get_char(1) == '_'
}

/// The configured reader URL, or the default one.
pub open spec fn reader_url_of(c: CollectionManagerConfig) -> Seq<char> {
    match c.cluster {
        Some(cl) => match cl.read_url {
            Some(u) => u@,
            None => DEFAULT_READER_URL@,
        },
        None => DEFAULT_READER_URL@,
    }
}

/// The configured writer URL, or an empty one.
pub open spec fn writer_url_of(c: CollectionManagerConfig) -> Seq<char> {
    match c.cluster {
        Some(cl) => match cl.writer_url {
            Some(u) => u@,
            None => Seq::empty(),
        },
        None => Seq::empty(),
    }
}

impl CollectionManagerConfig {
    /// Create a new CollectionManagerConfig
    pub fn new(collection_id: &str, api_key: &str) -> (r: Self)
        ensures
            r.collection_id@ == collection_id@,
            r.api_key@ == api_key@,
            r.cluster is None,
            r.auth_jwt_url is None,
    {
        CollectionManagerConfig {
            collection_id: owned(collection_id),
            api_key: owned(api_key),
            cluster: None,
            auth_jwt_url: None,
        }
    }

    /// Set cluster configuration
    pub fn with_cluster(self, cluster: ClusterConfig) -> (r: Self)
        ensures
            r.collection_id == self.collection_id,
            r.api_key == self.api_key,
            r.cluster == Some(cluster),
            r.auth_jwt_url == self.auth_jwt_url,
    {
        CollectionManagerConfig { cluster: Some(cluster), ..self }
    }

    /// Set auth JWT URL
    pub fn with_auth_jwt_url(self, url: &str) -> (r: Self)
        ensures
            r.collection_id == self.collection_id,
            r.api_key == self.api_key,
            r.cluster == self.cluster,
            r.auth_jwt_url.deep_view() == Some(url@),
    {
        CollectionManagerConfig { auth_jwt_url: Some(owned(url)), ..self }
    }

    /// The authentication this configuration asks for: the JWT flow for a
    /// private key, plain API key authentication otherwise; the reader URL
    /// defaults to the public collections endpoint and the writer URL to
    /// empty.
    pub fn auth_config(&self) -> (r: AuthConfig)
        ensures
            is_private_key(self.api_key@) ==> (r matches AuthConfig::Jwt(j) && {
                &&& j.auth_jwt_url@ == match self.auth_jwt_url {
                    Some(u) => u@,
                    None => DEFAULT_JWT_URL@,
                }
                &&& j.collection_id@ == self.collection_id@
                &&& j.private_api_key@ == self.api_key@
                &&& j.reader_url.deep_view() == Some(reader_url_of(*self))
                &&& j.writer_url.deep_view() == Some(writer_url_of(*self))
            }),
            !is_private_key(self.api_key@) ==> (r matches AuthConfig::ApiKey(a) && {
                &&& a.api_key@ == self.api_key@
                &&& a.reader_url.deep_view() == Some(reader_url_of(*self))
                &&& a.writer_url.deep_view() == Some(writer_url_of(*self))
            }),
    {
        let reader: &str = match &self.cluster {
            Some(c) => match &c.read_url {
                Some(u) => u.as_str(),
                None => DEFAULT_READER_URL,
            },
            None => DEFAULT_READER_URL,
        };
        let writer: &str = match &self.cluster {
            Some(c) => match &c.writer_url {
                Some(u) => u.as_str(),
                None => "",
            },
            None => "",
        };
        proof {
            reveal_strlit("");
        }
        if is_private_api_key(self.api_key.as_str()) {
            let jwt_url: &str = match &self.auth_jwt_url {
                Some(u) => u.as_str(),
                None => DEFAULT_JWT_URL,
            };
            AuthConfig::Jwt(
                JwtAuth::new(
                    jwt_url,
                    self.collection_id.as_str(),
                    self.api_key.as_str(),
                ).with_reader_url(reader).with_writer_url(writer),
            )
        } else {
            AuthConfig::ApiKey(
                ApiKeyAuth::new(self.api_key.as_str()).with_reader_url(reader).with_writer_url(
                    writer,
                ),
            )
        }
    }
}

impl ClusterConfig {
    /// Create a new ClusterConfig
    pub fn new() -> (r: Self)
        ensures
            r.writer_url is None,
            r.read_url is None,
    {
        ClusterConfig { writer_url: None, read_url: None }
    }

    /// Set writer URL
    pub fn with_writer_url(self, url: &str) -> (r: Self)
        ensures
            r.writer_url.deep_view() == Some(url@),
            r.read_url == self.read_url,
    {
        ClusterConfig { writer_url: Some(owned(url)), ..self }
    }

    /// Set read URL
    pub fn with_read_url(self, url: &str) -> (r: Self)
        ensures
            r.writer_url == self.writer_url,
            r.read_url.deep_view() == Some(url@),
    {
        ClusterConfig { read_url: Some(owned(url)), ..self }
    }
}

impl Default for ClusterConfig {
    fn default() -> (r: Self)
        ensures
            r.writer_url is None,
            r.read_url is None,
    {
        ClusterConfig::new()
    }
}

} // verus!
