//! Authentication configuration, and the choice of bearer token and base URL
//! for a request target.

use crate::error::OramaError;
use crate::text::owned;
use vstd::prelude::*;

verus! {

/// Authentication configuration for API key authentication
#[derive(Debug, Clone, PartialEq, Eq)]
pub struct ApiKeyAuth {
    pub api_key: String,
    pub reader_url: Option<String>,
    pub writer_url: Option<String>,
}

/// Authentication configuration for JWT authentication
#[derive(Debug, Clone, PartialEq, Eq)]
pub struct JwtAuth {
    pub auth_jwt_url: String,
    pub collection_id: String,
    pub private_api_key: String,
    pub reader_url: Option<String>,
    pub writer_url: Option<String>,
}

/// Authentication configuration enum
#[derive(Debug, Clone, PartialEq, Eq)]
pub enum AuthConfig {
    ApiKey(ApiKeyAuth),
    Jwt(JwtAuth),
}

/// Authentication reference containing bearer token and base URL
#[derive(Debug, Clone, PartialEq, Eq)]
pub struct AuthRef {
    pub bearer: String,
    pub base_url: String,
}

/// Target for the request (reader or writer)
#[derive(Debug, Clone, Copy, PartialEq, Eq)]
pub enum Target {
    Reader,
    Writer,
}

/// What the JWT endpoint grants: a writer token and URL, and a reader key
/// and URL.
#[derive(Debug, Clone, PartialEq, Eq)]
pub struct JwtRequestResponse {
    pub jwt: String,
    pub writer_url: String,
    pub reader_api_key: String,
    pub reader_url: String,
    pub expires_in: u64,
}

impl ApiKeyAuth {
    /// Create a new API key authentication configuration
    pub fn new(api_key: &str) -> (r: Self)
        ensures
            r.api_key@ == api_key@,
            r.reader_url is None,
            r.writer_url is None,
    {
        ApiKeyAuth { api_key: owned(api_key), reader_url: None, writer_url: None }
    }

    /// Set the reader URL
    pub fn with_reader_url(self, url: &str) -> (r: Self)
        ensures
            r.api_key == self.api_key,
            r.reader_url.deep_view() == Some(url@),
            r.writer_url == self.writer_url,
    {
        ApiKeyAuth { reader_url: Some(owned(url)), ..self }
    }

    /// Set the writer URL
    pub fn with_writer_url(self, url: &str) -> (r: Self)
        ensures
            r.api_key == self.api_key,
            r.reader_url == self.reader_url,
            r.writer_url.deep_view() == Some(url@),
    {
        ApiKeyAuth { writer_url: Some(owned(url)), ..self }
    }

    /// The bearer token and base URL for `target`: the API key, and the URL
    /// configured for the target, which must be present.
    pub fn auth_ref(&self, target: Target) -> (r: Result<AuthRef, OramaError>)
        ensures
            r is Ok <==> match target {
                Target::Reader => self.reader_url is Some,
                Target::Writer => self.writer_url is Some,
            },
            r matches Ok(a) ==> a.bearer@ == self.api_key@ && Some(a.base_url@) == match target {
                Target::Reader => self.reader_url.deep_view(),
                Target::Writer => self.writer_url.deep_view(),
            },
            r matches Err(e) ==> e is Config,
    {
        let url = match target {
            Target::Writer => match &self.writer_url {
                Some(u) => u,
                None => {
                    return Err(
                        OramaError::config(
                            "Cannot perform a request to a writer without the writerURL. Use cluster.writerURL to configure it",
                        ),
                    );
                },
            },
            Target::Reader => match &self.reader_url {
                Some(u) => u,
                None => {
                    return Err(
                        OramaError::config(
                            "Cannot perform a request to a reader without the readerURL. Use cluster.readerURL to configure it",
                        ),
                    );
                },
            },
        };
        Ok(AuthRef { bearer: owned(self.api_key.as_str()), base_url: owned(url.as_str()) })
    }
}

impl JwtAuth {
    /// Create a new JWT authentication configuration
    pub fn new(auth_jwt_url: &str, collection_id: &str, private_api_key: &str) -> (r: Self)
        ensures
            r.auth_jwt_url@ == auth_jwt_url@,
            r.collection_id@ == collection_id@,
            r.private_api_key@ == private_api_key@,
            r.reader_url is None,
            r.writer_url is None,
    {
        JwtAuth {
            auth_jwt_url: owned(auth_jwt_url),
            collection_id: owned(collection_id),
            private_api_key: owned(private_api_key),
            reader_url: None,
            writer_url: None,
        }
    }

    /// Set the reader URL
    pub fn with_reader_url(self, url: &str) -> (r: Self)
        ensures
            r.auth_jwt_url == self.auth_jwt_url,
            r.collection_id == self.collection_id,
            r.private_api_key == self.private_api_key,
            r.reader_url.deep_view() == Some(url@),
            r.writer_url == self.writer_url,
    {
        JwtAuth { reader_url: Some(owned(url)), ..self }
    }

    /// Set the writer URL
    pub fn with_writer_url(self, url: &str) -> (r: Self)
        ensures
            r.auth_jwt_url == self.auth_jwt_url,
            r.collection_id == self.collection_id,
            r.private_api_key == self.private_api_key,
            r.reader_url == self.reader_url,
            r.writer_url.deep_view() == Some(url@),
    {
        JwtAuth { writer_url: Some(owned(url)), ..self }
    }

    /// The bearer token and base URL for `target` once `grant` has been
    /// obtained: the reader key for the reader and the JWT for the writer,
    /// with the configured URL when there is one and the granted URL
    /// otherwise.
    pub fn auth_ref(&self, grant: &JwtRequestResponse, target: Target) -> (r: AuthRef)
        ensures
            r.bearer@ == match target {
                Target::Reader => grant.reader_api_key@,
                Target::Writer => grant.jwt@,
            },
            r.base_url@ == match target {
                Target::Reader => match self.reader_url {
                    Some(u) => u@,
                    None => grant.reader_url@,
                },
                Target::Writer => match self.writer_url {
                    Some(u) => u@,
                    None => grant.writer_url@,
                },
            },
    {
        match target {
            Target::Reader => {
                let base_url = match &self.reader_url {
                    Some(u) => owned(u.as_str()),
                    None => owned(grant.reader_url.as_str()),
                };
                AuthRef { bearer: owned(grant.reader_api_key.as_str()), base_url }
            },
            Target::Writer => {
                let base_url = match &self.writer_url {
                    Some(u) => owned(u.as_str()),
                    None => owned(grant.writer_url.as_str()),
                };
                AuthRef { bearer: owned(grant.jwt.as_str()), base_url }
            },
        }
    }
}

} // verus!
