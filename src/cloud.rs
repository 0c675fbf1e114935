//! Project-level configuration for the hosted service.

use crate::collection::{ClusterConfig, CollectionManagerConfig};
use crate::text::owned;
use vstd::prelude::*;

verus! {

/// Configuration for the hosted project client
#[derive(Debug, Clone, PartialEq, Eq)]
pub struct ProjectManagerConfig {
    pub project_id: String,
    pub api_key: String,
    pub cluster: Option<ClusterConfig>,
    pub auth_jwt_url: Option<String>,
}

impl ProjectManagerConfig {
    /// Create a new ProjectManagerConfig
    pub fn new(project_id: &str, api_key: &str) -> (r: Self)
        ensures
            r.project_id@ == project_id@,
            r.api_key@ == api_key@,
            r.cluster is None,
            r.auth_jwt_url is None,
    {
        ProjectManagerConfig {
            project_id: owned(project_id),
            api_key: owned(api_key),
            cluster: None,
            auth_jwt_url: None,
        }
    }

    /// Set cluster configuration
    pub fn with_cluster(self, cluster: ClusterConfig) -> (r: Self)
        ensures
            r == (ProjectManagerConfig { cluster: Some(cluster), ..self }),
    {
        ProjectManagerConfig { cluster: Some(cluster), ..self }
    }

    /// Set auth JWT URL
    pub fn with_auth_jwt_url(self, url: &str) -> (r: Self)
        ensures
            r == (ProjectManagerConfig { auth_jwt_url: r.auth_jwt_url, ..self }),
            r.auth_jwt_url.deep_view() == Some(url@),
    {
        ProjectManagerConfig { auth_jwt_url: Some(owned(url)), ..self }
    }

    /// The collection configuration of the project: the project id serves as
    /// the collection id, with the same key, cluster and JWT URL.
    pub fn collection_config(self) -> (r: CollectionManagerConfig)
        ensures
            r == (CollectionManagerConfig {
                collection_id: self.project_id,
                api_key: self.api_key,
                cluster: self.cluster,
                auth_jwt_url: self.auth_jwt_url,
            }),
    {
        CollectionManagerConfig {
            collection_id: self.project_id,
            api_key: self.api_key,
            cluster: self.cluster,
            auth_jwt_url: self.auth_jwt_url,
        }
    }
}

} // verus!
