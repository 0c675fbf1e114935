use oramacore_client::auth::{ApiKeyAuth, AuthConfig, JwtAuth, JwtRequestResponse, Target};
use oramacore_client::cloud::ProjectManagerConfig;
use oramacore_client::collection::{
    ClusterConfig, CollectionManagerConfig, NlpSearchParams, DEFAULT_JWT_URL, DEFAULT_READER_URL,
};
use oramacore_client::error::OramaError;
use oramacore_client::manager::{CreateCollectionParams, OramaCoreManagerConfig};
use oramacore_client::stream_manager::{AnswerConfig, CreateAiSessionConfig, Interaction};
use oramacore_client::types::{EmbeddingsModel, Language, LlmConfig, LlmProvider, Message, Role};

#[test]
fn test_collection_manager_config_builder() {
    let config = CollectionManagerConfig::new("test-collection", "test-key")
        .with_cluster(
            ClusterConfig::new()
                .with_read_url("https://reader.example.com")
                .with_writer_url("https://writer.example.com"),
        )
        .with_auth_jwt_url("https://auth.example.com");

    assert_eq!(config.collection_id, "test-collection");
    assert_eq!(config.api_key, "test-key");
    assert!(config.cluster.is_some());
    assert_eq!(
        config.auth_jwt_url,
        Some("https://auth.example.com".to_string())
    );
}

#[test]
fn test_nlp_search_params() {
    let params = NlpSearchParams {
        query: "test query".to_string(),
        llm_config: Some(LlmConfig {
            provider: LlmProvider::OpenAI,
            model: "gpt-4".to_string(),
        }),
        user_id: Some("user-123".to_string()),
    };

    assert_eq!(params.query, "test query");
    assert!(params.llm_config.is_some());
    assert_eq!(params.user_id, Some("user-123".to_string()));
}

#[test]
fn manager_test_create_collection_params_builder() {
    let params = CreateCollectionParams::new("test-collection")
        .with_description("Test collection")
        .with_language(Language::English)
        .with_embeddings_model(EmbeddingsModel::BgeBase);

    assert_eq!(params.id, "test-collection");
    assert_eq!(params.description, Some("Test collection".to_string()));
    assert!(matches!(params.language, Some(Language::English)));
    assert!(matches!(
        params.embeddings_model,
        Some(EmbeddingsModel::BgeBase)
    ));
}

#[test]
fn integration_tests_test_create_collection_params_builder() {
    let params = CreateCollectionParams::new("test-collection")
        .with_description("Test collection for unit tests")
        .with_language(Language::English)
        .with_embeddings_model(EmbeddingsModel::BgeBase)
        .with_write_api_key("write-key")
        .with_read_api_key("read-key");

    assert_eq!(params.id, "test-collection");
    assert_eq!(
        params.description,
        Some("Test collection for unit tests".to_string())
    );
    assert!(matches!(params.language, Some(Language::English)));
    assert!(matches!(
        params.embeddings_model,
        Some(EmbeddingsModel::BgeBase)
    ));
    assert_eq!(params.write_api_key, Some("write-key".to_string()));
    assert_eq!(params.read_api_key, Some("read-key".to_string()));
}

#[test]
fn test_cluster_config_builder() {
    let cluster_config = ClusterConfig::new()
        .with_read_url("https://reader.example.com")
        .with_writer_url("https://writer.example.com");

    assert_eq!(
        cluster_config.read_url,
        Some("https://reader.example.com".to_string())
    );
    assert_eq!(
        cluster_config.writer_url,
        Some("https://writer.example.com".to_string())
    );
}

#[test]
fn test_collection_config_with_cluster() {
    let collection_id = "test-collection".to_string();
    let api_key = "test-api-key".to_string();
    let cluster = ClusterConfig::new()
        .with_read_url("https://reader.test.com")
        .with_writer_url("https://writer.test.com");

    let config = CollectionManagerConfig::new(&collection_id, &api_key)
        .with_cluster(cluster)
        .with_auth_jwt_url("https://auth.test.com");

    assert_eq!(config.collection_id, collection_id);
    assert_eq!(config.api_key, api_key);
    assert!(config.cluster.is_some());
    assert_eq!(
        config.auth_jwt_url,
        Some("https://auth.test.com".to_string())
    );
}

#[test]
fn test_core_manager_config() {
    let master_key = "test-master-key".to_string();
    let config = OramaCoreManagerConfig {
        url: "https://api.test.com".to_string(),
        master_api_key: master_key.clone(),
    };

    assert_eq!(config.url, "https://api.test.com");
    assert_eq!(config.master_api_key, master_key);
}

#[test]
fn test_project_manager_config() {
    let config = ProjectManagerConfig::new("project-123", "api-key-456")
        .with_auth_jwt_url("https://jwt.example.com");

    assert_eq!(config.project_id, "project-123");
    assert_eq!(config.api_key, "api-key-456");
    assert_eq!(
        config.auth_jwt_url,
        Some("https://jwt.example.com".to_string())
    );
}

#[test]
fn test_answer_config_builder() {
    let config = AnswerConfig::new("Test query")
        .with_visitor_id("user-123")
        .with_session_id("session-456")
        .with_max_documents(10)
        .with_min_similarity(800_000);

    assert_eq!(config.query, "Test query");
    assert_eq!(config.visitor_id, Some("user-123".to_string()));
    assert_eq!(config.session_id, Some("session-456".to_string()));
    assert_eq!(config.max_documents, Some(10));
    assert_eq!(config.min_similarity, Some(800_000));
}

#[test]
fn test_create_ai_session_config_builder() {
    let llm_config = LlmConfig {
        provider: LlmProvider::OpenAI,
        model: "gpt-4".to_string(),
    };

    let messages = vec![Message {
        role: Role::System,
        content: "You are a helpful assistant".to_string(),
    }];

    let config = CreateAiSessionConfig::new()
        .with_llm_config(llm_config.clone())
        .with_initial_messages(messages.clone());

    assert!(config.llm_config.is_some());
    assert_eq!(config.initial_messages.as_ref().unwrap().len(), 1);
}

#[test]
fn test_interaction_creation() {
    let interaction = Interaction::new("test-id".to_string(), "test query".to_string());

    assert_eq!(interaction.id, "test-id");
    assert_eq!(interaction.query, "test query");
    assert!(interaction.loading);
    assert!(!interaction.error);
    assert!(!interaction.aborted);
    assert_eq!(interaction.current_step, Some("starting".to_string()));
}

#[test]
fn regular_key_selects_api_key_auth_with_default_reader() {
    let config = CollectionManagerConfig::new("col", "plain-key");
    match config.auth_config() {
        AuthConfig::ApiKey(a) => {
            assert_eq!(a.api_key, "plain-key");
            assert_eq!(a.reader_url, Some(DEFAULT_READER_URL.to_string()));
            assert_eq!(a.writer_url, Some(String::new()));
        }
        AuthConfig::Jwt(_) => panic!("expected API key authentication"),
    }
}

#[test]
fn private_key_selects_jwt_auth() {
    let config = CollectionManagerConfig::new("col", "p_secret").with_cluster(
        ClusterConfig::new()
            .with_read_url("https://r.example.com")
            .with_writer_url("https://w.example.com"),
    );
    match config.auth_config() {
        AuthConfig::Jwt(j) => {
            assert_eq!(j.auth_jwt_url, DEFAULT_JWT_URL);
            assert_eq!(j.collection_id, "col");
            assert_eq!(j.private_api_key, "p_secret");
            assert_eq!(j.reader_url, Some("https://r.example.com".to_string()));
            assert_eq!(j.writer_url, Some("https://w.example.com".to_string()));
        }
        AuthConfig::ApiKey(_) => panic!("expected JWT authentication"),
    }
}

#[test]
fn key_starting_with_p_alone_is_not_private() {
    let config = CollectionManagerConfig::new("col", "p");
    assert!(matches!(config.auth_config(), AuthConfig::ApiKey(_)));
}

#[test]
fn api_key_auth_ref_needs_the_target_url() {
    let auth = ApiKeyAuth::new("key").with_reader_url("https://reader");
    let r = auth.auth_ref(Target::Reader).unwrap();
    assert_eq!(r.bearer, "key");
    assert_eq!(r.base_url, "https://reader");
    assert!(matches!(auth.auth_ref(Target::Writer), Err(OramaError::Config { .. })));
}

#[test]
fn jwt_auth_ref_prefers_configured_urls() {
    let grant = JwtRequestResponse {
        jwt: "jwt-token".to_string(),
        writer_url: "https://granted-writer".to_string(),
        reader_api_key: "reader-key".to_string(),
        reader_url: "https://granted-reader".to_string(),
        expires_in: 60,
    };
    let auth = JwtAuth::new("https://jwt", "col", "p_key").with_reader_url("https://mine");
    let reader = auth.auth_ref(&grant, Target::Reader);
    assert_eq!(reader.bearer, "reader-key");
    assert_eq!(reader.base_url, "https://mine");
    let writer = auth.auth_ref(&grant, Target::Writer);
    assert_eq!(writer.bearer, "jwt-token");
    assert_eq!(writer.base_url, "https://granted-writer");
}

#[test]
fn core_manager_auth_uses_master_key_on_writer() {
    let config = OramaCoreManagerConfig {
        url: "https://api.test.com".to_string(),
        master_api_key: "master".to_string(),
    };
    match config.auth_config() {
        AuthConfig::ApiKey(a) => {
            assert_eq!(a.api_key, "master");
            assert_eq!(a.reader_url, None);
            assert_eq!(a.writer_url, Some("https://api.test.com".to_string()));
        }
        AuthConfig::Jwt(_) => panic!("expected API key authentication"),
    }
}

#[test]
fn project_config_becomes_collection_config() {
    let c = ProjectManagerConfig::new("project-1", "key-1")
        .with_auth_jwt_url("https://jwt")
        .collection_config();
    assert_eq!(c.collection_id, "project-1");
    assert_eq!(c.api_key, "key-1");
    assert_eq!(c.auth_jwt_url, Some("https://jwt".to_string()));
    assert!(c.cluster.is_none());
}

#[test]
fn missing_collection_keys_are_generated() {
    let p = CreateCollectionParams::new("c")
        .with_write_api_key("mine")
        .with_generated_keys();
    assert_eq!(p.write_api_key, Some("mine".to_string()));
    let read = p.read_api_key.unwrap();
    assert_eq!(read.len(), 32);
    assert!(read.chars().all(|c| c.is_ascii_hexdigit() && !c.is_ascii_uppercase()));
}
