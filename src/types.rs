//! Core data types shared by the client and the AI session.

use crate::text::owned;
use vstd::prelude::*;

verus! {

/// Supported languages for search operations
#[derive(Debug, Clone, Copy, PartialEq, Eq)]
pub enum Language {
    Arabic,
    Bulgarian,
    Chinese,
    Danish,
    Dutch,
    German,
    Greek,
    English,
    Estonian,
    Spanish,
    Finnish,
    French,
    Irish,
    Hindi,
    Hungarian,
    Armenian,
    Indonesian,
    Italian,
    Japanese,
    Korean,
    Lithuanian,
    Nepali,
    Norwegian,
    Portuguese,
    Romanian,
    Russian,
    Sanskrit,
    Slovenian,
    Serbian,
    Swedish,
    Tamil,
    Turkish,
    Ukrainian,
}

/// Supported embeddings models
#[derive(Debug, Clone, Copy, PartialEq, Eq)]
pub enum EmbeddingsModel {
    E5MultilangualSmall,
    E5MultilangualBase,
    E5MultilangualLarge,
    BgeSmall,
    BgeBase,
    BgeLarge,
}

/// Embeddings configuration
#[derive(Debug, Clone, PartialEq, Eq)]
pub struct EmbeddingsConfig {
    pub model: Option<EmbeddingsModel>,
    pub document_fields: Option<Vec<String>>,
}

/// Hook types
#[derive(Debug, Clone, Copy, PartialEq, Eq)]
pub enum Hook {
    BeforeAnswer,
    BeforeRetrieval,
}

/// Search modes
#[derive(Debug, Clone, Copy, PartialEq, Eq)]
pub enum SearchMode {
    Fulltext,
    Vector,
    Hybrid,
    Auto,
}

/// Elapsed time information
#[derive(Debug, Clone, PartialEq, Eq)]
pub struct Elapsed {
    pub raw: u64,
    pub formatted: String,
}

/// Trigger definition
#[derive(Debug, Clone, PartialEq, Eq)]
pub struct Trigger {
    pub id: String,
    pub name: String,
    pub description: String,
    pub response: String,
    pub segment_id: Option<String>,
}

/// Segment definition
#[derive(Debug, Clone, PartialEq, Eq)]
pub struct Segment {
    pub id: String,
    pub name: String,
    pub description: String,
    pub goal: Option<String>,
}

/// Request body for inserting a segment
#[derive(Debug, Clone, PartialEq, Eq)]
pub struct InsertSegmentBody {
    pub id: Option<String>,
    pub name: String,
    pub description: String,
    pub goal: Option<String>,
}

/// Request body for inserting a trigger
#[derive(Debug, Clone, PartialEq, Eq)]
pub struct InsertTriggerBody {
    pub id: Option<String>,
    pub name: String,
    pub description: String,
    pub response: String,
    pub segment_id: String,
}

/// Response for segment insertion
#[derive(Debug, Clone, PartialEq, Eq)]
pub struct InsertSegmentResponse {
    pub success: bool,
    pub id: String,
    pub segment: Segment,
}

/// Response for trigger insertion
#[derive(Debug, Clone, PartialEq, Eq)]
pub struct InsertTriggerResponse {
    pub success: bool,
    pub id: String,
    pub trigger: Trigger,
}

/// Response for trigger update
#[derive(Debug, Clone, PartialEq, Eq)]
pub struct UpdateTriggerResponse {
    pub success: bool,
    pub trigger: Trigger,
}

/// System prompt definition
#[derive(Debug, Clone, PartialEq, Eq)]
pub struct SystemPrompt {
    pub id: String,
    pub name: String,
    pub prompt: String,
    pub usage_mode: SystemPromptUsageMode,
}

/// System prompt usage modes
#[derive(Debug, Clone, Copy, PartialEq, Eq)]
pub enum SystemPromptUsageMode {
    Automatic,
    Manual,
}

/// Request body for inserting a system prompt
#[derive(Debug, Clone, PartialEq, Eq)]
pub struct InsertSystemPromptBody {
    pub id: Option<String>,
    pub name: String,
    pub prompt: String,
    pub usage_mode: SystemPromptUsageMode,
}

/// System prompt validation response
#[derive(Debug, Clone, PartialEq, Eq)]
pub struct SystemPromptValidationResponse {
    pub security: SecurityValidation,
    pub technical: TechnicalValidation,
    pub overall_assessment: OverallAssessment,
}

/// Security validation result
#[derive(Debug, Clone, PartialEq, Eq)]
pub struct SecurityValidation {
    pub valid: bool,
    pub reason: String,
    pub violations: Vec<String>,
}

/// Technical validation result
#[derive(Debug, Clone, PartialEq, Eq)]
pub struct TechnicalValidation {
    pub valid: bool,
    pub reason: String,
    pub instruction_count: u32,
}

/// Overall assessment result
#[derive(Debug, Clone, PartialEq, Eq)]
pub struct OverallAssessment {
    pub valid: bool,
    pub summary: String,
}

/// Tool definition
#[derive(Debug, Clone, PartialEq, Eq)]
pub struct Tool {
    pub id: String,
    pub name: String,
    pub description: String,
    pub parameters: String,
    pub system_prompt: Option<String>,
}

/// Function call definition
#[derive(Debug, Clone, PartialEq, Eq)]
pub struct FunctionCall {
    pub name: String,
    pub arguments: String,
}

/// Execute tools response
#[derive(Debug, Clone, PartialEq, Eq)]
pub struct ExecuteToolsResponse {
    pub results: Option<Vec<FunctionCall>>,
}

/// NLP search stream status
#[derive(Debug, Clone, PartialEq, Eq)]
pub enum NlpSearchStreamStatus {
    Init,
    OptimizingQuery,
    QueryOptimized,
    SelectingProps,
    SelectedProps,
    CombiningQueriesAndProperties,
    CombinedQueriesAndProperties,
    GeneratingQueries,
    GeneratedQueries,
    Searching,
    SearchResults,
    Other(String),
}

/// LLM configuration
#[derive(Debug, Clone, PartialEq, Eq)]
pub struct LlmConfig {
    pub provider: LlmProvider,
    pub model: String,
}

/// LLM providers
#[derive(Debug, Clone, Copy, PartialEq, Eq)]
pub enum LlmProvider {
    OpenAI,
    Fireworks,
    Together,
    Google,
    Claude,
}

/// Message role
#[derive(Debug, Clone, Copy, PartialEq, Eq)]
pub enum Role {
    System,
    Assistant,
    User,
}

/// Message for conversations
#[derive(Debug, Clone, PartialEq, Eq)]
pub struct Message {
    pub role: Role,
    pub content: String,
}

/// Related questions configuration
#[derive(Debug, Clone, Copy, PartialEq, Eq)]
pub struct RelatedQuestionsConfig {
    pub enabled: Option<bool>,
    pub size: Option<u32>,
    pub format: Option<RelatedQuestionsFormat>,
}

/// Related questions format
#[derive(Debug, Clone, Copy, PartialEq, Eq)]
pub enum RelatedQuestionsFormat {
    Question,
    Query,
}

/// Default visitor id for server-side operations
pub const DEFAULT_SERVER_USER_ID: &'static str = "server-user-default";

/// The mathematical value of an [`LlmConfig`].
pub struct LlmConfigView {
    pub provider: LlmProvider,
    pub model: Seq<char>,
}

impl View for LlmConfig {
    type V = LlmConfigView;

    open spec fn view(&self) -> LlmConfigView {
        LlmConfigView { provider: self.provider, model: self.model@ }
    }
}

impl DeepView for LlmConfig {
    type V = LlmConfigView;

    open spec fn deep_view(&self) -> LlmConfigView {
        self@
    }
}

impl LlmConfig {
    /// A copy of this configuration.
    pub fn duplicate(&self) -> (r: Self)
        ensures
            r@ == self@,
    {
        LlmConfig { provider: self.provider, model: owned(self.model.as_str()) }
    }
}

/// The mathematical value of a [`Message`].
pub struct MessageView {
    pub role: Role,
    pub content: Seq<char>,
}

impl View for Message {
    type V = MessageView;

    open spec fn view(&self) -> MessageView {
        MessageView { role: self.role, content: self.content@ }
    }
}

impl DeepView for Message {
    type V = MessageView;

    open spec fn deep_view(&self) -> MessageView {
        self@
    }
}

impl Message {
    /// A copy of this message.
    pub fn duplicate(&self) -> (r: Self)
        ensures
            r@ == self@,
    {
        Message { role: self.role, content: owned(self.content.as_str()) }
    }
}

/// A copy of an optional configuration.
pub fn duplicate_llm_config(c: &Option<LlmConfig>) -> (r: Option<LlmConfig>)
    ensures
        r.deep_view() == c.deep_view(),
{
    match c {
        Some(c) => Some(c.duplicate()),
        None => None,
    }
}

/// A copy of a sequence of messages.
pub fn duplicate_messages(v: &Vec<Message>) -> (r: Vec<Message>)
    ensures
        r.deep_view() == v.deep_view(),
{
    let mut r: Vec<Message> = Vec::new();
    let mut i: usize = 0;
    while i < v.len()
        invariant
            i <= v.len(),
            r.len() == i,
            r.deep_view() == v.deep_view().take(i as int),
        decreases v.len() - i,
    {
        let ghost before = r@;
        let item = v[i].duplicate();
        r.push(item);
        proof {
            assert(r@ == before.push(item));
            assert forall|j: int| 0 <= j < i + 1 implies #[trigger] r.deep_view()[j]
                == v.deep_view()[j] by {
                if j < i {
                    assert(r@[j] == before[j]);
                    assert(v.deep_view().take(i as int)[j] == v.deep_view()[j]);
                }
            }
        }
        i += 1;
        assert(r.deep_view() =~= v.deep_view().take(i as int));
    }
    assert(v.deep_view().take(v.len() as int) =~= v.deep_view());
    r
}

/// A copy of an optional string.
pub fn duplicate_text(s: &Option<String>) -> (r: Option<String>)
    ensures
        r.deep_view() == s.deep_view(),
{
    match s {
        Some(s) => Some(owned(s.as_str())),
        None => None,
    }
}

/// A copy of a sequence of strings.
pub fn duplicate_strings(v: &Vec<String>) -> (r: Vec<String>)
    ensures
        r.deep_view() == v.deep_view(),
{
    let mut r: Vec<String> = Vec::new();
    let mut i: usize = 0;
    while i < v.len()
        invariant
            i <= v.len(),
            r.len() == i,
            r.deep_view() == v.deep_view().take(i as int),
        decreases v.len() - i,
    {
        let ghost before = r@;
        let item = owned(v[i].as_str());
        r.push(item);
        proof {
            assert(r@ == before.push(item));
            assert forall|j: int| 0 <= j < i + 1 implies #[trigger] r.deep_view()[j]
                == v.deep_view()[j] by {
                if j < i {
                    assert(r@[j] == before[j]);
                    assert(v.deep_view().take(i as int)[j] == v.deep_view()[j]);
                }
            }
        }
        i += 1;
        assert(r.deep_view() =~= v.deep_view().take(i as int));
    }
    assert(v.deep_view().take(v.len() as int) =~= v.deep_view());
    r
}

} // verus!
