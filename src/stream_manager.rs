//! The AI session: conversation state, the stream chunk decoder, and the
//! rules for enriching, replaying and clearing requests.
//!
//! The session is a state machine. The transport (outside this library)
//! starts a turn, performs the request, and hands each event of the response
//! back to the session, which updates its state and tells the caller what the
//! event meant.

use crate::error::OramaError;
use crate::json::{find_text, parse_ai_response, member_text, recovered, JsonDoc, MemberView};
use crate::text::{concat, concat3, decimal, decimal_string, owned};
use crate::types::{
    duplicate_llm_config, duplicate_messages, duplicate_strings, duplicate_text, LlmConfig,
    LlmConfigView, Message, MessageView, RelatedQuestionsConfig, Role, DEFAULT_SERVER_USER_ID,
};
use crate::utils::{generate_uuid, is_hyphenated_uuid};
use vstd::prelude::*;

verus! {

/// Streaming chunk types
#[derive(Debug, Clone, PartialEq, Eq)]
pub enum StreamChunk {
    /// Connection opened successfully
    ConnectionOpened,
    /// Content chunk from the AI response
    Content(String),
    /// Status update from the processing pipeline
    StatusUpdate(String),
    /// Raw data that couldn't be parsed
    RawData(String),
    /// Stream completed successfully
    Done,
    /// Connection retry attempt
    Retry { attempt: u32, delay_ms: u64 },
}

/// One event of a server-sent event stream, as the transport reports it.
#[derive(Debug, Clone, PartialEq, Eq)]
pub enum SseEvent {
    /// The connection was opened
    Open,
    /// A message event with its data payload
    Message(String),
    /// The transport failed, with its description
    Error(String),
}

/// The data payload that ends a stream.
pub const DONE_SENTINEL: &'static str = "[DONE]";

/// Configuration for streaming resilience
#[derive(Debug, Clone, Copy, PartialEq, Eq)]
pub struct StreamConfig {
    /// Maximum number of retry attempts
    pub max_retries: u32,
    /// Initial retry delay in milliseconds
    pub initial_retry_delay: u64,
    /// Maximum retry delay in milliseconds (for exponential backoff)
    pub max_retry_delay: u64,
    /// Connection timeout in seconds
    pub connection_timeout: u64,
    /// Stream idle timeout in seconds
    pub stream_timeout: u64,
}

/// The configuration that a session starts with.
pub open spec fn default_stream_config() -> StreamConfig {
    StreamConfig {
        max_retries: 3,
        initial_retry_delay: 1000,
        max_retry_delay: 30000,
        connection_timeout: 30,
        stream_timeout: 300,
    }
}

impl Default for StreamConfig {
    fn default() -> (r: Self)
        ensures
            r == default_stream_config(),
    {
        StreamConfig {
            max_retries: 3,
            initial_retry_delay: 1000,
            max_retry_delay: 30000,
            connection_timeout: 30,
            stream_timeout: 300,
        }
    }
}

/// The delay before retry number `attempt` (counting from zero): the initial
/// delay, doubled for each earlier attempt, and never above the maximum.
pub open spec fn backoff_delay(initial: u64, max: u64, attempt: nat) -> nat
    decreases attempt,
{
    if attempt == 0 {
        if initial <= max {
            initial as nat
        } else {
            max as nat
        }
    } else {
        let prev = backoff_delay(initial, max, (attempt - 1) as nat);
        if 2 * prev <= max {
            2 * prev
        } else {
            max as nat
        }
    }
}

impl StreamConfig {
    /// The delay in milliseconds before retry number `attempt` (counting from
    /// zero), or `None` once `max_retries` attempts have been made.
    pub fn retry_delay_ms(&self, attempt: u32) -> (r: Option<u64>)
        ensures
            attempt >= self.max_retries ==> r is None,
            attempt < self.max_retries ==> (r matches Some(d) && d as nat == backoff_delay(
                self.initial_retry_delay,
                self.max_retry_delay,
                attempt as nat,
            )),
    {
        if attempt >= self.max_retries {
            return None;
        }
        let max = self.max_retry_delay;
        let mut delay: u64 = if self.initial_retry_delay <= max {
            self.initial_retry_delay
        } else {
            max
        };
        let mut k: u32 = 0;
        while k < attempt
            invariant
                k <= attempt,
                delay <= max,
                delay as nat == backoff_delay(self.initial_retry_delay, max, k as nat),
            decreases attempt - k,
        {
            delay = if delay <= max / 2 {
                2 * delay
            } else {
                max
            };
            k += 1;
        }
        Some(delay)
    }
}

/// Configuration for creating an AI session
#[derive(Debug, Clone, PartialEq, Eq)]
pub struct CreateAiSessionConfig {
    pub llm_config: Option<LlmConfig>,
    pub initial_messages: Option<Vec<Message>>,
}

impl CreateAiSessionConfig {
    /// Create a new CreateAiSessionConfig
    pub fn new() -> (r: Self)
        ensures
            r.llm_config is None,
            r.initial_messages is None,
    {
        CreateAiSessionConfig { llm_config: None, initial_messages: None }
    }

    /// Set LLM configuration
    pub fn with_llm_config(self, config: LlmConfig) -> (r: Self)
        ensures
            r.llm_config == Some(config),
            r.initial_messages == self.initial_messages,
    {
        CreateAiSessionConfig { llm_config: Some(config), ..self }
    }

    /// Set initial messages
    pub fn with_initial_messages(self, messages: Vec<Message>) -> (r: Self)
        ensures
            r.llm_config == self.llm_config,
            r.initial_messages == Some(messages),
    {
        CreateAiSessionConfig { initial_messages: Some(messages), ..self }
    }
}

impl Default for CreateAiSessionConfig {
    fn default() -> (r: Self)
        ensures
            r.llm_config is None,
            r.initial_messages is None,
    {
        CreateAiSessionConfig::new()
    }
}

/// Answer configuration for AI requests.
///
/// `min_similarity` is a similarity threshold in millionths (a threshold of
/// 0.8 is 800000).
#[derive(Debug, Clone, PartialEq, Eq)]
pub struct AnswerConfig {
    pub query: String,
    pub interaction_id: Option<String>,
    pub visitor_id: Option<String>,
    pub session_id: Option<String>,
    pub messages: Option<Vec<Message>>,
    pub related: Option<RelatedQuestionsConfig>,
    pub datasource_ids: Option<Vec<String>>,
    pub min_similarity: Option<u32>,
    pub max_documents: Option<u32>,
    pub ragat_notation: Option<String>,
    pub llm_config: Option<LlmConfig>,
}

/// The mathematical value of an [`AnswerConfig`].
pub struct AnswerConfigView {
    pub query: Seq<char>,
    pub interaction_id: Option<Seq<char>>,
    pub visitor_id: Option<Seq<char>>,
    pub session_id: Option<Seq<char>>,
    pub messages: Option<Seq<MessageView>>,
    pub related: Option<RelatedQuestionsConfig>,
    pub datasource_ids: Option<Seq<Seq<char>>>,
    pub min_similarity: Option<u32>,
    pub max_documents: Option<u32>,
    pub ragat_notation: Option<Seq<char>>,
    pub llm_config: Option<LlmConfigView>,
}

impl View for AnswerConfig {
    type V = AnswerConfigView;

    open spec fn view(&self) -> AnswerConfigView {
        AnswerConfigView {
            query: self.query@,
            interaction_id: self.interaction_id.deep_view(),
            visitor_id: self.visitor_id.deep_view(),
            session_id: self.session_id.deep_view(),
            messages: self.messages.deep_view(),
            related: self.related,
            datasource_ids: self.datasource_ids.deep_view(),
            min_similarity: self.min_similarity,
            max_documents: self.max_documents,
            ragat_notation: self.ragat_notation.deep_view(),
            llm_config: self.llm_config.deep_view(),
        }
    }
}

impl AnswerConfig {
    /// Create a new AnswerConfig
    pub fn new(query: &str) -> (r: Self)
        ensures
            r@ == (AnswerConfigView {
                query: query@,
                interaction_id: None,
                visitor_id: None,
                session_id: None,
                messages: None,
                related: None,
                datasource_ids: None,
                min_similarity: None,
                max_documents: None,
                ragat_notation: None,
                llm_config: None,
            }),
    {
        AnswerConfig {
            query: owned(query),
            interaction_id: None,
            visitor_id: None,
            session_id: None,
            messages: None,
            related: None,
            datasource_ids: None,
            min_similarity: None,
            max_documents: None,
            ragat_notation: None,
            llm_config: None,
        }
    }

    /// Set interaction ID
    pub fn with_interaction_id(self, id: &str) -> (r: Self)
        ensures
            r@ == (AnswerConfigView { interaction_id: Some(id@), ..self@ }),
    {
        AnswerConfig { interaction_id: Some(owned(id)), ..self }
    }

    /// Set visitor ID
    pub fn with_visitor_id(self, id: &str) -> (r: Self)
        ensures
            r@ == (AnswerConfigView { visitor_id: Some(id@), ..self@ }),
    {
        AnswerConfig { visitor_id: Some(owned(id)), ..self }
    }

    /// Set session ID
    pub fn with_session_id(self, id: &str) -> (r: Self)
        ensures
            r@ == (AnswerConfigView { session_id: Some(id@), ..self@ }),
    {
        AnswerConfig { session_id: Some(owned(id)), ..self }
    }

    /// Set messages
    pub fn with_messages(self, messages: Vec<Message>) -> (r: Self)
        ensures
            r@ == (AnswerConfigView { messages: Some(messages.deep_view()), ..self@ }),
    {
        AnswerConfig { messages: Some(messages), ..self }
    }

    /// Set related questions config
    pub fn with_related(self, related: RelatedQuestionsConfig) -> (r: Self)
        ensures
            r@ == (AnswerConfigView { related: Some(related), ..self@ }),
    {
        AnswerConfig { related: Some(related), ..self }
    }

    /// Set datasource IDs
    pub fn with_datasource_ids(self, ids: Vec<String>) -> (r: Self)
        ensures
            r@ == (AnswerConfigView { datasource_ids: Some(ids.deep_view()), ..self@ }),
    {
        AnswerConfig { datasource_ids: Some(ids), ..self }
    }

    /// Set minimum similarity, in millionths
    pub fn with_min_similarity(self, similarity: u32) -> (r: Self)
        ensures
            r@ == (AnswerConfigView { min_similarity: Some(similarity), ..self@ }),
    {
        AnswerConfig { min_similarity: Some(similarity), ..self }
    }

    /// Set maximum documents
    pub fn with_max_documents(self, max_docs: u32) -> (r: Self)
        ensures
            r@ == (AnswerConfigView { max_documents: Some(max_docs), ..self@ }),
    {
        AnswerConfig { max_documents: Some(max_docs), ..self }
    }

    /// Set RAGAT notation
    pub fn with_ragat_notation(self, notation: &str) -> (r: Self)
        ensures
            r@ == (AnswerConfigView { ragat_notation: Some(notation@), ..self@ }),
    {
        AnswerConfig { ragat_notation: Some(owned(notation)), ..self }
    }

    /// Set LLM configuration
    pub fn with_llm_config(self, config: LlmConfig) -> (r: Self)
        ensures
            r@ == (AnswerConfigView { llm_config: Some(config@), ..self@ }),
    {
        AnswerConfig { llm_config: Some(config), ..self }
    }

    /// A copy of this configuration.
    pub fn duplicate(&self) -> (r: Self)
        ensures
            r@ == self@,
    {
        AnswerConfig {
            query: owned(self.query.as_str()),
            interaction_id: duplicate_text(&self.interaction_id),
            visitor_id: duplicate_text(&self.visitor_id),
            session_id: duplicate_text(&self.session_id),
            messages: match &self.messages {
                Some(m) => Some(duplicate_messages(m)),
                None => None,
            },
            related: self.related,
            datasource_ids: match &self.datasource_ids {
                Some(d) => Some(duplicate_strings(d)),
                None => None,
            },
            min_similarity: self.min_similarity,
            max_documents: self.max_documents,
            ragat_notation: duplicate_text(&self.ragat_notation),
            llm_config: duplicate_llm_config(&self.llm_config),
        }
    }
}

/// Interaction state for conversations.
///
/// `sources`, `optimized_query` and `advanced_autoquery` hold JSON text.
#[derive(Debug, Clone, PartialEq, Eq)]
pub struct Interaction {
    pub id: String,
    pub query: String,
    pub response: String,
    pub sources: Option<String>,
    pub loading: bool,
    pub error: bool,
    pub error_message: Option<String>,
    pub aborted: bool,
    pub related: Option<String>,
    pub current_step: Option<String>,
    pub current_step_verbose: Option<String>,
    pub selected_llm: Option<LlmConfig>,
    pub optimized_query: Option<String>,
    pub advanced_autoquery: Option<String>,
}

/// The mathematical value of an [`Interaction`].
pub struct InteractionView {
    pub id: Seq<char>,
    pub query: Seq<char>,
    pub response: Seq<char>,
    pub sources: Option<Seq<char>>,
    pub loading: bool,
    pub error: bool,
    pub error_message: Option<Seq<char>>,
    pub aborted: bool,
    pub related: Option<Seq<char>>,
    pub current_step: Option<Seq<char>>,
    pub current_step_verbose: Option<Seq<char>>,
    pub selected_llm: Option<LlmConfigView>,
    pub optimized_query: Option<Seq<char>>,
    pub advanced_autoquery: Option<Seq<char>>,
}

impl View for Interaction {
    type V = InteractionView;

    open spec fn view(&self) -> InteractionView {
        InteractionView {
            id: self.id@,
            query: self.query@,
            response: self.response@,
            sources: self.sources.deep_view(),
            loading: self.loading,
            error: self.error,
            error_message: self.error_message.deep_view(),
            aborted: self.aborted,
            related: self.related.deep_view(),
            current_step: self.current_step.deep_view(),
            current_step_verbose: self.current_step_verbose.deep_view(),
            selected_llm: self.selected_llm.deep_view(),
            optimized_query: self.optimized_query.deep_view(),
            advanced_autoquery: self.advanced_autoquery.deep_view(),
        }
    }
}

impl DeepView for Interaction {
    type V = InteractionView;

    open spec fn deep_view(&self) -> InteractionView {
        self@
    }
}

/// The step label of an interaction that has just started.
pub open spec fn step_starting() -> Seq<char> {
    "starting"@
}

/// The step label of an interaction that has finished.
pub open spec fn step_completed() -> Seq<char> {
    "completed"@
}

/// A new interaction for `query`, loading and at the starting step.
pub open spec fn fresh_interaction(id: Seq<char>, query: Seq<char>) -> InteractionView {
    InteractionView {
        id,
        query,
        response: Seq::empty(),
        sources: None,
        loading: true,
        error: false,
        error_message: None,
        aborted: false,
        related: None,
        current_step: Some(step_starting()),
        current_step_verbose: None,
        selected_llm: None,
        optimized_query: None,
        advanced_autoquery: None,
    }
}

impl Interaction {
    /// Create a new interaction
    pub fn new(id: String, query: String) -> (r: Self)
        ensures
            r@ == fresh_interaction(id@, query@),
    {
        Interaction {
            id,
            query,
            response: String::new(),
            sources: None,
            loading: true,
            error: false,
            error_message: None,
            aborted: false,
            related: None,
            current_step: Some(owned("starting")),
            current_step_verbose: None,
            selected_llm: None,
            optimized_query: None,
            advanced_autoquery: None,
        }
    }

    /// A copy of this interaction.
    pub fn duplicate(&self) -> (r: Self)
        ensures
            r@ == self@,
    {
        Interaction {
            id: owned(self.id.as_str()),
            query: owned(self.query.as_str()),
            response: owned(self.response.as_str()),
            sources: duplicate_text(&self.sources),
            loading: self.loading,
            error: self.error,
            error_message: duplicate_text(&self.error_message),
            aborted: self.aborted,
            related: duplicate_text(&self.related),
            current_step: duplicate_text(&self.current_step),
            current_step_verbose: duplicate_text(&self.current_step_verbose),
            selected_llm: duplicate_llm_config(&self.selected_llm),
            optimized_query: duplicate_text(&self.optimized_query),
            advanced_autoquery: duplicate_text(&self.advanced_autoquery),
        }
    }
}

/// The mathematical value of a session.
pub struct SessionView {
    pub collection_id: Seq<char>,
    pub session_id: Seq<char>,
    pub llm_config: Option<LlmConfigView>,
    pub messages: Seq<MessageView>,
    pub state: Seq<InteractionView>,
    pub last_params: Option<AnswerConfigView>,
    pub stream_config: StreamConfig,
    pub generation: u64,
}

/// AI session stream manager: the state of one conversation.
///
/// Each turn adds a user message, an assistant message that accumulates the
/// answer, and one interaction record; messages given when the session was
/// created stay in front of them. Clearing the session starts a new
/// generation: events of a turn from an earlier generation change nothing.
#[derive(Debug)]
pub struct OramaCoreStream {
    collection_id: String,
    session_id: String,
    llm_config: Option<LlmConfig>,
    messages: Vec<Message>,
    state: Vec<Interaction>,
    last_interaction_params: Option<AnswerConfig>,
    stream_config: StreamConfig,
    generation: u64,
}

impl View for OramaCoreStream {
    type V = SessionView;

    closed spec fn view(&self) -> SessionView {
        SessionView {
            collection_id: self.collection_id@,
            session_id: self.session_id@,
            llm_config: self.llm_config.deep_view(),
            messages: self.messages.deep_view(),
            state: self.state.deep_view(),
            last_params: match self.last_interaction_params {
                Some(p) => Some(p@),
                None => None,
            },
            stream_config: self.stream_config,
            generation: self.generation,
        }
    }
}

/// Messages in front of the turns: those the session was created with.
pub open spec fn seed_len(v: SessionView) -> int {
    v.messages.len() - 2 * v.state.len()
}

/// Turn `i` is the user message with the interaction's query followed by the
/// assistant message with the interaction's response.
pub open spec fn turn_matches(v: SessionView, i: int) -> bool {
    let u = seed_len(v) + 2 * i;
    &&& v.messages[u].role == Role::User
    &&& v.messages[u].content == v.state[i].query
    &&& v.messages[u + 1].role == Role::Assistant
    &&& v.messages[u + 1].content == v.state[i].response
}

impl SessionView {
    /// The session invariant: after the seed messages, the messages come in
    /// user/assistant pairs, one pair per interaction, and a session with a
    /// turn has the parameters of its last request.
    pub open spec fn wf(self) -> bool {
        &&& self.messages.len() >= 2 * self.state.len()
        &&& forall|i: int| 0 <= i < self.state.len() ==> #[trigger] turn_matches(self, i)
        &&& (self.state.len() > 0 ==> self.last_params is Some)
    }
}

/// The request as it is sent: a missing visitor id becomes the default, a
/// missing interaction id becomes `fresh_id`, a missing session id becomes
/// the session's own, and a missing model configuration the session's.
pub open spec fn enriched(v: SessionView, c: AnswerConfigView, fresh_id: Seq<char>) -> AnswerConfigView {
    AnswerConfigView {
        visitor_id: if c.visitor_id is Some {
            c.visitor_id
        } else {
            Some(DEFAULT_SERVER_USER_ID@)
        },
        interaction_id: if c.interaction_id is Some {
            c.interaction_id
        } else {
            Some(fresh_id)
        },
        session_id: if c.session_id is Some {
            c.session_id
        } else {
            Some(v.session_id)
        },
        llm_config: if c.llm_config is Some {
            c.llm_config
        } else {
            v.llm_config
        },
        ..c
    }
}

/// The session after starting a turn for the enriched request `e`.
pub open spec fn begun(v: SessionView, e: AnswerConfigView) -> SessionView {
    SessionView {
        messages: v.messages.push(MessageView { role: Role::User, content: e.query }).push(
            MessageView { role: Role::Assistant, content: Seq::empty() },
        ),
        state: v.state.push(
            fresh_interaction(
                match e.interaction_id {
                    Some(id) => id,
                    None => Seq::empty(),
                },
                e.query,
            ),
        ),
        last_params: Some(e),
        ..v
    }
}

/// The session with its last interaction replaced by `f`, if it has one.
pub open spec fn with_last(v: SessionView, f: InteractionView) -> SessionView {
    if v.state.len() == 0 {
        v
    } else {
        SessionView { state: v.state.update(v.state.len() - 1, f), ..v }
    }
}

/// The last interaction of a session that has one.
pub open spec fn last_of(v: SessionView) -> InteractionView {
    v.state[v.state.len() - 1]
}

/// The session after a content delta `c`: the text is appended to the last
/// assistant message and to the last interaction's response, whose step and
/// verbose step take the values the event gives.
pub open spec fn with_delta(
    v: SessionView,
    c: Seq<char>,
    step: Option<Seq<char>>,
    verbose: Option<Seq<char>>,
) -> SessionView {
    if v.state.len() == 0 {
        v
    } else {
        let i = last_of(v);
        let m = v.messages[v.messages.len() - 1];
        SessionView {
            messages: v.messages.update(
                v.messages.len() - 1,
                MessageView { content: m.content + c, ..m },
            ),
            state: v.state.update(
                v.state.len() - 1,
                InteractionView {
                    response: i.response + c,
                    current_step: if step is Some {
                        step
                    } else {
                        i.current_step
                    },
                    current_step_verbose: if verbose is Some {
                        verbose
                    } else {
                        i.current_step_verbose
                    },
                    ..i
                },
            ),
            ..v
        }
    }
}

/// The session after a status update to `step`.
pub open spec fn with_step(v: SessionView, step: Seq<char>) -> SessionView {
    with_last(v, InteractionView { current_step: Some(step), ..last_of(v) })
}

/// The session with its last interaction marked as failed with `message`.
pub open spec fn with_error(v: SessionView, message: Seq<char>) -> SessionView {
    with_last(
        v,
        InteractionView { error: true, error_message: Some(message), loading: false, ..last_of(v) },
    )
}

/// The session with its last interaction finished.
pub open spec fn completed(v: SessionView) -> SessionView {
    with_last(
        v,
        InteractionView { loading: false, current_step: Some(step_completed()), ..last_of(v) },
    )
}

/// The session with its last interaction abandoned, if it was still loading.
pub open spec fn aborted(v: SessionView) -> SessionView {
    if v.state.len() > 0 && last_of(v).loading {
        with_last(v, InteractionView { aborted: true, loading: false, ..last_of(v) })
    } else {
        v
    }
}

/// The session after a complete (non-streamed) answer: the text becomes the
/// response and the assistant message, and the interaction is finished.
pub open spec fn answered(
    v: SessionView,
    answer: Seq<char>,
    sources: Option<Seq<char>>,
    related: Option<Seq<char>>,
) -> SessionView {
    if v.state.len() == 0 {
        v
    } else {
        let i = last_of(v);
        let m = v.messages[v.messages.len() - 1];
        SessionView {
            messages: v.messages.update(
                v.messages.len() - 1,
                MessageView { content: answer, ..m },
            ),
            state: v.state.update(
                v.state.len() - 1,
                InteractionView {
                    response: answer,
                    loading: false,
                    current_step: Some(step_completed()),
                    sources: if sources is Some {
                        sources
                    } else {
                        i.sources
                    },
                    related: if related is Some {
                        related
                    } else {
                        i.related
                    },
                    ..i
                },
            ),
            ..v
        }
    }
}

/// What regenerating the last answer does with a session.
pub enum Regeneration {
    /// There is no turn to regenerate
    NoHistory,
    /// The last message is not the assistant's
    NotAssistant,
    /// No request parameters are stored
    NoParameters,
    /// The last turn is removed and these parameters are asked again
    Replay(AnswerConfigView),
}

/// The outcome of regenerating the last answer of `v`.
pub open spec fn regeneration(v: SessionView) -> Regeneration {
    if v.state.len() == 0 || v.messages.len() == 0 {
        Regeneration::NoHistory
    } else if v.messages.last().role != Role::Assistant {
        Regeneration::NotAssistant
    } else {
        match v.last_params {
            Some(p) => Regeneration::Replay(p),
            None => Regeneration::NoParameters,
        }
    }
}

/// The session without its last turn: its two messages and its interaction.
pub open spec fn popped(v: SessionView) -> SessionView {
    SessionView {
        messages: v.messages.take(v.messages.len() - 2),
        state: v.state.drop_last(),
        ..v
    }
}

/// The generation after `g`.
pub open spec fn next_generation(g: u64) -> u64 {
    if g == u64::MAX {
        0
    } else {
        (g + 1) as u64
    }
}

/// The session after a clear: no messages, no interactions, no stored
/// request, and a new generation.
pub open spec fn cleared(v: SessionView) -> SessionView {
    SessionView {
        messages: Seq::empty(),
        state: Seq::empty(),
        last_params: None,
        generation: next_generation(v.generation),
        ..v
    }
}

/// `next` if `turn` belongs to the session's current generation, else the
/// session unchanged.
pub open spec fn on_turn(v: SessionView, turn: u64, next: SessionView) -> SessionView {
    if turn == v.generation {
        next
    } else {
        v
    }
}

/// The error message recorded when a stream runs past `secs` seconds.
pub open spec fn timeout_message(secs: u64) -> Seq<char> {
    "Stream timeout after "@ + decimal(secs as nat) + " seconds"@
}

/// The path of the non-streaming answer endpoint of a collection.
pub open spec fn answer_path(collection_id: Seq<char>) -> Seq<char> {
    "/v1/collections/"@ + collection_id + "/ai/answer"@
}

/// The URL of the streaming answer endpoint of a collection.
pub open spec fn answer_stream_url(base_url: Seq<char>, collection_id: Seq<char>) -> Seq<char> {
    base_url + "/v1/collections/"@ + collection_id + "/ai/answer/stream"@
}

/// What the decoder reads from a parsed event payload, in priority order.
pub enum PayloadKind {
    /// A `content` string, with the `step` and `verbose_step` strings if any
    Content { text: Seq<char>, step: Option<Seq<char>>, verbose: Option<Seq<char>> },
    /// A `step` string and no `content`
    Step(Seq<char>),
    /// An `error` string and neither `content` nor `step`
    Failure(Seq<char>),
    /// Anything else, including text that is not JSON even after repair
    Raw,
}

/// Classifies a parsed payload (`None` when it could not be parsed).
pub open spec fn payload_kind(doc: Option<Option<Seq<MemberView>>>) -> PayloadKind {
    match doc {
        Some(Some(ms)) => if member_text(ms, "content"@) is Some {
            PayloadKind::Content {
                text: member_text(ms, "content"@)->0,
                step: member_text(ms, "step"@),
                verbose: member_text(ms, "verbose_step"@),
            }
        } else if member_text(ms, "step"@) is Some {
            PayloadKind::Step(member_text(ms, "step"@)->0)
        } else if member_text(ms, "error"@) is Some {
            PayloadKind::Failure(member_text(ms, "error"@)->0)
        } else {
            PayloadKind::Raw
        },
        _ => PayloadKind::Raw,
    }
}

/// The session after a payload of the given kind.
pub open spec fn after_payload(v: SessionView, doc: Option<Option<Seq<MemberView>>>) -> SessionView {
    match payload_kind(doc) {
        PayloadKind::Content { text, step, verbose } => with_delta(v, text, step, verbose),
        PayloadKind::Step(s) => with_step(v, s),
        PayloadKind::Failure(e) => with_error(v, e),
        PayloadKind::Raw => v,
    }
}

/// What the decoder yields for a payload with text `data`: a content chunk,
/// a status update, the upstream error, or the raw text.
pub open spec fn decoded(
    r: Result<StreamChunk, OramaError>,
    data: Seq<char>,
    doc: Option<Option<Seq<MemberView>>>,
) -> bool {
    match payload_kind(doc) {
        PayloadKind::Content { text, .. } => r matches Ok(StreamChunk::Content(c)) && c@ == text,
        PayloadKind::Step(s) => r matches Ok(StreamChunk::StatusUpdate(c)) && c@ == s,
        PayloadKind::Failure(e) => r matches Err(OramaError::Upstream { message }) && message@ == e,
        PayloadKind::Raw => r matches Ok(StreamChunk::RawData(c)) && c@ == data,
    }
}

/// The view of an optional parsed document.
pub open spec fn doc_view(doc: Option<JsonDoc>) -> Option<Option<Seq<MemberView>>> {
    match doc {
        Some(d) => Some(d@),
        None => None,
    }
}

/// The message that a transport failure `msg` is reported with.
pub open spec fn event_error_message(msg: Seq<char>) -> Seq<char> {
    "Stream event error: "@ + msg
}

/// Whether an item ends a stream: the terminal marker or an error.
pub open spec fn terminal(r: Result<StreamChunk, OramaError>) -> bool {
    r is Err || r matches Ok(StreamChunk::Done)
}

proof fn lemma_push_deep<T: DeepView>(before: Vec<T>, after: Vec<T>, x: T)
    requires
        after@ == before@.push(x),
    ensures
        after.deep_view() == before.deep_view().push(x.deep_view()),
{
    assert(after.deep_view() =~= before.deep_view().push(x.deep_view()));
}

proof fn lemma_replace_last_deep<T: DeepView>(before: Vec<T>, after: Vec<T>, x: T)
    requires
        before@.len() > 0,
        after@ == before@.drop_last().push(x),
    ensures
        after.deep_view() == before.deep_view().update(before@.len() - 1, x.deep_view()),
{
    assert(after.deep_view() =~= before.deep_view().update(before@.len() - 1, x.deep_view()));
}

proof fn lemma_drop_last_deep<T: DeepView>(before: Vec<T>, after: Vec<T>)
    requires
        before@.len() > 0,
        after@ == before@.drop_last(),
    ensures
        after.deep_view() == before.deep_view().drop_last(),
{
    assert(after.deep_view() =~= before.deep_view().drop_last());
}

/// Starting a turn keeps the session invariant.
pub proof fn lemma_begun_wf(v: SessionView, e: AnswerConfigView)
    requires
        v.wf(),
    ensures
        begun(v, e).wf(),
        seed_len(begun(v, e)) == seed_len(v),
{
    let w = begun(v, e);
    assert forall|i: int| 0 <= i < w.state.len() implies #[trigger] turn_matches(w, i) by {
        if i < v.state.len() {
            assert(turn_matches(v, i));
        }
    }
}

/// Replacing the last interaction by one with the same query and response
/// keeps the session invariant.
pub proof fn lemma_with_last_wf(v: SessionView, f: InteractionView)
    requires
        v.wf(),
        v.state.len() > 0 ==> f.query == last_of(v).query && f.response == last_of(v).response,
    ensures
        with_last(v, f).wf(),
{
    let w = with_last(v, f);
    if v.state.len() > 0 {
        assert forall|i: int| 0 <= i < w.state.len() implies #[trigger] turn_matches(w, i) by {
            assert(turn_matches(v, i));
        }
    }
}

/// A content delta keeps the session invariant.
pub proof fn lemma_with_delta_wf(
    v: SessionView,
    c: Seq<char>,
    step: Option<Seq<char>>,
    verbose: Option<Seq<char>>,
)
    requires
        v.wf(),
    ensures
        with_delta(v, c, step, verbose).wf(),
{
    let w = with_delta(v, c, step, verbose);
    if v.state.len() > 0 {
        let n = v.state.len() - 1;
        assert(turn_matches(v, n));
        assert forall|i: int| 0 <= i < w.state.len() implies #[trigger] turn_matches(w, i) by {
            assert(turn_matches(v, i));
        }
    }
}

/// A complete answer keeps the session invariant.
pub proof fn lemma_answered_wf(
    v: SessionView,
    answer: Seq<char>,
    sources: Option<Seq<char>>,
    related: Option<Seq<char>>,
)
    requires
        v.wf(),
    ensures
        answered(v, answer, sources, related).wf(),
{
    let w = answered(v, answer, sources, related);
    if v.state.len() > 0 {
        let n = v.state.len() - 1;
        assert(turn_matches(v, n));
        assert forall|i: int| 0 <= i < w.state.len() implies #[trigger] turn_matches(w, i) by {
            assert(turn_matches(v, i));
        }
    }
}

/// Removing the last turn keeps the session invariant.
pub proof fn lemma_popped_wf(v: SessionView)
    requires
        v.wf(),
        v.state.len() > 0,
    ensures
        popped(v).wf(),
        seed_len(popped(v)) == seed_len(v),
{
    let w = popped(v);
    assert forall|i: int| 0 <= i < w.state.len() implies #[trigger] turn_matches(w, i) by {
        assert(turn_matches(v, i));
    }
}

/// Every event transition keeps the session invariant.
pub proof fn lemma_transitions_wf(v: SessionView, c: Seq<char>)
    requires
        v.wf(),
    ensures
        with_step(v, c).wf(),
        with_error(v, c).wf(),
        completed(v).wf(),
        aborted(v).wf(),
        cleared(v).wf(),
{
    if v.state.len() > 0 {
        lemma_with_last_wf(v, InteractionView { current_step: Some(c), ..last_of(v) });
        lemma_with_last_wf(
            v,
            InteractionView { error: true, error_message: Some(c), loading: false, ..last_of(v) },
        );
        lemma_with_last_wf(
            v,
            InteractionView { loading: false, current_step: Some(step_completed()), ..last_of(v) },
        );
        lemma_with_last_wf(v, InteractionView { aborted: true, loading: false, ..last_of(v) });
    }
}

/// A payload keeps the session invariant.
pub proof fn lemma_after_payload_wf(v: SessionView, doc: Option<Option<Seq<MemberView>>>)
    requires
        v.wf(),
    ensures
        after_payload(v, doc).wf(),
{
    match payload_kind(doc) {
        PayloadKind::Content { text, step, verbose } => lemma_with_delta_wf(v, text, step, verbose),
        PayloadKind::Step(s) => lemma_transitions_wf(v, s),
        PayloadKind::Failure(e) => lemma_transitions_wf(v, e),
        PayloadKind::Raw => {},
    }
}

/// A copy of a sequence of interactions.
fn duplicate_interactions(v: &Vec<Interaction>) -> (r: Vec<Interaction>)
    ensures
        r.deep_view() == v.deep_view(),
{
    let mut r: Vec<Interaction> = Vec::new();
    let mut i: usize = 0;
    while i < v.len()
        invariant
            i <= v.len(),
            r.len() == i,
            r.deep_view() == v.deep_view().take(i as int),
        decreases v.len() - i,
    {
        let ghost before = r;
        let item = v[i].duplicate();
        r.push(item);
        proof {
            lemma_push_deep(before, r, item);
        }
        i += 1;
        assert(r.deep_view() =~= v.deep_view().take(i as int));
    }
    assert(v.deep_view().take(v.len() as int) =~= v.deep_view());
    r
}

impl OramaCoreStream {
    /// Create a new AI session for a collection, with a fresh session id.
    pub fn new(collection_id: String) -> (r: Self)
        ensures
            r@.wf(),
            r@.collection_id == collection_id@,
            is_hyphenated_uuid(r@.session_id),
            r@.llm_config is None,
            r@.messages.len() == 0,
            r@.state.len() == 0,
            r@.last_params is None,
            r@.stream_config == default_stream_config(),
            r@.generation == 0,
    {
        let r = OramaCoreStream {
            collection_id,
            session_id: generate_uuid(),
            llm_config: None,
            messages: Vec::new(),
            state: Vec::new(),
            last_interaction_params: None,
            stream_config: StreamConfig::default(),
            generation: 0,
        };
        assert(r@.messages =~= Seq::empty());
        assert(r@.state =~= Seq::empty());
        r
    }

    /// Create a new AI session with a default model configuration and seed
    /// messages.
    pub fn with_config(collection_id: String, config: CreateAiSessionConfig) -> (r: Self)
        ensures
            r@.wf(),
            r@.collection_id == collection_id@,
            is_hyphenated_uuid(r@.session_id),
            r@.llm_config == config.llm_config.deep_view(),
            r@.messages == match config.initial_messages {
                Some(m) => m.deep_view(),
                None => Seq::empty(),
            },
            r@.state.len() == 0,
            r@.last_params is None,
            r@.stream_config == default_stream_config(),
            r@.generation == 0,
    {
        Self::with_stream_config(collection_id, config, StreamConfig::default())
    }

    /// Create a new AI session with configuration and streaming configuration.
    pub fn with_stream_config(
        collection_id: String,
        config: CreateAiSessionConfig,
        stream_config: StreamConfig,
    ) -> (r: Self)
        ensures
            r@.wf(),
            r@.collection_id == collection_id@,
            is_hyphenated_uuid(r@.session_id),
            r@.llm_config == config.llm_config.deep_view(),
            r@.messages == match config.initial_messages {
                Some(m) => m.deep_view(),
                None => Seq::empty(),
            },
            r@.state.len() == 0,
            r@.last_params is None,
            r@.stream_config == stream_config,
            r@.generation == 0,
    {
        let messages = match config.initial_messages {
            Some(m) => m,
            None => Vec::new(),
        };
        let r = OramaCoreStream {
            collection_id,
            session_id: generate_uuid(),
            llm_config: config.llm_config,
            messages,
            state: Vec::new(),
            last_interaction_params: None,
            stream_config,
            generation: 0,
        };
        assert(r@.state =~= Seq::empty());
        proof {
            if config.initial_messages is None {
                assert(r@.messages =~= Seq::empty());
            }
        }
        r
    }

    /// Fill the fields a request leaves unset from the session's defaults;
    /// `fresh_id` is the interaction id used when the request has none.
    pub fn enrich_config(&self, config: AnswerConfig, fresh_id: String) -> (r: AnswerConfig)
        ensures
            r@ == enriched(self@, config@, fresh_id@),
    {
        let mut config = config;
        if config.visitor_id.is_none() {
            config.visitor_id = Some(owned(DEFAULT_SERVER_USER_ID));
        }
        if config.interaction_id.is_none() {
            config.interaction_id = Some(fresh_id);
        }
        if config.session_id.is_none() {
            config.session_id = Some(owned(self.session_id.as_str()));
        }
        if config.llm_config.is_none() {
            config.llm_config = duplicate_llm_config(&self.llm_config);
        }
        config
    }

    /// Start a turn for `data` with `fresh_id` as the interaction id it gets
    /// when it has none: store the enriched request, append the user message
    /// and an empty assistant message, and a new interaction. Returns the
    /// enriched request to send and the generation the turn belongs to.
    pub fn start_turn_with_id(&mut self, data: AnswerConfig, fresh_id: String) -> (r: (
        AnswerConfig,
        u64,
    ))
        requires
            old(self)@.wf(),
        ensures
            r.0@ == enriched(old(self)@, data@, fresh_id@),
            r.1 == old(self)@.generation,
            final(self)@ == begun(old(self)@, r.0@),
            final(self)@.wf(),
    {
        let enriched_config = self.enrich_config(data, fresh_id);
        self.last_interaction_params = Some(enriched_config.duplicate());
        let ghost m0 = self.messages;
        let user = Message { role: Role::User, content: owned(enriched_config.query.as_str()) };
        self.messages.push(user);
        let ghost m1 = self.messages;
        let assistant = Message { role: Role::Assistant, content: String::new() };
        self.messages.push(assistant);
        let id = match &enriched_config.interaction_id {
            Some(id) => owned(id.as_str()),
            None => String::new(),
        };
        let ghost s0 = self.state;
        let interaction = Interaction::new(id, owned(enriched_config.query.as_str()));
        self.state.push(interaction);
        proof {
            lemma_push_deep(m0, m1, user);
            lemma_push_deep(m1, self.messages, assistant);
            lemma_push_deep(s0, self.state, interaction);
            assert(assistant@.content =~= Seq::<char>::empty());
            assert(self@ == begun(old(self)@, enriched_config@));
            lemma_begun_wf(old(self)@, enriched_config@);
        }
        (enriched_config, self.generation)
    }

    /// Start a turn for `data` (see [`Self::start_turn_with_id`]); a request
    /// without an interaction id gets a fresh random one.
    pub fn start_turn(&mut self, data: AnswerConfig) -> (r: (AnswerConfig, u64))
        requires
            old(self)@.wf(),
        ensures
            r.0@.interaction_id is Some,
            r.0@ == enriched(old(self)@, data@, r.0@.interaction_id->0),
            data@.interaction_id is None ==> is_hyphenated_uuid(r.0@.interaction_id->0),
            r.1 == old(self)@.generation,
            final(self)@ == begun(old(self)@, r.0@),
            final(self)@.wf(),
    {
        let fresh_id = match &data.interaction_id {
            Some(id) => owned(id.as_str()),
            None => generate_uuid(),
        };
        self.start_turn_with_id(data, fresh_id)
    }

    /// Replace the last interaction by `it`.
    fn replace_last(&mut self, it: Interaction)
        requires
            old(self).state@.len() > 0,
        ensures
            final(self)@ == with_last(old(self)@, it@),
    {
        let ghost before = self.state;
        let _ = self.state.pop();
        self.state.push(it);
        proof {
            lemma_replace_last_deep(before, self.state, it);
        }
    }

    /// Decode one parsed payload (`doc`, or `None` when the text could not be
    /// parsed) of the stream of turn `turn`, and apply it to the session.
    pub fn decode_payload(&mut self, turn: u64, data: &str, doc: Option<JsonDoc>) -> (r: Result<
        StreamChunk,
        OramaError,
    >)
        requires
            old(self)@.wf(),
        ensures
            final(self)@ == on_turn(old(self)@, turn, after_payload(old(self)@, doc_view(doc))),
            final(self)@.wf(),
            decoded(r, data@, doc_view(doc)),
    {
        proof {
            lemma_after_payload_wf(self@, doc_view(doc));
        }
        let members = match &doc {
            Some(JsonDoc::Object(members)) => members,
            _ => {
                return Ok(StreamChunk::RawData(owned(data)));
            },
        };
        let ghost ms = members.deep_view();
        let content = find_text(members, "content");
        let step = find_text(members, "step");
        proof {
            reveal_strlit("content");
            reveal_strlit("step");
            reveal_strlit("verbose_step");
            reveal_strlit("error");
        }
        if let Some(content) = content {
            let verbose = find_text(members, "verbose_step");
            if turn == self.generation && self.state.len() > 0 {
                proof {
                    assert(turn_matches(self@, self@.state.len() - 1));
                }
                let ghost mb = self.messages;
                let mut last_message = self.messages.pop().unwrap();
                last_message.content.append(content.as_str());
                self.messages.push(last_message);
                proof {
                    lemma_replace_last_deep(mb, self.messages, last_message);
                }
                let ghost sb = self.state;
                let mut it = self.state.pop().unwrap();
                it.response.append(content.as_str());
                if let Some(s) = step {
                    it.current_step = Some(s);
                }
                if let Some(v) = verbose {
                    it.current_step_verbose = Some(v);
                }
                self.state.push(it);
                proof {
                    lemma_replace_last_deep(sb, self.state, it);
                    assert(self@ == with_delta(old(self)@, content@, step.deep_view(), verbose.deep_view()));
                }
            }
            return Ok(StreamChunk::Content(content));
        }
        if let Some(step) = step {
            if turn == self.generation && self.state.len() > 0 {
                let n = self.state.len() - 1;
                let mut it = self.state[n].duplicate();
                it.current_step = Some(owned(step.as_str()));
                self.replace_last(it);
                proof {
                    assert(it@ == InteractionView { current_step: Some(step@), ..last_of(old(self)@) });
                }
            }
            return Ok(StreamChunk::StatusUpdate(step));
        }
        if let Some(error_msg) = find_text(members, "error") {
            self.mark_error(turn, error_msg.as_str());
            return Err(OramaError::Upstream { message: error_msg });
        }
        Ok(StreamChunk::RawData(owned(data)))
    }

    /// Mark the last interaction of turn `turn` as failed with `message`.
    fn mark_error(&mut self, turn: u64, message: &str)
        requires
            old(self)@.wf(),
        ensures
            final(self)@ == on_turn(old(self)@, turn, with_error(old(self)@, message@)),
            final(self)@.wf(),
    {
        proof {
            lemma_transitions_wf(self@, message@);
        }
        if turn == self.generation && self.state.len() > 0 {
            let n = self.state.len() - 1;
            let mut it = self.state[n].duplicate();
            it.error = true;
            it.error_message = Some(owned(message));
            it.loading = false;
            self.replace_last(it);
            proof {
                assert(it@ == InteractionView {
                    error: true,
                    error_message: Some(message@),
                    loading: false,
                    ..last_of(old(self)@)
                });
            }
        }
    }

    /// Process one data payload of the stream of turn `turn`: the text is
    /// parsed with repair, then decoded (see [`Self::decode_payload`]).
    pub fn process_stream_data(&mut self, turn: u64, data: &str) -> (r: Result<StreamChunk, OramaError>)
        requires
            old(self)@.wf(),
        ensures
            final(self)@ == on_turn(old(self)@, turn, after_payload(old(self)@, recovered(data@))),
            final(self)@.wf(),
            decoded(r, data@, recovered(data@)),
    {
        let doc = match parse_ai_response(data) {
            Ok(d) => Some(d),
            Err(_) => None,
        };
        self.decode_payload(turn, data, doc)
    }

    /// Mark turn `turn` as finished after the terminal marker.
    pub fn complete(&mut self, turn: u64)
        requires
            old(self)@.wf(),
        ensures
            final(self)@ == on_turn(old(self)@, turn, completed(old(self)@)),
            final(self)@.wf(),
    {
        proof {
            lemma_transitions_wf(self@, Seq::empty());
        }
        if turn == self.generation && self.state.len() > 0 {
            let n = self.state.len() - 1;
            let mut it = self.state[n].duplicate();
            it.loading = false;
            it.current_step = Some(owned("completed"));
            self.replace_last(it);
            proof {
                assert(it@ == InteractionView {
                    loading: false,
                    current_step: Some(step_completed()),
                    ..last_of(old(self)@)
                });
            }
        }
    }

    /// Mark turn `turn` as timed out and return the timeout error.
    pub fn time_out(&mut self, turn: u64) -> (r: OramaError)
        requires
            old(self)@.wf(),
        ensures
            final(self)@ == on_turn(
                old(self)@,
                turn,
                with_error(old(self)@, timeout_message(old(self)@.stream_config.stream_timeout)),
            ),
            final(self)@.wf(),
            r matches OramaError::Timeout { message } && message@ == timeout_message(
                old(self)@.stream_config.stream_timeout,
            ),
    {
        let secs = decimal_string(self.stream_config.stream_timeout);
        let message = concat3("Stream timeout after ", secs.as_str(), " seconds");
        self.mark_error(turn, message.as_str());
        OramaError::Timeout { message }
    }

    /// Handle one event of the stream of turn `turn`, received `elapsed_secs`
    /// seconds after the stream was opened. Once the stream's time limit is
    /// reached every event ends the stream with a timeout.
    pub fn apply_event(&mut self, turn: u64, event: SseEvent, elapsed_secs: u64) -> (r: Result<
        StreamChunk,
        OramaError,
    >)
        requires
            old(self)@.wf(),
        ensures
            final(self)@.wf(),
            elapsed_secs >= old(self)@.stream_config.stream_timeout ==> {
                &&& final(self)@ == on_turn(
                    old(self)@,
                    turn,
                    with_error(old(self)@, timeout_message(old(self)@.stream_config.stream_timeout)),
                )
                &&& r matches Err(OramaError::Timeout { message }) && message@ == timeout_message(
                    old(self)@.stream_config.stream_timeout,
                )
            },
            elapsed_secs < old(self)@.stream_config.stream_timeout ==> match event {
                SseEvent::Open => final(self)@ == old(self)@ && r matches Ok(StreamChunk::ConnectionOpened),
                SseEvent::Message(d) => if d@ == DONE_SENTINEL@ {
                    final(self)@ == on_turn(old(self)@, turn, completed(old(self)@)) && r matches Ok(StreamChunk::Done)
                } else {
                    &&& final(self)@ == on_turn(old(self)@, turn, after_payload(old(self)@, recovered(d@)))
                    &&& decoded(r, d@, recovered(d@))
                },
                SseEvent::Error(msg) => {
                    &&& final(self)@ == on_turn(old(self)@, turn, with_error(old(self)@, msg@))
                    &&& r matches Err(OramaError::Stream { message }) && message@ == event_error_message(msg@)
                },
            },
    {
        if elapsed_secs >= self.stream_config.stream_timeout {
            return Err(self.time_out(turn));
        }
        match event {
            SseEvent::Open => Ok(StreamChunk::ConnectionOpened),
            SseEvent::Message(data) => {
                if data == owned(DONE_SENTINEL) {
                    self.complete(turn);
                    Ok(StreamChunk::Done)
                } else {
                    self.process_stream_data(turn, data.as_str())
                }
            },
            SseEvent::Error(msg) => {
                self.mark_error(turn, msg.as_str());
                Err(OramaError::Stream { message: concat("Stream event error: ", msg.as_str()) })
            },
        }
    }

    /// Decide what a failure to connect (`msg`) means for turn `turn` when
    /// `attempt` retries have already been made: while retries remain, a
    /// retry (numbered from one) after the backoff delay, with the session
    /// unchanged; after that, the end of the stream with the failure recorded.
    pub fn connect_failed(&mut self, turn: u64, attempt: u32, msg: &str) -> (r: Result<
        StreamChunk,
        OramaError,
    >)
        requires
            old(self)@.wf(),
        ensures
            final(self)@.wf(),
            attempt < old(self)@.stream_config.max_retries ==> {
                &&& final(self)@ == old(self)@
                &&& r matches Ok(StreamChunk::Retry { attempt: a, delay_ms: d })
                &&& a == attempt + 1
                &&& d as nat == backoff_delay(
                    old(self)@.stream_config.initial_retry_delay,
                    old(self)@.stream_config.max_retry_delay,
                    attempt as nat,
                )
            },
            attempt >= old(self)@.stream_config.max_retries ==> {
                &&& final(self)@ == on_turn(old(self)@, turn, with_error(old(self)@, msg@))
                &&& r matches Err(OramaError::Stream { message }) && message@ == event_error_message(msg@)
            },
    {
        match self.stream_config.retry_delay_ms(attempt) {
            Some(delay_ms) => Ok(StreamChunk::Retry { attempt: attempt + 1, delay_ms }),
            None => {
                self.mark_error(turn, msg);
                Err(OramaError::Stream { message: concat("Stream event error: ", msg) })
            },
        }
    }

    /// Mark turn `turn` as failed with `error` (a failed request).
    pub fn fail_turn(&mut self, turn: u64, error: &OramaError)
        requires
            old(self)@.wf(),
        ensures
            final(self)@ == on_turn(old(self)@, turn, with_error(old(self)@, error.text())),
            final(self)@.wf(),
    {
        let message = error.display_text();
        self.mark_error(turn, message.as_str());
    }

    /// Mark turn `turn` as abandoned: a stream dropped before its end.
    pub fn abort_turn(&mut self, turn: u64)
        requires
            old(self)@.wf(),
        ensures
            final(self)@ == on_turn(old(self)@, turn, aborted(old(self)@)),
            final(self)@.wf(),
    {
        proof {
            lemma_transitions_wf(self@, Seq::empty());
        }
        if turn == self.generation && self.state.len() > 0 {
            let n = self.state.len() - 1;
            if self.state[n].loading {
                let mut it = self.state[n].duplicate();
                it.aborted = true;
                it.loading = false;
                self.replace_last(it);
                proof {
                    assert(it@ == InteractionView {
                        aborted: true,
                        loading: false,
                        ..last_of(old(self)@)
                    });
                }
            }
        }
    }

    /// Record the complete answer of turn `turn`: the text becomes the
    /// response and the assistant message, and `sources` and `related` are
    /// kept when the service sent them. Returns the answer.
    pub fn complete_answer(
        &mut self,
        turn: u64,
        answer: String,
        sources: Option<String>,
        related: Option<String>,
    ) -> (r: String)
        requires
            old(self)@.wf(),
        ensures
            final(self)@ == on_turn(
                old(self)@,
                turn,
                answered(old(self)@, answer@, sources.deep_view(), related.deep_view()),
            ),
            final(self)@.wf(),
            r@ == answer@,
    {
        proof {
            lemma_answered_wf(self@, answer@, sources.deep_view(), related.deep_view());
        }
        if turn == self.generation && self.state.len() > 0 {
            proof {
                assert(turn_matches(self@, self@.state.len() - 1));
            }
            let ghost mb = self.messages;
            let mut last_message = self.messages.pop().unwrap();
            last_message.content = owned(answer.as_str());
            self.messages.push(last_message);
            proof {
                lemma_replace_last_deep(mb, self.messages, last_message);
            }
            let ghost sb = self.state;
            let mut it = self.state.pop().unwrap();
            it.response = owned(answer.as_str());
            it.loading = false;
            it.current_step = Some(owned("completed"));
            if sources.is_some() {
                it.sources = sources;
            }
            if related.is_some() {
                it.related = related;
            }
            self.state.push(it);
            proof {
                lemma_replace_last_deep(sb, self.state, it);
                assert(self@ == answered(old(self)@, answer@, sources.deep_view(), related.deep_view()));
            }
        }
        answer
    }

    /// Unwind the last turn so that it can be asked again: remove its two
    /// messages and its interaction, and return the request it was made with.
    pub fn regenerate_last(&mut self) -> (r: Result<AnswerConfig, OramaError>)
        requires
            old(self)@.wf(),
        ensures
            final(self)@.wf(),
            match regeneration(old(self)@) {
                Regeneration::Replay(p) => r matches Ok(q) && q@ == p && final(self)@ == popped(
                    old(self)@,
                ),
                Regeneration::NoHistory => r matches Err(OramaError::InvalidState { .. })
                    && final(self)@ == old(self)@,
                Regeneration::NotAssistant => r matches Err(OramaError::InvalidState { .. })
                    && final(self)@ == old(self)@,
                Regeneration::NoParameters => r matches Err(OramaError::MissingParameters { .. })
                    && final(self)@ == old(self)@,
            },
    {
        if self.state.len() == 0 || self.messages.len() == 0 {
            return Err(OramaError::InvalidState { message: owned("No messages to regenerate") });
        }
        proof {
            assert(turn_matches(self@, self@.state.len() - 1));
        }
        let m = self.messages.len() - 1;
        if !matches!(self.messages[m].role, Role::Assistant) {
            return Err(
                OramaError::InvalidState { message: owned("Last message is not an assistant message") },
            );
        }
        let params = match &self.last_interaction_params {
            Some(p) => p.duplicate(),
            None => {
                return Err(
                    OramaError::MissingParameters {
                        message: owned("No last interaction parameters available"),
                    },
                );
            },
        };
        let ghost m0 = self.messages;
        let _ = self.messages.pop();
        let ghost m1 = self.messages;
        let _ = self.messages.pop();
        let ghost s0 = self.state;
        let _ = self.state.pop();
        proof {
            lemma_drop_last_deep(m0, m1);
            lemma_drop_last_deep(m1, self.messages);
            lemma_drop_last_deep(s0, self.state);
            assert(self@.messages =~= old(self)@.messages.take(old(self)@.messages.len() - 2));
            assert(self@ == popped(old(self)@));
            lemma_popped_wf(old(self)@);
        }
        Ok(params)
    }

    /// Clear the session: no messages, no interactions, no stored request,
    /// and a new generation, so that events of earlier turns change nothing.
    pub fn clear_session(&mut self)
        requires
            old(self)@.wf(),
        ensures
            final(self)@ == cleared(old(self)@),
            final(self)@.wf(),
    {
        self.messages.clear();
        self.state.clear();
        self.last_interaction_params = None;
        self.generation = if self.generation == u64::MAX {
            0
        } else {
            self.generation + 1
        };
        proof {
            assert(self@.messages =~= Seq::empty());
            assert(self@.state =~= Seq::empty());
            lemma_transitions_wf(old(self)@, Seq::empty());
        }
    }

    /// A copy of the current messages.
    pub fn get_messages(&self) -> (r: Vec<Message>)
        ensures
            r.deep_view() == self@.messages,
    {
        duplicate_messages(&self.messages)
    }

    /// A copy of the current interactions.
    pub fn get_state(&self) -> (r: Vec<Interaction>)
        ensures
            r.deep_view() == self@.state,
    {
        duplicate_interactions(&self.state)
    }

    /// The session id.
    pub fn session_id(&self) -> (r: &str)
        ensures
            r@ == self@.session_id,
    {
        self.session_id.as_str()
    }

    /// The collection the session asks about.
    pub fn collection_id(&self) -> (r: &str)
        ensures
            r@ == self@.collection_id,
    {
        self.collection_id.as_str()
    }

    /// The generation that new turns belong to.
    pub fn generation(&self) -> (r: u64)
        ensures
            r == self@.generation,
    {
        self.generation
    }

    /// The current stream configuration.
    pub fn get_stream_config(&self) -> (r: &StreamConfig)
        ensures
            *r == self@.stream_config,
    {
        &self.stream_config
    }

    /// Update the stream configuration.
    pub fn set_stream_config(&mut self, config: StreamConfig)
        requires
            old(self)@.wf(),
        ensures
            final(self)@ == (SessionView { stream_config: config, ..old(self)@ }),
            final(self)@.wf(),
    {
        self.stream_config = config;
        proof {
            assert forall|i: int| 0 <= i < self@.state.len() implies #[trigger] turn_matches(
                self@,
                i,
            ) by {
                assert(turn_matches(old(self)@, i));
            }
        }
    }

    /// The path of the non-streaming answer endpoint.
    pub fn answer_path(&self) -> (r: String)
        ensures
            r@ == answer_path(self@.collection_id),
    {
        concat3("/v1/collections/", self.collection_id.as_str(), "/ai/answer")
    }

    /// The URL of the streaming answer endpoint under `base_url`.
    pub fn answer_stream_url(&self, base_url: &str) -> (r: String)
        ensures
            r@ == answer_stream_url(base_url@, self@.collection_id),
    {
        let mut r = concat(base_url, "/v1/collections/");
        r.append(self.collection_id.as_str());
        r.append("/ai/answer/stream");
        r
    }
}

/// Whether a stream item ends the stream: the terminal marker or an error.
pub fn is_terminal(r: &Result<StreamChunk, OramaError>) -> (b: bool)
    ensures
        b == terminal(*r),
{
    match r {
        Ok(StreamChunk::Done) => true,
        Ok(_) => false,
        Err(_) => true,
    }
}

/// Add a streamed chunk to the text collected so far: content is appended,
/// and the terminal marker says that collection is over.
pub fn collect_content(acc: &mut String, chunk: &StreamChunk) -> (done: bool)
    ensures
        done == (chunk is Done),
        final(acc)@ == match chunk {
            StreamChunk::Content(c) => old(acc)@ + c@,
            _ => old(acc)@,
        },
{
    match chunk {
        StreamChunk::Content(c) => {
            acc.append(c.as_str());
            false
        },
        StreamChunk::Done => true,
        _ => false,
    }
}

/// A content delta as the decoder applies it: text, step, verbose step.
pub type Delta = (Seq<char>, Option<Seq<char>>, Option<Seq<char>>);

/// The session after the content deltas `ds`, in order.
pub open spec fn after_deltas(v: SessionView, ds: Seq<Delta>) -> SessionView
    decreases ds.len(),
{
    if ds.len() == 0 {
        v
    } else {
        let d = ds.last();
        with_delta(after_deltas(v, ds.drop_last()), d.0, d.1, d.2)
    }
}

/// The texts of the deltas `ds`, concatenated in order.
pub open spec fn joined(ds: Seq<Delta>) -> Seq<char>
    decreases ds.len(),
{
    if ds.len() == 0 {
        Seq::empty()
    } else {
        joined(ds.drop_last()) + ds.last().0
    }
}

/// Within one turn, after content chunks c1..cn, the turn's interaction
/// response and its assistant message both equal c1 + c2 + ... + cn.
pub proof fn lemma_turn_text_is_concatenation(v: SessionView, e: AnswerConfigView, ds: Seq<Delta>)
    requires
        v.wf(),
    ensures
        after_deltas(begun(v, e), ds).state.len() == v.state.len() + 1,
        after_deltas(begun(v, e), ds).messages.len() == v.messages.len() + 2,
        last_of(after_deltas(begun(v, e), ds)).response == joined(ds),
        after_deltas(begun(v, e), ds).messages.last().content == joined(ds),
        after_deltas(begun(v, e), ds).messages.last().role == Role::Assistant,
    decreases ds.len(),
{
    if ds.len() == 0 {
        assert(begun(v, e).messages.last().content =~= Seq::<char>::empty());
    } else {
        lemma_turn_text_is_concatenation(v, e, ds.drop_last());
    }
}

/// A session whose messages are all turns (none given at creation, or
/// cleared since) keeps exactly two messages per interaction, and so an even
/// number of messages, through every operation.
pub proof fn lemma_messages_pair_interactions(
    v: SessionView,
    e: AnswerConfigView,
    doc: Option<Option<Seq<MemberView>>>,
    text: Seq<char>,
    sources: Option<Seq<char>>,
    related: Option<Seq<char>>,
)
    requires
        v.wf(),
        v.messages.len() == 2 * v.state.len(),
    ensures
        v.messages.len() % 2 == 0,
        begun(v, e).messages.len() == 2 * begun(v, e).state.len(),
        after_payload(v, doc).messages.len() == 2 * after_payload(v, doc).state.len(),
        with_error(v, text).messages.len() == 2 * with_error(v, text).state.len(),
        completed(v).messages.len() == 2 * completed(v).state.len(),
        aborted(v).messages.len() == 2 * aborted(v).state.len(),
        answered(v, text, sources, related).messages.len() == 2 * answered(
            v,
            text,
            sources,
            related,
        ).state.len(),
        v.state.len() > 0 ==> popped(v).messages.len() == 2 * popped(v).state.len(),
        cleared(v).messages.len() == 2 * cleared(v).state.len(),
{
}

/// Regenerating the last answer (removing the last turn and starting it
/// again) leaves as many interactions, and as many messages, as before.
pub proof fn lemma_regenerate_keeps_interaction_count(v: SessionView, e: AnswerConfigView)
    requires
        v.wf(),
        v.state.len() > 0,
    ensures
        begun(popped(v), e).state.len() == v.state.len(),
        begun(popped(v), e).messages.len() == v.messages.len(),
        begun(popped(v), e).wf(),
{
    lemma_popped_wf(v);
    lemma_begun_wf(popped(v), e);
}

/// Regenerating on a session without turns, a fresh one in particular,
/// fails with an invalid-state error; on a session with turns it replays the
/// last request.
pub proof fn lemma_regenerate_needs_a_turn(v: SessionView)
    requires
        v.wf(),
    ensures
        v.state.len() == 0 ==> regeneration(v) is NoHistory,
        v.state.len() > 0 ==> regeneration(v) == Regeneration::Replay(v.last_params->0),
{
    if v.state.len() > 0 {
        assert(turn_matches(v, v.state.len() - 1));
    }
}

/// Clearing a session leaves no messages and no interactions, and keeps the
/// session id.
pub proof fn lemma_clear_empties_session(v: SessionView)
    ensures
        cleared(v).messages.len() == 0,
        cleared(v).state.len() == 0,
        cleared(v).session_id == v.session_id,
{
}

} // verus!
