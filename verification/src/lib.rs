//! Typed request and response shapes for the Gemini content-generation and
//! embedding endpoints, together with the rules that turn a model's stored
//! defaults into a request, a response body into a result, a chunked body into
//! a sequence of payloads, and an exchange into chat history.

use vstd::prelude::*;
use crate::api::{
    Candidate, ContentEmbedding, FunctionDeclaration, GenerationConfig, GenerationConfigView,
    PromptFeedback, SafetySetting, TaskType, Tool, UsageMetadata,
};
use crate::content::{content_views, Content, ContentView};
use crate::model::{config_view, instruction_view, settings_view, tools_view};

pub mod api;
pub mod chat;
pub mod content;
pub mod error;
pub mod grounding;
pub mod model;
pub mod schema;
pub mod stream;

verus! {

/// The body of a generation request.
#[derive(Debug)]
pub struct GeminiRequest {
    pub contents: Vec<Content>,
    pub tools: Option<Vec<Tool>>,
    pub safety_settings: Option<Vec<SafetySetting>>,
    pub system_instruction: Option<Content>,
    pub generation_config: Option<GenerationConfig>,
}

/// What a `GeminiRequest` holds.
pub struct GeminiRequestView {
    pub contents: Seq<ContentView>,
    pub tools: Option<Seq<Seq<FunctionDeclaration>>>,
    pub safety_settings: Option<Seq<SafetySetting>>,
    pub system_instruction: Option<ContentView>,
    pub generation_config: Option<GenerationConfigView>,
}

impl View for GeminiRequest {
    type V = GeminiRequestView;

    open spec fn view(&self) -> GeminiRequestView {
        GeminiRequestView {
            contents: content_views(self.contents@),
            tools: tools_view(self.tools),
            safety_settings: settings_view(self.safety_settings),
            system_instruction: instruction_view(self.system_instruction),
            generation_config: config_view(self.generation_config),
        }
    }
}

/// The body of a successful generation response.
#[derive(Debug)]
pub struct GeminiResponse {
    pub candidates: Vec<Candidate>,
    pub usage_metadata: UsageMetadata,
    pub prompt_feedback: Option<PromptFeedback>,
}

impl GeminiResponse {
    /// The text of the first candidate. There must be one.
    pub fn text(&self) -> (text: String)
        requires
            self.candidates@.len() > 0,
        ensures
            text@ == crate::api::joined_text(self.candidates@[0].content@.parts),
    {
        self.candidates[0].text()
    }
}

/// The body of an embedding request.
#[derive(Debug)]
pub struct EmbedContentRequest {
    pub content: Content,
    pub config: EmbedContentConfig,
}

/// The body of a successful embedding response.
#[derive(Debug)]
pub struct EmbedContentResponse {
    pub embedding: ContentEmbedding,
}

/// Optional knobs of an embedding request.
#[derive(Debug)]
pub struct EmbedContentConfig {
    pub task_type: Option<TaskType>,
    pub title: Option<String>,
    pub output_dimensionality: Option<i32>,
}

impl Default for EmbedContentConfig {
    fn default() -> (config: EmbedContentConfig)
        ensures
            config.task_type is None,
            config.title is None,
            config.output_dimensionality is None,
    {
        EmbedContentConfig { task_type: None, title: None, output_dimensionality: None }
    }
}

} // verus!
