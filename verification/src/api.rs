//! The passive shapes of the request and response payloads.

use vstd::prelude::*;
use vstd::string::StringExecFns;
use crate::content::{part_views, Content, Part, PartView};
use crate::grounding::GroundingAtrribution;

verus! {

/// An IEEE 754 single-precision number, held by its bit pattern.
#[derive(Debug, Clone, Copy)]
pub struct Float32 {
    pub bits: u32,
}

/// An IEEE 754 double-precision number, held by its bit pattern.
#[derive(Debug, Clone, Copy)]
pub struct Float64 {
    pub bits: u64,
}

/// One generated alternative response from the model.
#[derive(Debug)]
pub struct Candidate {
    /// Generated content returned from the model.
    pub content: Content,
    /// Ratings for the safety of the candidate, at most one per category.
    pub safety_ratings: Option<Vec<SafetyRating>>,
    /// Citation information for passages recited from other material.
    pub citation_metadata: Option<CitationMetadata>,
    /// Why the model stopped generating tokens; `None` while it has not.
    pub finish_reason: Option<FinishReason>,
    pub grounding_attributions: Option<Vec<GroundingAtrribution>>,
}

#[derive(Debug, Clone, Copy)]
pub struct SafetyRating {
    /// The category for this rating.
    pub category: HarmCategory,
    /// The probability of harm for this content.
    pub probability: HarmProbability,
}

#[derive(Debug, Clone, Copy, PartialEq, Eq)]
pub enum HarmCategory {
    Unspecified,
    /// Malicious, intimidating, bullying, or abusive comments targeting
    /// another individual.
    Harassment,
    /// Negative or harmful comments targeting identity or protected
    /// attributes.
    HateSpeech,
    /// References to sexual acts or other lewd content.
    SexuallyExplicit,
    /// Promotes or enables access to harmful goods, services, and activities.
    DangerousContent,
}

#[derive(Debug, Clone, Copy, PartialEq, Eq)]
pub enum HarmProbability {
    Unspecified,
    Negligible,
    Low,
    Medium,
    High,
}

#[derive(Debug)]
pub struct CitationMetadata {
    pub citation_sources: Vec<CitationSource>,
}

#[derive(Debug)]
pub struct CitationSource {
    pub start_index: i32,
    pub end_index: i32,
    pub uri: String,
    pub license: Option<String>,
}

#[derive(Debug, Clone, Copy, PartialEq, Eq)]
pub enum FinishReason {
    Unspecified,
    Stop,
    MaxTokens,
    Safety,
    Recitation,
    Language,
    Other,
    BlockList,
    ProhibitedContent,
    SPII,
    MalformedFunctionCall,
}

/// A harm category and the sensitivity at which matching content is
/// suppressed.
#[derive(Debug, Clone, Copy)]
pub struct SafetySetting {
    pub category: HarmCategory,
    pub threshold: HarmBlockThreshold,
}

/// A predicted harm probability at or above this level blocks content.
#[derive(Debug, Clone, Copy, PartialEq, Eq)]
pub enum HarmBlockThreshold {
    /// Block using the default threshold.
    Unspecified,
    /// Block at low probability and above.
    Low,
    /// Block at medium probability and above.
    Medium,
    /// Block only at high probability.
    High,
    /// Always show, whatever the probability.
    BlockNone,
}

#[derive(Debug, Clone, Copy, PartialEq, Eq)]
pub enum BlockReason {
    Unspecified,
    Saftey,
    Other,
}

#[derive(Debug)]
pub struct PromptFeedback {
    pub block_reason: Option<BlockReason>,
    pub block_reason_message: Option<String>,
    pub saftey_ratings: Vec<SafetyRating>,
}

#[derive(Debug, Clone, Copy)]
pub struct UsageMetadata {
    pub prompt_token_count: Option<i32>,
    pub candidates_token_count: Option<i32>,
    pub cached_content_token_count: Option<i32>,
    pub total_token_count: Option<i32>,
}

#[derive(Debug)]
pub struct ContentEmbedding {
    pub values: Vec<Float64>,
}

pub struct CountTokenResponse {
    pub total_tokens: i32,
}

/// The text of a sequence of parts: the text parts, in order, joined with
/// nothing between them; binary parts add nothing.
pub open spec fn joined_text(parts: Seq<PartView>) -> Seq<char>
    decreases parts.len(),
{
    if parts.len() == 0 {
        Seq::empty()
    } else {
        joined_text(parts.drop_last()) + match parts.last() {
            PartView::Text(text) => text,
            PartView::Data { .. } => Seq::empty(),
        }
    }
}

impl Candidate {
    /// The candidate's text: its text parts, concatenated in order.
    pub fn text(&self) -> (text: String)
        ensures
            text@ == joined_text(self.content@.parts),
    {
        let mut text = String::new();
        let mut i: usize = 0;
        let ghost views = part_views(self.content.parts@);
        while i < self.content.parts.len()
            invariant
                i <= self.content.parts.len(),
                views == part_views(self.content.parts@),
                text@ == joined_text(views.take(i as int)),
            decreases self.content.parts.len() - i,
        {
            proof {
                assert(views.take(i + 1).drop_last() =~= views.take(i as int));
            }
            match &self.content.parts[i] {
                Part::Text(piece) => {
                    text.append(piece.as_str());
                },
                Part::Data { .. } => {},
            }
            i += 1;
        }
        assert(views.take(i as int) =~= views);
        text
    }
}

#[derive(Debug)]
pub struct FunctionDeclaration {
    pub name: String,
    pub description: String,
}

impl Clone for FunctionDeclaration {
    fn clone(&self) -> (r: FunctionDeclaration)
        ensures
            r == *self,
    {
        FunctionDeclaration { name: self.name.clone(), description: self.description.clone() }
    }
}

/// A set of callable tools, described by name and description.
#[derive(Debug)]
pub struct Tool {
    pub function_declarations: Vec<FunctionDeclaration>,
}

impl View for Tool {
    type V = Seq<FunctionDeclaration>;

    open spec fn view(&self) -> Seq<FunctionDeclaration> {
        self.function_declarations@
    }
}

impl Clone for Tool {
    fn clone(&self) -> (r: Tool)
        ensures
            r@ == self@,
    {
        let function_declarations = self.function_declarations.clone();
        Tool { function_declarations }
    }
}

#[derive(Debug, Clone, Copy, PartialEq, Eq)]
pub enum ResponseMimeType {
    TextPlain,
    ApplicationJson,
}

/// Optional knobs of generation. A field that is `None` is left out of the
/// request.
#[derive(Debug)]
pub struct GenerationConfig {
    pub stop_sequences: Option<Vec<String>>,
    pub response_mime_type: Option<ResponseMimeType>,
    pub candidate_count: Option<i32>,
    /// The maximum number of tokens to include in a response candidate.
    pub max_output_tokens: Option<i32>,
    pub temperature: Option<Float32>,
    pub top_p: Option<Float64>,
    pub top_k: Option<i32>,
    pub presence_penalty: Option<Float32>,
    pub frequence_penalty: Option<Float32>,
    pub response_logprobs: Option<bool>,
}

/// What a `GenerationConfig` holds.
pub struct GenerationConfigView {
    pub stop_sequences: Option<Seq<String>>,
    pub response_mime_type: Option<ResponseMimeType>,
    pub candidate_count: Option<i32>,
    pub max_output_tokens: Option<i32>,
    pub temperature: Option<Float32>,
    pub top_p: Option<Float64>,
    pub top_k: Option<i32>,
    pub presence_penalty: Option<Float32>,
    pub frequence_penalty: Option<Float32>,
    pub response_logprobs: Option<bool>,
}

impl View for GenerationConfig {
    type V = GenerationConfigView;

    open spec fn view(&self) -> GenerationConfigView {
        GenerationConfigView {
            stop_sequences: match self.stop_sequences {
                Some(sequences) => Some(sequences@),
                None => None,
            },
            response_mime_type: self.response_mime_type,
            candidate_count: self.candidate_count,
            max_output_tokens: self.max_output_tokens,
            temperature: self.temperature,
            top_p: self.top_p,
            top_k: self.top_k,
            presence_penalty: self.presence_penalty,
            frequence_penalty: self.frequence_penalty,
            response_logprobs: self.response_logprobs,
        }
    }
}

impl GenerationConfigView {
    /// The configuration with every knob unset.
    pub open spec fn unset() -> GenerationConfigView {
        GenerationConfigView {
            stop_sequences: None,
            response_mime_type: None,
            candidate_count: None,
            max_output_tokens: None,
            temperature: None,
            top_p: None,
            top_k: None,
            presence_penalty: None,
            frequence_penalty: None,
            response_logprobs: None,
        }
    }
}

/// The optional knobs of a generation configuration, in the order in which
/// they are written to the request.
#[derive(Debug, Clone, Copy, PartialEq, Eq)]
pub enum GenerationKnob {
    StopSequences,
    ResponseMimeType,
    CandidateCount,
    MaxOutputTokens,
    Temperature,
    TopP,
    TopK,
    PresencePenalty,
    FrequencePenalty,
    ResponseLogprobs,
}

impl GenerationKnob {
    /// The key under which the knob is written: its name in camelCase.
    pub open spec fn key(self) -> Seq<char> {
        match self {
            GenerationKnob::StopSequences => "stopSequences"@,
            GenerationKnob::ResponseMimeType => "responseMimeType"@,
            GenerationKnob::CandidateCount => "candidateCount"@,
            GenerationKnob::MaxOutputTokens => "maxOutputTokens"@,
            GenerationKnob::Temperature => "temperature"@,
            GenerationKnob::TopP => "topP"@,
            GenerationKnob::TopK => "topK"@,
            GenerationKnob::PresencePenalty => "presencePenalty"@,
            GenerationKnob::FrequencePenalty => "frequencePenalty"@,
            GenerationKnob::ResponseLogprobs => "responseLogprobs"@,
        }
    }

    /// The key under which the knob is written.
    pub fn wire_key(self) -> (key: &'static str)
        ensures
            key@ == self.key(),
    {
        match self {
            GenerationKnob::StopSequences => "stopSequences",
            GenerationKnob::ResponseMimeType => "responseMimeType",
            GenerationKnob::CandidateCount => "candidateCount",
            GenerationKnob::MaxOutputTokens => "maxOutputTokens",
            GenerationKnob::Temperature => "temperature",
            GenerationKnob::TopP => "topP",
            GenerationKnob::TopK => "topK",
            GenerationKnob::PresencePenalty => "presencePenalty",
            GenerationKnob::FrequencePenalty => "frequencePenalty",
            GenerationKnob::ResponseLogprobs => "responseLogprobs",
        }
    }
}

/// The knob if it is set, and nothing if it is not.
pub open spec fn knob_if(set: bool, knob: GenerationKnob) -> Seq<GenerationKnob> {
    if set {
        seq![knob]
    } else {
        Seq::empty()
    }
}

impl GenerationConfigView {
    /// The knobs that are written to the request: those that are set, in
    /// order. A knob that is unset is left out.
    pub open spec fn written(self) -> Seq<GenerationKnob> {
        knob_if(self.stop_sequences is Some, GenerationKnob::StopSequences) + knob_if(
            self.response_mime_type is Some,
            GenerationKnob::ResponseMimeType,
        ) + knob_if(self.candidate_count is Some, GenerationKnob::CandidateCount) + knob_if(
            self.max_output_tokens is Some,
            GenerationKnob::MaxOutputTokens,
        ) + knob_if(self.temperature is Some, GenerationKnob::Temperature) + knob_if(
            self.top_p is Some,
            GenerationKnob::TopP,
        ) + knob_if(self.top_k is Some, GenerationKnob::TopK) + knob_if(
            self.presence_penalty is Some,
            GenerationKnob::PresencePenalty,
        ) + knob_if(self.frequence_penalty is Some, GenerationKnob::FrequencePenalty) + knob_if(
            self.response_logprobs is Some,
            GenerationKnob::ResponseLogprobs,
        )
    }
}

/// Appends the knob to the list if it is set.
fn note_knob(written: &mut Vec<GenerationKnob>, set: bool, knob: GenerationKnob)
    ensures
        final(written)@ == old(written)@ + knob_if(set, knob),
{
    if set {
        written.push(knob);
    }
}

impl GenerationConfig {
    /// The knobs to write to the request, in order: exactly those that are
    /// set. With every knob unset there is none to write.
    pub fn written_knobs(&self) -> (written: Vec<GenerationKnob>)
        ensures
            written@ == self@.written(),
            self@ == GenerationConfigView::unset() ==> written@ == Seq::<GenerationKnob>::empty(),
    {
        let mut written: Vec<GenerationKnob> = Vec::new();
        note_knob(&mut written, self.stop_sequences.is_some(), GenerationKnob::StopSequences);
        note_knob(&mut written, self.response_mime_type.is_some(), GenerationKnob::ResponseMimeType);
        note_knob(&mut written, self.candidate_count.is_some(), GenerationKnob::CandidateCount);
        note_knob(&mut written, self.max_output_tokens.is_some(), GenerationKnob::MaxOutputTokens);
        note_knob(&mut written, self.temperature.is_some(), GenerationKnob::Temperature);
        note_knob(&mut written, self.top_p.is_some(), GenerationKnob::TopP);
        note_knob(&mut written, self.top_k.is_some(), GenerationKnob::TopK);
        note_knob(&mut written, self.presence_penalty.is_some(), GenerationKnob::PresencePenalty);
        note_knob(&mut written, self.frequence_penalty.is_some(), GenerationKnob::FrequencePenalty);
        note_knob(&mut written, self.response_logprobs.is_some(), GenerationKnob::ResponseLogprobs);
        written
    }
}

impl Clone for GenerationConfig {
    fn clone(&self) -> (r: GenerationConfig)
        ensures
            r@ == self@,
    {
        let stop_sequences = match &self.stop_sequences {
            Some(sequences) => {
                let copy = sequences.clone();
                Some(copy)
            },
            None => None,
        };
        GenerationConfig {
            stop_sequences,
            response_mime_type: self.response_mime_type,
            candidate_count: self.candidate_count,
            max_output_tokens: self.max_output_tokens,
            temperature: self.temperature,
            top_p: self.top_p,
            top_k: self.top_k,
            presence_penalty: self.presence_penalty,
            frequence_penalty: self.frequence_penalty,
            response_logprobs: self.response_logprobs,
        }
    }
}

impl Default for GenerationConfig {
    fn default() -> (r: GenerationConfig)
        ensures
            r@ == GenerationConfigView::unset(),
    {
        GenerationConfig {
            stop_sequences: None,
            response_mime_type: None,
            candidate_count: None,
            max_output_tokens: None,
            temperature: None,
            top_p: None,
            top_k: None,
            presence_penalty: None,
            frequence_penalty: None,
            response_logprobs: None,
        }
    }
}

#[derive(Debug, Clone, Copy, PartialEq, Eq)]
pub enum TaskType {
    Unspecified,
    RetrievalQuery,
    RetrievalDocument,
    SemanticSimilarity,
    Classification,
    Clustering,
    QuestionAnswering,
    FactVerification,
}

/// The error envelope: `{"error": {code, message, status}}`.
#[derive(Debug)]
pub struct GeminiGenericErrorResponse {
    pub error: GeminiGenericError,
}

/// The generic error object that the server sends inside its error envelope.
#[derive(Debug)]
pub struct GeminiGenericError {
    pub code: i32,
    pub message: String,
    pub status: String,
}

} // verus!
