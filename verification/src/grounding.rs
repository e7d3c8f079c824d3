//! Metadata that links generated text to the sources it was retrieved from.

use vstd::prelude::*;
use crate::api::{Float32, Float64};
use crate::content::Content;

verus! {

#[derive(Debug)]
pub struct GroundingAtrribution {
    pub source_id: AtrributionSourceId,
    pub content: Content,
}

#[derive(Debug)]
pub struct GroundingMetadata {
    pub grounding_chunk: GroundingChunk,
    pub grounding_supports: Vec<GroundingSupport>,
    pub web_search_queries: Vec<String>,
    pub search_entry_point: Option<SearchEntryPoint>,
    pub retrieval_metadata: RetrievalMetadata,
}

#[derive(Debug)]
pub enum AtrributionSourceId {
    GroundingPassageId { passage_id: String, part_index: String },
    SemanticRetrieverChunk { source: String, chunk: String },
}

#[derive(Debug)]
pub struct SemanticRetrieverChunk {
    pub source: String,
    pub chunk: String,
}

#[derive(Debug)]
pub enum GroundingChunk {
    /// A chunk from the web.
    Web {
        /// URI reference of the chunk.
        uri: String,
        /// The title of the chunk.
        title: String,
    },
}

#[derive(Debug)]
pub struct GroundingSupport {
    pub grounding_chunk_indices: Vec<i32>,
    pub confidence_scores: Vec<Float64>,
    pub segment: Segment,
}

#[derive(Debug)]
pub struct SearchEntryPoint {
    pub rendered_content: String,
    pub sdk_blob: Option<String>,
}

#[derive(Debug, Clone, Copy)]
pub struct RetrievalMetadata {
    pub google_search_dynamic_retrieval_score: Option<Float64>,
}

#[derive(Debug)]
pub struct Segment {
    pub part_index: i32,
    pub start_index: i32,
    pub end_index: i32,
    pub text: String,
}

#[derive(Debug, Clone, Copy)]
pub struct GoogleSearchRetrieval {
    pub dynamic_retrieval_config: DynamicRetrievalConfig,
}

#[derive(Debug, Clone, Copy)]
pub struct DynamicRetrievalConfig {
    pub mode: Mode,
    pub dynamic_threshold: Option<Float32>,
}

#[derive(Debug, Clone, Copy, PartialEq, Eq)]
pub enum Mode {
    ModeUnspecified,
    ModeDynamic,
}

} // verus!
