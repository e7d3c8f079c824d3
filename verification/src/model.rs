//! The model handle: its stored defaults, the builder that makes it and that
//! overrides those defaults for one call, and the request that the two give.

use vstd::prelude::*;
use vstd::string::StringExecFns;
use crate::api::{FunctionDeclaration, GenerationConfig, GenerationConfigView, SafetySetting, Tool};
use crate::chat::ChatSession;
use crate::content::{content_views, Content, ContentView};
use crate::{EmbedContentConfig, EmbedContentRequest, GeminiRequest, GeminiRequestView};

verus! {

/// The base URL of the Gemini API.
pub const BASE_URL: &'static str = "https://generativelanguage.googleapis.com/v1beta";

/// The Gemini models that can be selected.
#[derive(Debug, PartialEq, Eq)]
#[allow(non_camel_case_types)]
pub enum GeminiModel {
    /// The Gemini 1.5 Pro model.
    Pro_1_5,
    /// The Gemini 1.5 Flash model.
    Flash_1_5,
    /// The Gemini 1.5 Flash 8B model.
    Flash_1_5_8B,
    /// The Text Embedding 004 model.
    TextEmbedding004,
    /// A model given by its identifier.
    Custom(String),
}

impl Clone for GeminiModel {
    fn clone(&self) -> (r: GeminiModel)
        ensures
            r == *self,
    {
        match self {
            GeminiModel::Pro_1_5 => GeminiModel::Pro_1_5,
            GeminiModel::Flash_1_5 => GeminiModel::Flash_1_5,
            GeminiModel::Flash_1_5_8B => GeminiModel::Flash_1_5_8B,
            GeminiModel::TextEmbedding004 => GeminiModel::TextEmbedding004,
            GeminiModel::Custom(custom) => GeminiModel::Custom(custom.clone()),
        }
    }
}

impl Default for GeminiModel {
    fn default() -> (r: GeminiModel)
        ensures
            r == GeminiModel::Pro_1_5,
    {
        GeminiModel::Pro_1_5
    }
}

impl GeminiModel {
    /// The identifier under which the API knows the model.
    pub open spec fn identifier(self) -> Seq<char> {
        match self {
            GeminiModel::Pro_1_5 => "gemini-1.5-pro"@,
            GeminiModel::Flash_1_5 => "gemini-1.5-flash"@,
            GeminiModel::Flash_1_5_8B => "gemini-1.5-flash-8b"@,
            GeminiModel::TextEmbedding004 => "text-embedding-004"@,
            GeminiModel::Custom(custom) => custom@,
        }
    }

    /// The identifier under which the API knows the model, as text.
    pub fn name(&self) -> (name: String)
        ensures
            name@ == self.identifier(),
    {
        match self {
            GeminiModel::Pro_1_5 => String::from_str("gemini-1.5-pro"),
            GeminiModel::Flash_1_5 => String::from_str("gemini-1.5-flash"),
            GeminiModel::Flash_1_5_8B => String::from_str("gemini-1.5-flash-8b"),
            GeminiModel::TextEmbedding004 => String::from_str("text-embedding-004"),
            GeminiModel::Custom(custom) => custom.clone(),
        }
    }
}

/// The URL of one operation on one model: the base, `/models/`, the model's
/// identifier, a colon, the operation, and the key as the query.
pub open spec fn endpoint_of(
    base: Seq<char>,
    model: Seq<char>,
    operation: Seq<char>,
    key: Seq<char>,
) -> Seq<char> {
    base + "/models/"@ + model + ":"@ + operation + "?key="@ + key
}

/// Builds the URL of one operation on one model under `base`.
pub fn endpoint(base: &str, model: &str, operation: &str, key: &str) -> (url: String)
    ensures
        url@ == endpoint_of(base@, model@, operation@, key@),
{
    let mut url = String::from_str(base);
    url.append("/models/");
    url.append(model);
    url.append(":");
    url.append(operation);
    url.append("?key=");
    url.append(key);
    url
}

/// The first of two optional values that is set.
pub open spec fn first_set<T>(preferred: Option<T>, fallback: Option<T>) -> Option<T> {
    match preferred {
        Some(_) => preferred,
        None => fallback,
    }
}

/// The views of a sequence of tools, in order.
pub open spec fn tool_views(tools: Seq<Tool>) -> Seq<Seq<FunctionDeclaration>> {
    tools.map_values(|t: Tool| t@)
}

/// What an optional generation configuration holds.
pub open spec fn config_view(config: Option<GenerationConfig>) -> Option<GenerationConfigView> {
    match config {
        Some(config) => Some(config@),
        None => None,
    }
}

/// What an optional turn holds.
pub open spec fn instruction_view(instruction: Option<Content>) -> Option<ContentView> {
    match instruction {
        Some(content) => Some(content@),
        None => None,
    }
}

/// What an optional list of safety settings holds.
pub open spec fn settings_view(settings: Option<Vec<SafetySetting>>) -> Option<Seq<SafetySetting>> {
    match settings {
        Some(settings) => Some(settings@),
        None => None,
    }
}

/// What an optional list of tools holds.
pub open spec fn tools_view(tools: Option<Vec<Tool>>) -> Option<Seq<Seq<FunctionDeclaration>>> {
    match tools {
        Some(tools) => Some(tool_views(tools@)),
        None => None,
    }
}

fn clone_tools(tools: &Option<Vec<Tool>>) -> (copy: Option<Vec<Tool>>)
    ensures
        tools_view(copy) == tools_view(*tools),
{
    match tools {
        Some(tools) => {
            let copy = tools.clone();
            Some(copy)
        },
        None => None,
    }
}

fn clone_settings(settings: &Option<Vec<SafetySetting>>) -> (copy: Option<Vec<SafetySetting>>)
    ensures
        settings_view(copy) == settings_view(*settings),
{
    match settings {
        Some(settings) => {
            let copy = settings.clone();
            Some(copy)
        },
        None => None,
    }
}

fn clone_instruction(instruction: &Option<Content>) -> (copy: Option<Content>)
    ensures
        instruction_view(copy) == instruction_view(*instruction),
{
    match instruction {
        Some(content) => Some(content.clone()),
        None => None,
    }
}

fn clone_config(config: &Option<GenerationConfig>) -> (copy: Option<GenerationConfig>)
    ensures
        config_view(copy) == config_view(*config),
{
    match config {
        Some(config) => Some(config.clone()),
        None => None,
    }
}

/// A model handle: the key, the selected model and the defaults that every
/// call starts from.
#[derive(Debug)]
pub struct GenerativeModel {
    /// The API key used to authenticate requests.
    pub api_key: String,
    /// The model to use.
    pub model: GeminiModel,
    /// Default configuration for content generation.
    pub generation_config: Option<GenerationConfig>,
    /// Default instructions given to the model before the prompt.
    pub system_instruction: Option<Content>,
    /// Default safety settings.
    pub safety_settings: Option<Vec<SafetySetting>>,
    /// Default tools that the model can use.
    pub tools: Option<Vec<Tool>>,
}

/// What a `GenerativeModel` holds.
pub struct GenerativeModelView {
    pub api_key: Seq<char>,
    pub model: GeminiModel,
    pub generation_config: Option<GenerationConfigView>,
    pub system_instruction: Option<ContentView>,
    pub safety_settings: Option<Seq<SafetySetting>>,
    pub tools: Option<Seq<Seq<FunctionDeclaration>>>,
}

impl View for GenerativeModel {
    type V = GenerativeModelView;

    open spec fn view(&self) -> GenerativeModelView {
        GenerativeModelView {
            api_key: self.api_key@,
            model: self.model,
            generation_config: config_view(self.generation_config),
            system_instruction: instruction_view(self.system_instruction),
            safety_settings: settings_view(self.safety_settings),
            tools: tools_view(self.tools),
        }
    }
}

impl Clone for GenerativeModel {
    fn clone(&self) -> (r: GenerativeModel)
        ensures
            r@ == self@,
    {
        GenerativeModel {
            api_key: self.api_key.clone(),
            model: self.model.clone(),
            generation_config: clone_config(&self.generation_config),
            system_instruction: clone_instruction(&self.system_instruction),
            safety_settings: clone_settings(&self.safety_settings),
            tools: clone_tools(&self.tools),
        }
    }
}

/// Makes a `GenerativeModel`, and overrides a model's defaults for one call:
/// a field that is set takes the place of the model's own.
#[derive(Debug)]
pub struct GenerativeModelBuilder {
    pub api_key: Option<String>,
    pub model: Option<GeminiModel>,
    pub system_instruction: Option<Content>,
    pub safety_settings: Option<Vec<SafetySetting>>,
    pub generation_config: Option<GenerationConfig>,
    pub tools: Option<Vec<Tool>>,
}

/// What a `GenerativeModelBuilder` holds.
pub struct GenerativeModelBuilderView {
    pub api_key: Option<Seq<char>>,
    pub model: Option<GeminiModel>,
    pub system_instruction: Option<ContentView>,
    pub safety_settings: Option<Seq<SafetySetting>>,
    pub generation_config: Option<GenerationConfigView>,
    pub tools: Option<Seq<Seq<FunctionDeclaration>>>,
}

impl View for GenerativeModelBuilder {
    type V = GenerativeModelBuilderView;

    open spec fn view(&self) -> GenerativeModelBuilderView {
        GenerativeModelBuilderView {
            api_key: match self.api_key {
                Some(key) => Some(key@),
                None => None,
            },
            model: self.model,
            system_instruction: instruction_view(self.system_instruction),
            safety_settings: settings_view(self.safety_settings),
            generation_config: config_view(self.generation_config),
            tools: tools_view(self.tools),
        }
    }
}

impl GenerativeModelBuilderView {
    /// The builder with nothing set.
    pub open spec fn unset() -> GenerativeModelBuilderView {
        GenerativeModelBuilderView {
            api_key: None,
            model: None,
            system_instruction: None,
            safety_settings: None,
            generation_config: None,
            tools: None,
        }
    }

    /// The model that the builder gives: the key, the selected model or the
    /// default one, and the four defaults as they stand.
    pub open spec fn built(self) -> GenerativeModelView
        recommends
            self.api_key is Some,
    {
        GenerativeModelView {
            api_key: self.api_key.unwrap(),
            model: match self.model {
                Some(model) => model,
                None => GeminiModel::Pro_1_5,
            },
            generation_config: self.generation_config,
            system_instruction: self.system_instruction,
            safety_settings: self.safety_settings,
            tools: self.tools,
        }
    }
}

impl GenerativeModelBuilder {
    /// A builder with nothing set.
    pub fn new() -> (builder: GenerativeModelBuilder)
        ensures
            builder@ == GenerativeModelBuilderView::unset(),
    {
        GenerativeModelBuilder {
            api_key: None,
            model: None,
            system_instruction: None,
            safety_settings: None,
            generation_config: None,
            tools: None,
        }
    }

    /// Sets the API key.
    pub fn api_key(&mut self, api_key: &str) -> (builder: &mut Self)
        ensures
            builder@ == (GenerativeModelBuilderView { api_key: Some(api_key@), ..old(self)@ }),
            *final(self) == *final(builder),
    {
        self.api_key = Some(String::from_str(api_key));
        self
    }

    /// Selects the model.
    pub fn model(&mut self, model: GeminiModel) -> (builder: &mut Self)
        ensures
            builder@ == (GenerativeModelBuilderView { model: Some(model), ..old(self)@ }),
            *final(self) == *final(builder),
    {
        self.model = Some(model);
        self
    }

    /// Sets the system instruction.
    pub fn system_instruction(&mut self, system_instruction: Content) -> (builder: &mut Self)
        ensures
            builder@ == (GenerativeModelBuilderView {
                system_instruction: Some(system_instruction@),
                ..old(self)@
            }),
            *final(self) == *final(builder),
    {
        self.system_instruction = Some(system_instruction);
        self
    }

    /// Sets the generation configuration.
    pub fn generation_config(&mut self, config: GenerationConfig) -> (builder: &mut Self)
        ensures
            builder@ == (GenerativeModelBuilderView {
                generation_config: Some(config@),
                ..old(self)@
            }),
            *final(self) == *final(builder),
    {
        self.generation_config = Some(config);
        self
    }

    /// Adds a safety setting after those already there.
    pub fn safety_setting(&mut self, setting: SafetySetting) -> (builder: &mut Self)
        ensures
            builder@ == (GenerativeModelBuilderView {
                safety_settings: Some(
                    match old(self)@.safety_settings {
                        Some(settings) => settings.push(setting),
                        None => seq![setting],
                    },
                ),
                ..old(self)@
            }),
            *final(self) == *final(builder),
    {
        let mut settings: Vec<SafetySetting> = match self.safety_settings.take() {
            Some(settings) => settings,
            None => Vec::new(),
        };
        settings.push(setting);
        self.safety_settings = Some(settings);
        self
    }

    /// Adds a tool after those already there.
    pub fn tool(&mut self, tool: Tool) -> (builder: &mut Self)
        ensures
            builder@ == (GenerativeModelBuilderView {
                tools: Some(
                    match old(self)@.tools {
                        Some(tools) => tools.push(tool@),
                        None => seq![tool@],
                    },
                ),
                ..old(self)@
            }),
            *final(self) == *final(builder),
    {
        let mut tools: Vec<Tool> = match self.tools.take() {
            Some(tools) => tools,
            None => Vec::new(),
        };
        tools.push(tool);
        proof {
            match old(self).tools {
                Some(before) => {
                    assert(tool_views(tools@) =~= tool_views(before@).push(tool@));
                },
                None => {
                    assert(tool_views(tools@) =~= seq![tool@]);
                },
            }
        }
        self.tools = Some(tools);
        self
    }

    /// Builds the model from what was set and leaves the builder empty. The
    /// API key must have been set.
    pub fn build(&mut self) -> (model: GenerativeModel)
        requires
            old(self).api_key is Some,
        ensures
            model@ == old(self)@.built(),
            final(self)@ == GenerativeModelBuilderView::unset(),
    {
        let api_key = match self.api_key.take() {
            Some(key) => key,
            None => String::new(),
        };
        let model = match self.model.take() {
            Some(model) => model,
            None => GeminiModel::default(),
        };
        GenerativeModel {
            api_key,
            model,
            generation_config: self.generation_config.take(),
            system_instruction: self.system_instruction.take(),
            safety_settings: self.safety_settings.take(),
            tools: self.tools.take(),
        }
    }
}

/// The request that a model makes of a prompt under per-call overrides: for
/// each default, the override if it is set, else the model's own.
pub open spec fn request_of(
    model: GenerativeModelView,
    prompt: Seq<ContentView>,
    overrides: GenerativeModelBuilderView,
) -> GeminiRequestView {
    GeminiRequestView {
        contents: prompt,
        tools: first_set(overrides.tools, model.tools),
        safety_settings: first_set(overrides.safety_settings, model.safety_settings),
        system_instruction: first_set(overrides.system_instruction, model.system_instruction),
        generation_config: first_set(overrides.generation_config, model.generation_config),
    }
}

/// The operation that generates content, whole or streamed.
pub open spec fn generate_operation(stream: bool) -> Seq<char> {
    if stream {
        "streamGenerateContent"@
    } else {
        "generateContent"@
    }
}

/// The URL that a generation call posts to under `base`: the overriding
/// model if one is set, else the model's own, with the model's key.
pub open spec fn generate_url_of(
    base: Seq<char>,
    model: GenerativeModelView,
    overrides: GenerativeModelBuilderView,
    stream: bool,
) -> Seq<char> {
    endpoint_of(
        base,
        match overrides.model {
            Some(chosen) => chosen.identifier(),
            None => model.model.identifier(),
        },
        generate_operation(stream),
        model.api_key,
    )
}

impl GenerativeModel {
    /// Starts a chat session on a copy of the model, with the given history.
    pub fn start_chat(&self, history: Vec<Content>) -> (session: ChatSession)
        ensures
            session.model@ == self@,
            session.history == history,
    {
        ChatSession { model: self.clone(), history }
    }

    /// Builds the body of a generation request: the prompt, and for each
    /// default the override if it is set, else the model's own.
    pub fn build_request(&self, prompt: Vec<Content>, config: GenerativeModelBuilder) -> (request:
        GeminiRequest)
        ensures
            request@ == request_of(self@, content_views(prompt@), config@),
    {
        let tools = match config.tools {
            Some(tools) => Some(tools),
            None => clone_tools(&self.tools),
        };
        let safety_settings = match config.safety_settings {
            Some(settings) => Some(settings),
            None => clone_settings(&self.safety_settings),
        };
        let system_instruction = match config.system_instruction {
            Some(instruction) => Some(instruction),
            None => clone_instruction(&self.system_instruction),
        };
        let generation_config = match config.generation_config {
            Some(generation_config) => Some(generation_config),
            None => clone_config(&self.generation_config),
        };
        GeminiRequest {
            contents: prompt,
            tools,
            safety_settings,
            system_instruction,
            generation_config,
        }
    }

    /// The URL that a generation call posts to under `base`, which is
    /// `BASE_URL` unless another server is to be reached.
    pub fn generate_url(&self, base: &str, config: &GenerativeModelBuilder, stream: bool) -> (url:
        String)
        ensures
            url@ == generate_url_of(base@, self@, config@, stream),
    {
        let name = match &config.model {
            Some(chosen) => chosen.name(),
            None => self.model.name(),
        };
        let operation = if stream {
            "streamGenerateContent"
        } else {
            "generateContent"
        };
        endpoint(base, name.as_str(), operation, self.api_key.as_str())
    }

    /// The URL that an embedding call posts to under `base`.
    pub fn embed_url(&self, base: &str) -> (url: String)
        ensures
            url@ == endpoint_of(base@, self.model.identifier(), "embedContent"@, self.api_key@),
    {
        let name = self.model.name();
        endpoint(base, name.as_str(), "embedContent", self.api_key.as_str())
    }

    /// Builds the body of an embedding request.
    pub fn embed_request(&self, content: Content, config: EmbedContentConfig) -> (request:
        EmbedContentRequest)
        ensures
            request.content == content,
            request.config == config,
    {
        EmbedContentRequest { content, config }
    }
}

} // verus!
