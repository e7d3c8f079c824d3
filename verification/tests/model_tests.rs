use rusty_gemini::api::{
    Float32, Float64, FunctionDeclaration, GenerationConfig, GenerationKnob, HarmBlockThreshold,
    HarmCategory, ResponseMimeType, SafetySetting, Tool,
};
use rusty_gemini::content::{Content, Part, Role};
use rusty_gemini::model::{endpoint, GeminiModel, GenerativeModel, GenerativeModelBuilder, BASE_URL};
use rusty_gemini::EmbedContentConfig;

fn plain_model(key: &str) -> GenerativeModel {
    GenerativeModelBuilder::new().api_key(key).build()
}

fn tool(name: &str) -> Tool {
    Tool {
        function_declarations: vec![FunctionDeclaration {
            name: name.to_string(),
            description: "does things".to_string(),
        }],
    }
}

#[test]
fn base_url_is_the_v1beta_endpoint() {
    assert_eq!(BASE_URL, "https://generativelanguage.googleapis.com/v1beta");
}

#[test]
fn model_names_are_the_api_identifiers() {
    assert_eq!(GeminiModel::Pro_1_5.name(), "gemini-1.5-pro");
    assert_eq!(GeminiModel::Flash_1_5.name(), "gemini-1.5-flash");
    assert_eq!(GeminiModel::Flash_1_5_8B.name(), "gemini-1.5-flash-8b");
    assert_eq!(GeminiModel::TextEmbedding004.name(), "text-embedding-004");
    assert_eq!(GeminiModel::Custom("tuned-7".to_string()).name(), "tuned-7");
    assert_eq!(GeminiModel::default(), GeminiModel::Pro_1_5);
}

#[test]
fn endpoint_joins_its_pieces() {
    assert_eq!(endpoint("http://h/v1", "m", "op", "k"), "http://h/v1/models/m:op?key=k");
    assert_eq!(endpoint("", "", "", ""), "/models/:?key=");
}

#[test]
fn new_builder_has_nothing_set() {
    let builder = GenerativeModelBuilder::new();
    assert!(builder.api_key.is_none());
    assert!(builder.model.is_none());
    assert!(builder.system_instruction.is_none());
    assert!(builder.safety_settings.is_none());
    assert!(builder.generation_config.is_none());
    assert!(builder.tools.is_none());
}

#[test]
fn build_takes_what_was_set_and_empties_the_builder() {
    let mut builder = GenerativeModelBuilder::new();
    builder
        .api_key("secret")
        .model(GeminiModel::Flash_1_5)
        .system_instruction(Content::user(Part::text("be brief")))
        .generation_config(GenerationConfig { top_k: Some(3), ..GenerationConfig::default() })
        .safety_setting(SafetySetting {
            category: HarmCategory::Harassment,
            threshold: HarmBlockThreshold::Low,
        })
        .safety_setting(SafetySetting {
            category: HarmCategory::HateSpeech,
            threshold: HarmBlockThreshold::BlockNone,
        })
        .tool(tool("first"))
        .tool(tool("second"));
    let model = builder.build();
    assert_eq!(model.api_key, "secret");
    assert_eq!(model.model, GeminiModel::Flash_1_5);
    assert_eq!(model.system_instruction, Some(Content::user(Part::text("be brief"))));
    assert_eq!(model.generation_config.as_ref().unwrap().top_k, Some(3));
    let settings = model.safety_settings.as_ref().unwrap();
    assert_eq!(settings.len(), 2);
    assert_eq!(settings[0].category, HarmCategory::Harassment);
    assert_eq!(settings[0].threshold, HarmBlockThreshold::Low);
    assert_eq!(settings[1].category, HarmCategory::HateSpeech);
    assert_eq!(settings[1].threshold, HarmBlockThreshold::BlockNone);
    let tools = model.tools.as_ref().unwrap();
    assert_eq!(tools.len(), 2);
    assert_eq!(tools[0].function_declarations[0].name, "first");
    assert_eq!(tools[1].function_declarations[0].name, "second");
    assert!(builder.api_key.is_none());
    assert!(builder.model.is_none());
    assert!(builder.system_instruction.is_none());
    assert!(builder.safety_settings.is_none());
    assert!(builder.generation_config.is_none());
    assert!(builder.tools.is_none());
}

#[test]
fn build_without_a_model_selects_the_default() {
    let model = plain_model("k");
    assert_eq!(model.model, GeminiModel::Pro_1_5);
    assert!(model.tools.is_none());
    assert!(model.safety_settings.is_none());
    assert!(model.system_instruction.is_none());
    assert!(model.generation_config.is_none());
}

#[test]
fn generate_url_names_model_operation_and_key() {
    let model = plain_model("K");
    let none = GenerativeModelBuilder::new();
    assert_eq!(
        model.generate_url(BASE_URL, &none, false),
        "https://generativelanguage.googleapis.com/v1beta/models/gemini-1.5-pro:generateContent?key=K"
    );
    assert_eq!(
        model.generate_url(BASE_URL, &none, true),
        "https://generativelanguage.googleapis.com/v1beta/models/gemini-1.5-pro:streamGenerateContent?key=K"
    );
}

#[test]
fn generate_url_prefers_the_overriding_model() {
    let model = plain_model("K");
    let mut overrides = GenerativeModelBuilder::new();
    overrides.model(GeminiModel::Custom("tuned".to_string())).api_key("ignored");
    assert_eq!(
        model.generate_url(BASE_URL, &overrides, false),
        "https://generativelanguage.googleapis.com/v1beta/models/tuned:generateContent?key=K"
    );
}

#[test]
fn embed_url_names_the_embedding_operation() {
    let model = GenerativeModelBuilder::new()
        .api_key("K")
        .model(GeminiModel::TextEmbedding004)
        .build();
    assert_eq!(
        model.embed_url(BASE_URL),
        "https://generativelanguage.googleapis.com/v1beta/models/text-embedding-004:embedContent?key=K"
    );
}

#[test]
fn request_takes_the_models_defaults_when_nothing_overrides() {
    let model = GenerativeModelBuilder::new()
        .api_key("K")
        .system_instruction(Content::user(Part::text("default")))
        .generation_config(GenerationConfig {
            max_output_tokens: Some(10),
            ..GenerationConfig::default()
        })
        .safety_setting(SafetySetting {
            category: HarmCategory::DangerousContent,
            threshold: HarmBlockThreshold::High,
        })
        .tool(tool("default-tool"))
        .build();
    let prompt = vec![Content::user(Part::text("hi"))];
    let request = model.build_request(prompt.clone(), GenerativeModelBuilder::new());
    assert_eq!(request.contents, prompt);
    assert_eq!(request.system_instruction, Some(Content::user(Part::text("default"))));
    assert_eq!(request.generation_config.unwrap().max_output_tokens, Some(10));
    let settings = request.safety_settings.unwrap();
    assert_eq!(settings.len(), 1);
    assert_eq!(settings[0].category, HarmCategory::DangerousContent);
    let tools = request.tools.unwrap();
    assert_eq!(tools.len(), 1);
    assert_eq!(tools[0].function_declarations[0].name, "default-tool");
    assert!(model.tools.is_some());
}

#[test]
fn request_takes_each_override_that_is_set() {
    let model = GenerativeModelBuilder::new()
        .api_key("K")
        .system_instruction(Content::user(Part::text("default")))
        .tool(tool("default-tool"))
        .build();
    let mut overrides = GenerativeModelBuilder::new();
    overrides
        .system_instruction(Content::user(Part::text("override")))
        .generation_config(GenerationConfig {
            candidate_count: Some(2),
            ..GenerationConfig::default()
        });
    let request = model.build_request(vec![Content::user(Part::text("hi"))], overrides);
    assert_eq!(request.system_instruction, Some(Content::user(Part::text("override"))));
    assert_eq!(request.generation_config.unwrap().candidate_count, Some(2));
    assert_eq!(request.tools.unwrap()[0].function_declarations[0].name, "default-tool");
    assert!(request.safety_settings.is_none());
}

#[test]
fn request_of_a_plain_model_leaves_every_option_unset() {
    let model = plain_model("K");
    let request = model.build_request(Vec::new(), GenerativeModelBuilder::new());
    assert!(request.contents.is_empty());
    assert!(request.tools.is_none());
    assert!(request.safety_settings.is_none());
    assert!(request.system_instruction.is_none());
    assert!(request.generation_config.is_none());
}

#[test]
fn embed_request_holds_content_and_config() {
    let model = plain_model("K");
    let config = EmbedContentConfig {
        task_type: None,
        title: Some("t".to_string()),
        output_dimensionality: Some(8),
    };
    let request = model.embed_request(Content::user(Part::text("embed me")), config);
    assert_eq!(request.content.role, Role::User);
    assert_eq!(request.content.parts, vec![Part::text("embed me")]);
    assert_eq!(request.config.title.as_deref(), Some("t"));
    assert_eq!(request.config.output_dimensionality, Some(8));
    let unset = EmbedContentConfig::default();
    assert!(unset.task_type.is_none() && unset.title.is_none());
    assert!(unset.output_dimensionality.is_none());
}

#[test]
fn unset_generation_config_has_no_field_set() {
    let config = GenerationConfig::default();
    assert!(config.stop_sequences.is_none());
    assert!(config.response_mime_type.is_none());
    assert!(config.candidate_count.is_none());
    assert!(config.max_output_tokens.is_none());
    assert!(config.temperature.is_none());
    assert!(config.top_p.is_none());
    assert!(config.top_k.is_none());
    assert!(config.presence_penalty.is_none());
    assert!(config.frequence_penalty.is_none());
    assert!(config.response_logprobs.is_none());
}

#[test]
fn cloned_model_holds_the_same_values() {
    let model = GenerativeModelBuilder::new()
        .api_key("K")
        .model(GeminiModel::Custom("m".to_string()))
        .tool(tool("t"))
        .build();
    let copy = model.clone();
    assert_eq!(copy.api_key, "K");
    assert_eq!(copy.model, GeminiModel::Custom("m".to_string()));
    assert_eq!(copy.tools.unwrap()[0].function_declarations[0].name, "t");
}

#[test]
fn urls_follow_an_injected_base() {
    let model = plain_model("K");
    let none = GenerativeModelBuilder::new();
    assert_eq!(
        model.generate_url("http://127.0.0.1:8080", &none, true),
        "http://127.0.0.1:8080/models/gemini-1.5-pro:streamGenerateContent?key=K"
    );
    assert_eq!(
        model.embed_url("http://127.0.0.1:8080"),
        "http://127.0.0.1:8080/models/gemini-1.5-pro:embedContent?key=K"
    );
}

#[test]
fn unset_generation_config_writes_no_key() {
    assert_eq!(GenerationConfig::default().written_knobs(), Vec::<GenerationKnob>::new());
}

#[test]
fn set_knobs_are_written_in_order() {
    let config = GenerationConfig {
        top_k: Some(40),
        stop_sequences: Some(vec!["END".to_string()]),
        temperature: Some(Float32 { bits: 0.5f32.to_bits() }),
        ..GenerationConfig::default()
    };
    assert_eq!(
        config.written_knobs(),
        vec![GenerationKnob::StopSequences, GenerationKnob::Temperature, GenerationKnob::TopK]
    );
    let full = GenerationConfig {
        stop_sequences: Some(Vec::new()),
        response_mime_type: Some(ResponseMimeType::ApplicationJson),
        candidate_count: Some(1),
        max_output_tokens: Some(2),
        temperature: Some(Float32 { bits: 1.0f32.to_bits() }),
        top_p: Some(Float64 { bits: 0.9f64.to_bits() }),
        top_k: Some(3),
        presence_penalty: Some(Float32 { bits: 0 }),
        frequence_penalty: Some(Float32 { bits: 0 }),
        response_logprobs: Some(false),
    };
    let keys: Vec<&str> = full.written_knobs().into_iter().map(|k| k.wire_key()).collect();
    assert_eq!(
        keys,
        vec![
            "stopSequences",
            "responseMimeType",
            "candidateCount",
            "maxOutputTokens",
            "temperature",
            "topP",
            "topK",
            "presencePenalty",
            "frequencePenalty",
            "responseLogprobs"
        ]
    );
}
