use rusty_gemini::api::{Candidate, UsageMetadata};
use rusty_gemini::content::{Content, Part, Role};
use rusty_gemini::error::{GeminiError, GeminiErrorKind};
use rusty_gemini::model::GenerativeModelBuilder;
use rusty_gemini::GeminiResponse;

fn candidate(parts: Vec<Part>) -> Candidate {
    Candidate {
        content: Content { role: Role::Model, parts },
        safety_ratings: None,
        citation_metadata: None,
        finish_reason: None,
        grounding_attributions: None,
    }
}

fn response(candidates: Vec<Candidate>) -> GeminiResponse {
    GeminiResponse {
        candidates,
        usage_metadata: UsageMetadata {
            prompt_token_count: Some(1),
            candidates_token_count: Some(1),
            cached_content_token_count: None,
            total_token_count: Some(2),
        },
        prompt_feedback: None,
    }
}

#[test]
fn successful_exchange_appends_user_and_model_turns() {
    let model = GenerativeModelBuilder::new().api_key("K").build();
    let mut chat = model.start_chat(Vec::new());
    let prompt = chat.begin_turn(Content::user(Part::text("hi")));
    assert_eq!(prompt, vec![Content::user(Part::text("hi"))]);
    let outcome = chat.end_turn(Ok(response(vec![candidate(vec![Part::text("hello")])])));
    assert_eq!(outcome.unwrap().text(), "hello");
    assert_eq!(
        chat.history,
        vec![Content::user(Part::text("hi")), Content::model(Part::text("hello"))]
    );
}

#[test]
fn failed_exchange_keeps_the_user_turn_and_adds_no_model_turn() {
    let model = GenerativeModelBuilder::new().api_key("K").build();
    let mut chat = model.start_chat(Vec::new());
    let prompt = chat.begin_turn(Content::user(Part::text("hi")));
    assert_eq!(prompt.len(), 1);
    let outcome = chat.end_turn(Err(GeminiError::message("connection reset")));
    let err = outcome.unwrap_err();
    assert_eq!(err.kind, GeminiErrorKind::Other);
    assert_eq!(err.message, "connection reset");
    assert_eq!(chat.history, vec![Content::user(Part::text("hi"))]);
}

#[test]
fn prompt_is_the_whole_history() {
    let model = GenerativeModelBuilder::new().api_key("K").build();
    let earlier = vec![Content::user(Part::text("a")), Content::model(Part::text("b"))];
    let mut chat = model.start_chat(earlier.clone());
    assert_eq!(chat.model.api_key, "K");
    assert_eq!(chat.history, earlier);
    let prompt = chat.begin_turn(Content::user(Part::text("c")));
    assert_eq!(prompt.len(), 3);
    assert_eq!(prompt, chat.history);
    assert_eq!(prompt[2], Content::user(Part::text("c")));
}

#[test]
fn only_the_first_candidate_enters_the_history() {
    let model = GenerativeModelBuilder::new().api_key("K").build();
    let mut chat = model.start_chat(Vec::new());
    chat.begin_turn(Content::user(Part::text("q")));
    let both = response(vec![
        candidate(vec![Part::text("first")]),
        candidate(vec![Part::text("second")]),
    ]);
    chat.end_turn(Ok(both)).unwrap();
    assert_eq!(chat.history.len(), 2);
    assert_eq!(chat.history[1], Content::model(Part::text("first")));
}

#[test]
fn candidate_text_joins_the_text_parts_in_order() {
    let c = candidate(vec![
        Part::text("a"),
        Part::Data { data: vec![1, 2, 3], mime_type: "image/png".to_string() },
        Part::text("b"),
        Part::text(""),
        Part::text("c d"),
    ]);
    assert_eq!(c.text(), "abc d");
    assert_eq!(candidate(Vec::new()).text(), "");
    assert_eq!(
        candidate(vec![Part::Data { data: vec![], mime_type: "x/y".to_string() }]).text(),
        ""
    );
}

#[test]
fn response_text_is_the_text_of_the_first_candidate() {
    let r = response(vec![
        candidate(vec![Part::text("one"), Part::text(" two")]),
        candidate(vec![Part::text("other")]),
    ]);
    assert_eq!(r.text(), "one two");
}
