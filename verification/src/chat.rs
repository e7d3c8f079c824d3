//! A chat session: a model and the history of the turns exchanged with it.

use vstd::prelude::*;
use crate::content::{clone_contents, content_views, Content, ContentView};
use crate::error::GeminiError;
use crate::model::GenerativeModel;
use crate::GeminiResponse;

verus! {

/// A model together with the ordered history of one conversation.
#[derive(Debug)]
pub struct ChatSession {
    pub model: GenerativeModel,
    pub history: Vec<Content>,
}

/// The history once the user's turn has been appended to it.
pub open spec fn history_with_turn(history: Seq<ContentView>, turn: ContentView) -> Seq<
    ContentView,
> {
    history.push(turn)
}

/// The history once an exchange has ended: with the model's turn appended
/// where there is one, unchanged where the call failed.
pub open spec fn history_with_reply(history: Seq<ContentView>, reply: Option<ContentView>) -> Seq<
    ContentView,
> {
    match reply {
        Some(turn) => history.push(turn),
        None => history,
    }
}

/// The model's turn in the outcome of a call: the content of the first
/// candidate of a response, and nothing for a failure.
pub open spec fn reply_of(outcome: Result<GeminiResponse, GeminiError>) -> Option<ContentView>
    recommends
        outcome is Ok ==> outcome.unwrap().candidates@.len() > 0,
{
    match outcome {
        Ok(response) => Some(response.candidates@[0].content@),
        Err(_) => None,
    }
}

impl ChatSession {
    /// Opens an exchange: appends the user's turn to the history and hands
    /// back a copy of the whole history, which is the prompt to send.
    pub fn begin_turn(&mut self, content: Content) -> (prompt: Vec<Content>)
        ensures
            final(self).model == old(self).model,
            final(self).history@ == old(self).history@.push(content),
            content_views(final(self).history@) == history_with_turn(
                content_views(old(self).history@),
                content@,
            ),
            content_views(prompt@) == content_views(final(self).history@),
    {
        self.history.push(content);
        clone_contents(&self.history)
    }

    /// Closes an exchange with the outcome of the call: a response adds the
    /// content of its first candidate to the history as the model's turn, a
    /// failure leaves the history as it is. The outcome is handed back.
    pub fn end_turn(&mut self, outcome: Result<GeminiResponse, GeminiError>) -> (r: Result<
        GeminiResponse,
        GeminiError,
    >)
        requires
            outcome is Ok ==> outcome.unwrap().candidates@.len() > 0,
        ensures
            r == outcome,
            final(self).model == old(self).model,
            content_views(final(self).history@) == history_with_reply(
                content_views(old(self).history@),
                reply_of(outcome),
            ),
            outcome is Err ==> final(self).history@ == old(self).history@,
    {
        match &outcome {
            Ok(response) => {
                let reply = response.candidates[0].content.clone();
                self.history.push(reply);
                assert(content_views(self.history@) =~= content_views(old(self).history@).push(
                    reply@,
                ));
            },
            Err(_) => {},
        }
        outcome
    }
}

/// A successful exchange grows the history by exactly two turns: the user's
/// turn, then the content of the response's first candidate.
pub proof fn lemma_exchange_appends_both_turns(
    history: Seq<ContentView>,
    turn: ContentView,
    response: GeminiResponse,
)
    requires
        response.candidates@.len() > 0,
    ensures
        history_with_reply(history_with_turn(history, turn), reply_of(Ok(response))) == history
            + seq![turn, response.candidates@[0].content@],
{
    assert(history.push(turn).push(response.candidates@[0].content@) =~= history + seq![
        turn,
        response.candidates@[0].content@,
    ]);
}

/// A failed exchange leaves the user's turn in the history and adds no
/// model turn.
pub proof fn lemma_failed_exchange_keeps_user_turn(
    history: Seq<ContentView>,
    turn: ContentView,
    failure: GeminiError,
)
    ensures
        history_with_reply(history_with_turn(history, turn), reply_of(Err(failure)))
            == history.push(turn),
{
}

} // verus!
