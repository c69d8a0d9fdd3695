//! The handler: one stateless function per invocation, mapping an event and
//! its invocation context to the fixed greeting document, plus proofs that
//! neither the event nor the context can change that output.

use vstd::prelude::*;
use crate::json::{JsonDoc, JsonModel};

verus! {

/// Per-invocation metadata handed over by the hosting runtime. The handler
/// accepts it and ignores it; it is modelled so that the contracts can say
/// so.
#[derive(Debug, PartialEq, Eq)]
pub struct InvocationContext {
    /// Identifier of this invocation.
    pub request_id: String,
    /// Deadline of this invocation, in milliseconds since the epoch.
    pub deadline_ms: u64,
}

/// The mathematical view of an invocation context.
pub struct ContextModel {
    pub request_id: Seq<char>,
    pub deadline_ms: u64,
}

impl View for InvocationContext {
    type V = ContextModel;

    open spec fn view(&self) -> ContextModel {
        ContextModel { request_id: self.request_id@, deadline_ms: self.deadline_ms }
    }
}

/// The key of the one field of the response document.
pub open spec fn message_key() -> Seq<char> {
    "message"@
}

/// The constant greeting the handler always returns.
pub open spec fn greeting_text() -> Seq<char> {
    "Hello from Rust Lambda!"@
}

/// The response document: an object with the single field
/// `message` holding the greeting.
pub open spec fn response_model() -> JsonModel {
    JsonModel::Obj(seq![(message_key(), JsonModel::Text(greeting_text()))])
}

/// What the handler computes: the fixed response, whatever the event and
/// the context hold.
pub open spec fn handler_model(event: JsonModel, ctx: ContextModel) -> JsonModel {
    response_model()
}

/// Builds the response document.
pub fn response() -> (r: JsonDoc)
    ensures
        r@ == response_model(),
{
    let key: String = "message".to_owned();
    let text: String = "Hello from Rust Lambda!".to_owned();
    let mut fields: Vec<(String, JsonDoc)> = Vec::new();
    fields.push((key, JsonDoc::Text(text)));
    let r = JsonDoc::Obj(fields);
    proof {
        assert(fields@.subrange(0, 0) =~= Seq::<(String, JsonDoc)>::empty());
        reveal_with_fuel(crate::json::fields_model, 2);
        assert(crate::json::fields_model(fields@) =~~= seq![
            (message_key(), JsonModel::Text(greeting_text())),
        ]);
        assert(r@ =~~= response_model());
    }
    r
}

/// Maps one event and its context to the response. Always succeeds: any
/// well-formed document is accepted, and the result is the fixed greeting
/// document, independent of both arguments.
pub fn handle(event: JsonDoc, ctx: InvocationContext) -> (r: JsonDoc)
    ensures
        r@ == handler_model(event@, ctx@),
        r@ == response_model(),
{
    response()
}

/// The handler is a constant function: for every event and every context,
/// its output is exactly the fixed greeting document.
pub proof fn lemma_handler_returns_greeting(event: JsonModel, ctx: ContextModel)
    ensures
        handler_model(event, ctx) == response_model(),
{
}

/// The output is invariant under the event: the handler never lets the
/// event's content alter what it returns.
pub proof fn lemma_output_independent_of_event(
    e1: JsonModel,
    e2: JsonModel,
    ctx: ContextModel,
)
    ensures
        handler_model(e1, ctx) == handler_model(e2, ctx),
{
}

/// The invocation context never affects the output.
pub proof fn lemma_output_independent_of_context(
    event: JsonModel,
    c1: ContextModel,
    c2: ContextModel,
)
    ensures
        handler_model(event, c1) == handler_model(event, c2),
{
}

/// Idempotence: repeated invocations, with the same or different inputs,
/// always yield the same output document.
pub proof fn lemma_handler_idempotent(
    e1: JsonModel,
    c1: ContextModel,
    e2: JsonModel,
    c2: ContextModel,
)
    ensures
        handler_model(e1, c1) == handler_model(e2, c2),
{
}

} // verus!
