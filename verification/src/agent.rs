//! The context assembler: folds documents, in order, into the context of an
//! agent that is bound to a completion model.

use vstd::prelude::*;
use crate::context::{context_entry, context_of};
use crate::loader::{document_views, SourceDocument};

verus! {

/// The handle of an OpenAI completion model, taken from rig as it is.
/// Contracts see nothing of it but the identifier that
/// [`model_identifier`] names.
#[verifier::external_type_specification]
#[verifier::external_body]
pub struct ExCompletionModel(rig::providers::openai::CompletionModel);

/// An agent under construction: rig's builder for an OpenAI agent.
///
/// rig bounds the builder's type parameter by a trait of its own, which
/// Verus cannot take in a declaration of the outside type. The builder is
/// therefore kept in a struct whose body Verus does not read;
/// [`builder_model`] and [`builder_context`] name what it holds, and only
/// the three functions below that call rig touch the field.
#[verifier::external_body]
pub struct AgentBuilder {
    inner: rig::agent::AgentBuilder<rig::providers::openai::CompletionModel>,
}

/// A finished agent: rig's agent for an OpenAI completion model, kept like
/// the builder in a struct whose body Verus does not read. The field is
/// what a caller prompts; [`agent_model`] and [`agent_context`] name what it
/// holds.
#[verifier::external_body]
pub struct Agent {
    pub inner: rig::agent::Agent<rig::providers::openai::CompletionModel>,
}

/// The model identifier that a completion model handle carries.
pub uninterp spec fn model_identifier(model: rig::providers::openai::CompletionModel) -> Seq<char>;

/// The identifier of the model that a builder was made with.
pub uninterp spec fn builder_model(builder: AgentBuilder) -> Seq<char>;

/// The texts of the static context documents of a builder, oldest first.
pub uninterp spec fn builder_context(builder: AgentBuilder) -> Seq<Seq<char>>;

/// The identifier of the model that an agent is bound to.
pub uninterp spec fn agent_model(agent: Agent) -> Seq<char>;

/// The texts of the static context documents of an agent, in the order in
/// which they are sent with every prompt.
pub uninterp spec fn agent_context(agent: Agent) -> Seq<Seq<char>>;

/// The mathematical view of an [`Agent`].
pub struct AgentView {
    pub model: Seq<char>,
    pub context: Seq<Seq<char>>,
}

impl View for Agent {
    type V = AgentView;

    open spec fn view(&self) -> AgentView {
        AgentView { model: agent_model(*self), context: agent_context(*self) }
    }
}

/// Calls `rig::agent::AgentBuilder::new`. Trusted, not proved: the new
/// builder keeps the model it is given and starts with no context document.
#[verifier::external_body]
fn builder_new(model: rig::providers::openai::CompletionModel) -> (builder: AgentBuilder)
    ensures
        builder_model(builder) == model_identifier(model),
        builder_context(builder) == Seq::<Seq<char>>::empty(),
{
    AgentBuilder { inner: rig::agent::AgentBuilder::new(model) }
}

/// Calls `rig::agent::AgentBuilder::context`. Trusted, not proved: the call
/// appends one document with `entry` as its text behind those already
/// there, and leaves the model and the earlier documents as they were.
#[verifier::external_body]
fn builder_add(builder: AgentBuilder, entry: &str) -> (next: AgentBuilder)
    ensures
        builder_model(next) == builder_model(builder),
        builder_context(next) == builder_context(builder).push(entry@),
{
    AgentBuilder { inner: builder.inner.context(entry) }
}

/// Calls `rig::agent::AgentBuilder::build`. Trusted, not proved: the agent
/// takes over the builder's model and its context documents, in their
/// order.
#[verifier::external_body]
fn builder_finish(builder: AgentBuilder) -> (agent: Agent)
    ensures
        agent_model(agent) == builder_model(builder),
        agent_context(agent) == builder_context(builder),
{
    Agent { inner: builder.inner.build() }
}

/// Builds an agent bound to `model` whose context holds one entry for each
/// of `documents`, in their order. Nothing is cut, merged or left out: a
/// path that occurs twice gives two entries.
pub fn build_agent(
    model: rig::providers::openai::CompletionModel,
    documents: Vec<SourceDocument>,
) -> (agent: Agent)
    ensures
        agent@.model == model_identifier(model),
        agent@.context == context_of(document_views(documents@)),
{
    let ghost wanted = context_of(document_views(documents@));
    let mut builder = builder_new(model);
    let mut i: usize = 0;
    while i < documents.len()
        invariant
            i <= documents.len(),
            wanted == context_of(document_views(documents@)),
            builder_model(builder) == model_identifier(model),
            builder_context(builder) == wanted.take(i as int),
        decreases documents.len() - i,
    {
        let entry = context_entry(&documents[i]);
        builder = builder_add(builder, entry.as_str());
        i = i + 1;
        assert(wanted.take(i as int) == wanted.take(i - 1).push(wanted[i - 1]));
    }
    assert(wanted.take(i as int) == wanted);
    builder_finish(builder)
}

} // verus!
