//! The run as a whole: from what discovery and loading delivered to the
//! agent, and from what the completion client answered to what the run
//! reports. A file that could not be read is passed over; a pattern that was
//! rejected and a completion that failed end the run.

use vstd::prelude::*;
use crate::agent::{build_agent, model_identifier, Agent};
use crate::context::{context_of, entry_text};
use crate::loader::{
    ignore_errors, lemma_all_loaded_all_survive, lemma_surviving_count,
    lemma_surviving_was_loaded, loaded_count, outcome_views, surviving, DocumentView,
    ReadOutcome,
};

verus! {

/// An error that ends the run. Each kind keeps the description that the
/// failing part gave.
#[derive(Clone, Debug, PartialEq, Eq)]
pub enum FatalError {
    /// The glob pattern was rejected before any file was looked at.
    InvalidPattern(String),
    /// The completion client failed: transport, authentication or a
    /// response that could not be used.
    Completion(String),
}

/// The mathematical view of a [`FatalError`].
pub enum FatalErrorView {
    InvalidPattern(Seq<char>),
    Completion(Seq<char>),
}

impl FatalErrorView {
    /// The description that the error carries.
    pub open spec fn description(self) -> Seq<char> {
        match self {
            FatalErrorView::InvalidPattern(description) => description,
            FatalErrorView::Completion(description) => description,
        }
    }
}

impl View for FatalError {
    type V = FatalErrorView;

    open spec fn view(&self) -> FatalErrorView {
        match self {
            FatalError::InvalidPattern(description) => FatalErrorView::InvalidPattern(
                description@,
            ),
            FatalError::Completion(description) => FatalErrorView::Completion(description@),
        }
    }
}

impl FatalError {
    /// The description that came with the error.
    pub fn description(&self) -> (text: &String)
        ensures
            text@ == self@.description(),
    {
        match self {
            FatalError::InvalidPattern(description) => description,
            FatalError::Completion(description) => description,
        }
    }
}

/// The context that a run attaches to its agent when loading delivered
/// `outcomes`: the entries of the documents that were read, in their order.
pub open spec fn assembled_context(outcomes: Seq<Option<DocumentView>>) -> Seq<Seq<char>> {
    context_of(surviving(outcomes))
}

/// Turns the result of discovery and loading into the agent to prompt.
///
/// `discovery` is `Err` with a description when the pattern was rejected,
/// and otherwise holds one outcome for each path that matched, in the order
/// of discovery. A rejected pattern is the only failure: whatever the
/// outcomes are, and also when there is none, an agent comes back.
pub fn assemble(
    model: rig::providers::openai::CompletionModel,
    discovery: Result<Vec<ReadOutcome>, String>,
) -> (prepared: Result<Agent, FatalError>)
    ensures
        match discovery {
            Ok(outcomes) => prepared is Ok && prepared->Ok_0@.model == model_identifier(model)
                && prepared->Ok_0@.context == assembled_context(outcome_views(outcomes@)),
            Err(description) => prepared is Err && prepared->Err_0@
                == FatalErrorView::InvalidPattern(description@),
        },
{
    match discovery {
        Ok(outcomes) => Ok(build_agent(model, ignore_errors(outcomes))),
        Err(description) => Err(FatalError::InvalidPattern(description)),
    }
}

/// Turns the answer of the completion client into the result of the run:
/// the text to print, or the error that ends the run with nothing printed.
pub fn conclude(reply: Result<String, String>) -> (outcome: Result<String, FatalError>)
    ensures
        match reply {
            Ok(text) => outcome is Ok && outcome->Ok_0@ == text@,
            Err(description) => outcome is Err && outcome->Err_0@ == FatalErrorView::Completion(
                description@,
            ),
        },
{
    match reply {
        Ok(text) => Ok(text),
        Err(description) => Err(FatalError::Completion(description)),
    }
}

/// Whether `entry` is the entry of a document that one of `outcomes`
/// delivered.
pub open spec fn entry_of_loaded(outcomes: Seq<Option<DocumentView>>, entry: Seq<char>) -> bool {
    exists|j: int|
        0 <= j < outcomes.len() && (#[trigger] outcomes[j]) is Some && entry_text(outcomes[j]->0)
            == entry
}

/// The context holds exactly one entry for each file that was read, and
/// each entry is the entry of a document that some outcome delivered: a
/// failed read leaves no trace, so the entries are never more than the
/// paths that were discovered.
pub proof fn lemma_one_entry_per_loaded_file(outcomes: Seq<Option<DocumentView>>)
    ensures
        assembled_context(outcomes).len() == loaded_count(outcomes),
        assembled_context(outcomes).len() <= outcomes.len(),
        forall|i: int|
            0 <= i < assembled_context(outcomes).len() ==> entry_of_loaded(
                outcomes,
                #[trigger] assembled_context(outcomes)[i],
            ),
{
    lemma_surviving_count(outcomes);
    assert forall|i: int| 0 <= i < assembled_context(outcomes).len() implies entry_of_loaded(
        outcomes,
        #[trigger] assembled_context(outcomes)[i],
    ) by {
        lemma_surviving_was_loaded(outcomes, i);
        let j = choose|j: int|
            0 <= j < outcomes.len() && outcomes[j] == Some(surviving(outcomes)[i]);
        assert(outcomes[j] is Some && entry_text(outcomes[j]->0) == assembled_context(
            outcomes,
        )[i]);
    }
}

/// When every matched file was read, the context has as many entries as
/// there are files, and the entry at each position is that of the file at
/// that position.
pub proof fn lemma_all_read_all_present(outcomes: Seq<Option<DocumentView>>)
    requires
        forall|i: int| 0 <= i < outcomes.len() ==> outcomes[i] is Some,
    ensures
        assembled_context(outcomes).len() == outcomes.len(),
        forall|i: int|
            0 <= i < outcomes.len() ==> #[trigger] assembled_context(outcomes)[i] == entry_text(
                outcomes[i]->0,
            ),
{
    lemma_all_loaded_all_survive(outcomes);
}

/// The context is a function of what loading delivered: two runs whose
/// outcomes agree, position by position, in what was read attach the same
/// context, character for character.
pub proof fn lemma_same_snapshot_same_context(first: Seq<ReadOutcome>, second: Seq<ReadOutcome>)
    requires
        first.len() == second.len(),
        forall|i: int| 0 <= i < first.len() ==> first[i]@ == second[i]@,
    ensures
        assembled_context(outcome_views(first)) == assembled_context(outcome_views(second)),
{
    assert(outcome_views(first) =~= outcome_views(second));
}

/// Without a file that was read there is no context: this is so when
/// nothing matched the pattern and when every read failed.
pub proof fn lemma_nothing_read_no_context(outcomes: Seq<Option<DocumentView>>)
    requires
        loaded_count(outcomes) == 0,
    ensures
        assembled_context(outcomes) == Seq::<Seq<char>>::empty(),
{
    lemma_surviving_count(outcomes);
    assert(assembled_context(outcomes) =~= Seq::<Seq<char>>::empty());
}

} // verus!
