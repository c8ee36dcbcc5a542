//! The resilient loader: keeps the documents that were read and drops the
//! entries whose read failed.

use vstd::prelude::*;

verus! {

/// The mathematical view of a [`SourceDocument`].
pub struct DocumentView {
    pub path: Seq<char>,
    pub content: Seq<char>,
}

/// A file that was read: where it was found and its whole text.
#[derive(Clone, Debug, PartialEq, Eq)]
pub struct SourceDocument {
    pub path: String,
    pub content: String,
}

impl View for SourceDocument {
    type V = DocumentView;

    open spec fn view(&self) -> DocumentView {
        DocumentView { path: self.path@, content: self.content@ }
    }
}

/// The result of trying to read one discovered path.
#[derive(Clone, Debug, PartialEq, Eq)]
pub enum ReadOutcome {
    /// The file was read in full.
    Loaded(SourceDocument),
    /// The read failed; nothing is kept of it.
    Failed,
}

impl View for ReadOutcome {
    type V = Option<DocumentView>;

    open spec fn view(&self) -> Option<DocumentView> {
        match self {
            ReadOutcome::Loaded(document) => Some(document@),
            ReadOutcome::Failed => None,
        }
    }
}

/// The views of a list of outcomes, in order.
pub open spec fn outcome_views(outcomes: Seq<ReadOutcome>) -> Seq<Option<DocumentView>> {
    Seq::new(outcomes.len(), |i: int| outcomes[i]@)
}

/// The views of a list of documents, in order.
pub open spec fn document_views(documents: Seq<SourceDocument>) -> Seq<DocumentView> {
    Seq::new(documents.len(), |i: int| documents[i]@)
}

/// The documents among `outcomes`, in the order in which they occur there.
pub open spec fn surviving(outcomes: Seq<Option<DocumentView>>) -> Seq<DocumentView>
    decreases outcomes.len(),
{
    if outcomes.len() == 0 {
        Seq::empty()
    } else {
        let earlier = surviving(outcomes.drop_last());
        match outcomes.last() {
            Some(document) => earlier.push(document),
            None => earlier,
        }
    }
}

/// How many of `outcomes` are documents.
pub open spec fn loaded_count(outcomes: Seq<Option<DocumentView>>) -> nat
    decreases outcomes.len(),
{
    if outcomes.len() == 0 {
        0
    } else if outcomes.last() is Some {
        loaded_count(outcomes.drop_last()) + 1
    } else {
        loaded_count(outcomes.drop_last())
    }
}

/// Drops every failed read and hands out the documents that remain, in the
/// order in which they were read.
pub fn ignore_errors(outcomes: Vec<ReadOutcome>) -> (documents: Vec<SourceDocument>)
    ensures
        document_views(documents@) == surviving(outcome_views(outcomes@)),
{
    let ghost all = outcome_views(outcomes@);
    let mut documents: Vec<SourceDocument> = Vec::new();
    for outcome in iter: outcomes
        invariant
            iter.seq() == outcomes@,
            all == outcome_views(outcomes@),
            document_views(documents@) == surviving(all.take(iter.index() as int)),
    {
        let ghost done = iter.index() as int;
        proof {
            assert(all.take(done + 1).drop_last() == all.take(done));
            assert(all.take(done + 1).last() == outcome@);
        }
        match outcome {
            ReadOutcome::Loaded(document) => {
                let ghost before = documents@;
                documents.push(document);
                assert(document_views(documents@) == document_views(before).push(document@));
            },
            ReadOutcome::Failed => {},
        }
    }
    proof {
        assert(all.take(all.len() as int) == all);
    }
    documents
}

/// Every outcome that is a document adds exactly one document, and a failed
/// read adds none: there are as many surviving documents as loaded outcomes,
/// and never more than there are outcomes.
pub proof fn lemma_surviving_count(outcomes: Seq<Option<DocumentView>>)
    ensures
        surviving(outcomes).len() == loaded_count(outcomes),
        loaded_count(outcomes) <= outcomes.len(),
    decreases outcomes.len(),
{
    if outcomes.len() > 0 {
        lemma_surviving_count(outcomes.drop_last());
    }
}

/// The survivors of a list that was read in two parts are the survivors of
/// the first part followed by those of the second: dropping failed reads
/// neither reorders nor repeats a document.
pub proof fn lemma_surviving_concat(
    first: Seq<Option<DocumentView>>,
    second: Seq<Option<DocumentView>>,
)
    ensures
        surviving(first + second) == surviving(first) + surviving(second),
    decreases second.len(),
{
    if second.len() == 0 {
        assert(first + second == first);
        assert(surviving(first) + surviving(second) == surviving(first));
    } else {
        lemma_surviving_concat(first, second.drop_last());
        assert((first + second).drop_last() == first + second.drop_last());
        assert((first + second).last() == second.last());
        match second.last() {
            Some(document) => {
                assert((surviving(first) + surviving(second.drop_last())).push(document)
                    == surviving(first) + surviving(second.drop_last()).push(document));
            },
            None => {},
        }
    }
}

/// Each surviving document was delivered by some outcome: nothing is made
/// up, and nothing comes from a failed read.
pub proof fn lemma_surviving_was_loaded(outcomes: Seq<Option<DocumentView>>, i: int)
    requires
        0 <= i < surviving(outcomes).len(),
    ensures
        outcomes.contains(Some(surviving(outcomes)[i])),
    decreases outcomes.len(),
{
    if outcomes.len() > 0 {
        let earlier = outcomes.drop_last();
        if i < surviving(earlier).len() {
            lemma_surviving_was_loaded(earlier, i);
            let j = choose|j: int| 0 <= j < earlier.len() && earlier[j] == Some(surviving(earlier)[i]);
            assert(outcomes[j] == Some(surviving(outcomes)[i]));
        } else {
            assert(outcomes[outcomes.len() - 1] == Some(surviving(outcomes)[i]));
        }
    }
}

/// When every read succeeded, the survivors are the documents of the
/// outcomes, one for one.
pub proof fn lemma_all_loaded_all_survive(outcomes: Seq<Option<DocumentView>>)
    requires
        forall|i: int| 0 <= i < outcomes.len() ==> outcomes[i] is Some,
    ensures
        surviving(outcomes) == Seq::new(outcomes.len(), |i: int| outcomes[i]->0),
    decreases outcomes.len(),
{
    if outcomes.len() > 0 {
        lemma_all_loaded_all_survive(outcomes.drop_last());
    }
    assert(surviving(outcomes) =~= Seq::new(outcomes.len(), |i: int| outcomes[i]->0));
}

} // verus!
