//! The text of a context entry: a label that names the document's path,
//! followed by the document's content.

use vstd::prelude::*;
use vstd::string::StringExecFns;
use crate::loader::{DocumentView, SourceDocument};

verus! {

/// The quoted form in which `{:?}` prints a string slice: the text between
/// double quotes, with the characters escaped that the standard library
/// escapes there.
pub uninterp spec fn debug_quoted(text: Seq<char>) -> Seq<char>;

/// What every entry starts with.
pub open spec fn entry_prefix() -> Seq<char> {
    "Rust Example "@
}

/// What stands between the quoted path and the content.
pub open spec fn entry_separator() -> Seq<char> {
    ":\n"@
}

/// An entry made of a path that is already quoted and of a content.
pub open spec fn labelled(quoted: Seq<char>, content: Seq<char>) -> Seq<char> {
    entry_prefix() + quoted + entry_separator() + content
}

/// The context entry of one document.
pub open spec fn entry_text(document: DocumentView) -> Seq<char> {
    labelled(debug_quoted(document.path), document.content)
}

/// The context entries of a list of documents: one for each, in their order.
pub open spec fn context_of(documents: Seq<DocumentView>) -> Seq<Seq<char>> {
    Seq::new(documents.len(), |i: int| entry_text(documents[i]))
}

/// Formats `text` with the `Debug` implementation of `str`, through
/// `format!("{:?}", ..)`. Trusted, not proved: the result is a function of
/// the text alone. Which characters are escaped, and how, is left to the
/// standard library and is not spelled out here.
#[verifier::external_body]
fn debug_quote(text: &str) -> (quoted: String)
    ensures
        quoted@ == debug_quoted(text@),
{
    format!("{:?}", text)
}

/// Puts the label in front of a content. `quoted` is the path as it is to
/// appear in the label; the content is taken over unchanged, line breaks
/// included.
pub fn label_entry(quoted: &str, content: &str) -> (entry: String)
    ensures
        entry@ == labelled(quoted@, content@),
{
    let mut entry = String::from_str("Rust Example ");
    entry.append(quoted);
    entry.append(":\n");
    entry.append(content);
    entry
}

/// The context entry of `document`: its path in quoted form inside the
/// label, then its content.
pub fn context_entry(document: &SourceDocument) -> (entry: String)
    ensures
        entry@ == entry_text(document@),
{
    let quoted = debug_quote(document.path.as_str());
    label_entry(quoted.as_str(), document.content.as_str())
}

/// The items of `items` picked by the positions in `order`, in that order.
pub open spec fn rearranged<T>(items: Seq<T>, order: Seq<int>) -> Seq<T> {
    Seq::new(order.len(), |k: int| items[order[k]])
}

/// The context follows the order of the documents and nothing else: when
/// the documents are handed over in another order, their entries stand in
/// that order. This holds of every choice of positions, so of every
/// permutation.
pub proof fn lemma_context_follows_order(documents: Seq<DocumentView>, order: Seq<int>)
    requires
        forall|k: int| 0 <= k < order.len() ==> 0 <= #[trigger] order[k] < documents.len(),
    ensures
        context_of(rearranged(documents, order)) == rearranged(context_of(documents), order),
{
    assert(context_of(rearranged(documents, order)) =~= rearranged(
        context_of(documents),
        order,
    ));
}

/// A list of documents has one entry for each document, at the document's
/// position: none is merged, cut or left out, and one that occurs twice
/// has two entries.
pub proof fn lemma_context_entry_at(documents: Seq<DocumentView>, i: int)
    requires
        0 <= i < documents.len(),
    ensures
        context_of(documents).len() == documents.len(),
        context_of(documents)[i] == entry_text(documents[i]),
        entry_text(documents[i]) == entry_prefix() + debug_quoted(documents[i].path)
            + entry_separator() + documents[i].content,
{
}

} // verus!
