//! The persisted entity of the store — a snippet with a store-assigned id,
//! a title and a content — together with the error taxonomy and the
//! specification of which snippets a search query matches.

use vstd::prelude::*;
use crate::text::{contains_seq, contains_str};

verus! {

/// A persisted snippet. The id is assigned by the store on creation and is
/// unique within one store; a snippet is never mutated once created.
pub struct Snippet {
    pub id: i64,
    pub title: String,
    pub content: String,
}

impl View for Snippet {
    type V = (int, Seq<char>, Seq<char>);

    open spec fn view(&self) -> (int, Seq<char>, Seq<char>) {
        (self.id as int, self.title@, self.content@)
    }
}

impl Clone for Snippet {
    /// A clone carries the same id, title and content.
    fn clone(&self) -> (r: Self)
        ensures
            r@ == self@,
    {
        Snippet { id: self.id, title: self.title.clone(), content: self.content.clone() }
    }
}

/// The rows a sequence of snippets stands for.
pub open spec fn views_of(ss: Seq<Snippet>) -> Seq<(int, Seq<char>, Seq<char>)> {
    ss.map_values(|s: Snippet| s@)
}

/// A row matches a query when the query occurs as a substring of its title
/// or of its content (either suffices; the empty query matches every row).
pub open spec fn row_matches(row: (int, Seq<char>, Seq<char>), q: Seq<char>) -> bool {
    contains_seq(row.1, q) || contains_seq(row.2, q)
}

/// What a search returns: the rows that match `q`, kept in store order.
pub open spec fn search_spec(
    rows: Seq<(int, Seq<char>, Seq<char>)>,
    q: Seq<char>,
) -> Seq<(int, Seq<char>, Seq<char>)> {
    rows.filter(|row: (int, Seq<char>, Seq<char>)| row_matches(row, q))
}

/// Decides whether a snippet matches a query, by the same policy that
/// `row_matches` states: case-sensitive substring containment in the title
/// or in the content.
pub fn snippet_matches(s: &Snippet, query: &str) -> (r: bool)
    ensures
        r == row_matches(s@, query@),
{
    contains_str(s.title.as_str(), query) || contains_str(s.content.as_str(), query)
}

/// The store file could not be opened or created: fatal at startup.
/// Its sibling `SchemaError` means the snippet table could not be ensured.
#[derive(Clone, Copy, PartialEq, Eq, Structural, Debug)]
pub enum StartupError {
    StoreUnavailable,
    SchemaError,
}

/// An underlying write failed while appending a snippet; non-fatal, the
/// store is left unchanged.
#[derive(Clone, Copy, PartialEq, Eq, Structural, Debug)]
pub struct InsertError;

/// An underlying read failed while searching; non-fatal, callers fall back
/// to an empty result.
#[derive(Clone, Copy, PartialEq, Eq, Structural, Debug)]
pub struct SearchError;

} // verus!
