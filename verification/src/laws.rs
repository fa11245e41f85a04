//! Properties of the insert and search specifications, proved once and for
//! all over the store's mathematical model: what any store whose
//! operations meet the contracts of `crate::store` therefore guarantees.

use vstd::prelude::*;
use crate::text::{lemma_contains_self, lemma_contains_empty};
use crate::snippet::{row_matches, search_spec};
use crate::store::{id_fresh, inserted};

verus! {

/// After a successful insert of a non-empty (title, content) pair, a
/// search for the title and a search for the content each yield the newly
/// stored snippet: the row carrying the fresh id with exactly that title
/// and content.
pub proof fn lemma_insert_then_search_finds(
    old_rows: Seq<(int, Seq<char>, Seq<char>)>,
    new_rows: Seq<(int, Seq<char>, Seq<char>)>,
    title: Seq<char>,
    content: Seq<char>,
)
    requires
        title.len() > 0,
        content.len() > 0,
        inserted(old_rows, new_rows, title, content),
    ensures
        exists|id: int|
            #[trigger] id_fresh(old_rows, id) && search_spec(new_rows, title).contains(
                (id, title, content),
            ) && search_spec(new_rows, content).contains((id, title, content)),
{
    let id = choose|id: int|
        #[trigger] id_fresh(old_rows, id) && new_rows == old_rows.push((id, title, content));
    let row = (id, title, content);
    let at = old_rows.len() as int;
    lemma_contains_self(title);
    lemma_contains_self(content);
    assert(new_rows[at] == row);
    assert(row_matches(row, title));
    assert(row_matches(row, content));
    new_rows.lemma_filter_contains(
        |r: (int, Seq<char>, Seq<char>)| row_matches(r, title),
        at,
    );
    new_rows.lemma_filter_contains(
        |r: (int, Seq<char>, Seq<char>)| row_matches(r, content),
        at,
    );
}

/// The empty query matches every snippet: a search with it returns the
/// store's whole contents, unchanged and in order.
pub proof fn lemma_empty_query_returns_all(rows: Seq<(int, Seq<char>, Seq<char>)>)
    ensures
        search_spec(rows, Seq::<char>::empty()) == rows,
    decreases rows.len(),
{
    reveal(Seq::filter);
    let pred = |row: (int, Seq<char>, Seq<char>)| row_matches(row, Seq::<char>::empty());
    if rows.len() == 0 {
        assert(rows.filter(pred) =~= rows);
    } else {
        lemma_empty_query_returns_all(rows.drop_last());
        lemma_contains_empty(rows.last().1);
        assert(pred(rows.last()));
        assert(rows.filter(pred) == rows.drop_last().filter(pred).push(rows.last()));
        assert(rows.filter(pred) =~= rows);
    }
}

/// A search is a pure read: it takes the store by shared reference and its
/// result is a function of the contents and the query alone, so two
/// searches with the same query and no intervening insert return one and
/// the same sequence of snippets.
pub proof fn lemma_search_repeatable(
    rows: Seq<(int, Seq<char>, Seq<char>)>,
    q: Seq<char>,
    r1: Seq<(int, Seq<char>, Seq<char>)>,
    r2: Seq<(int, Seq<char>, Seq<char>)>,
)
    requires
        r1 == search_spec(rows, q),
        r2 == search_spec(rows, q),
    ensures
        r1 == r2,
{
}

/// One insert loses no row and duplicates no row: every existing row is
/// still present, unchanged and in place, and the one new row carries an
/// id that no existing row carries.
pub proof fn lemma_insert_loses_nothing(
    old_rows: Seq<(int, Seq<char>, Seq<char>)>,
    new_rows: Seq<(int, Seq<char>, Seq<char>)>,
    title: Seq<char>,
    content: Seq<char>,
)
    requires
        inserted(old_rows, new_rows, title, content),
    ensures
        new_rows.len() == old_rows.len() + 1,
        forall|k: int| 0 <= k < old_rows.len() ==> new_rows[k] == old_rows[k],
        forall|k: int| 0 <= k < old_rows.len() ==> (#[trigger] old_rows[k]).0 != new_rows.last().0,
{
    let id = choose|id: int|
        #[trigger] id_fresh(old_rows, id) && new_rows == old_rows.push((id, title, content));
    assert(new_rows.last() == (id, title, content));
}

/// Every stored row is found again by a search for its own title and by a
/// search for its own content; with `lemma_insert_loses_nothing` this
/// gives the many-inserts guarantee: after any number of inserts, each
/// inserted row is still found by its own search.
pub proof fn lemma_stored_row_found(rows: Seq<(int, Seq<char>, Seq<char>)>, k: int)
    requires
        0 <= k < rows.len(),
    ensures
        search_spec(rows, rows[k].1).contains(rows[k]),
        search_spec(rows, rows[k].2).contains(rows[k]),
{
    lemma_contains_self(rows[k].1);
    lemma_contains_self(rows[k].2);
    rows.lemma_filter_contains(|r: (int, Seq<char>, Seq<char>)| row_matches(r, rows[k].1), k);
    rows.lemma_filter_contains(|r: (int, Seq<char>, Seq<char>)| row_matches(r, rows[k].2), k);
}

} // verus!
