//! The store: exclusive owner of the single persistent database handle.
//! All persisted state is modelled as the sequence of rows of the snippet
//! table in ascending id order; the SQLite calls stand behind trusted
//! wrappers whose contracts speak of that sequence, and everything around
//! them — the search filter above all — is verified against it.

use vstd::prelude::*;
use vstd::seq_lib::group_seq_properties;
use crate::snippet::{Snippet, StartupError, InsertError, SearchError};
use crate::snippet::{views_of, row_matches, search_spec, snippet_matches};

verus! {

#[verifier::external_type_specification]
#[verifier::external_body]
pub struct ExConnection(rusqlite::Connection);

#[verifier::external_type_specification]
#[verifier::external_body]
pub struct ExSqlError(rusqlite::Error);

/// The rows of the snippet table reachable through a connection, in
/// ascending id order, each read as (id, title, content): the contents of
/// the store that the connection exclusively owns.
pub uninterp spec fn db_rows(conn: rusqlite::Connection) -> Seq<(int, Seq<char>, Seq<char>)>;

/// `id` is larger than every id in `rows`, so in particular no row of
/// `rows` carries it.
pub open spec fn id_fresh(rows: Seq<(int, Seq<char>, Seq<char>)>, id: int) -> bool {
    forall|k: int| 0 <= k < rows.len() ==> (#[trigger] rows[k]).0 < id
}

/// What one successful insert does to the store: the new contents are the
/// old ones followed by one row (title, content) under a fresh id.
pub open spec fn inserted(
    old_rows: Seq<(int, Seq<char>, Seq<char>)>,
    new_rows: Seq<(int, Seq<char>, Seq<char>)>,
    title: Seq<char>,
    content: Seq<char>,
) -> bool {
    exists|id: int|
        #[trigger] id_fresh(old_rows, id) && new_rows == old_rows.push((id, title, content))
}

/// Relies on rusqlite::Connection::open: opens or creates the file-backed
/// database at `path`; fails if the file cannot be opened or created.
/// Nothing is known of the contents of a freshly opened store — they are
/// whatever an earlier process persisted.
#[verifier::external_body]
fn conn_open(path: &str) -> (r: Result<rusqlite::Connection, rusqlite::Error>) {
    rusqlite::Connection::open(path)
}

/// Relies on rusqlite::Connection::execute running a single
/// CREATE TABLE IF NOT EXISTS statement: idempotently ensures the snippet
/// table exists. Creating a table neither adds nor removes a row, and a
/// failed DDL statement changes nothing, so the contents stay as they were
/// either way.
#[verifier::external_body]
fn conn_init_schema(conn: &mut rusqlite::Connection) -> (r: Result<(), rusqlite::Error>)
    ensures
        db_rows(*final(conn)) == db_rows(*old(conn)),
{
    let res = conn.execute(
        "CREATE TABLE IF NOT EXISTS snippets (
            id INTEGER PRIMARY KEY AUTOINCREMENT,
            title TEXT NOT NULL,
            content TEXT NOT NULL
        )",
        [],
    );
    match res {
        Ok(_) => Ok(()),
        Err(e) => Err(e),
    }
}

/// Relies on rusqlite::Connection::execute running a single INSERT
/// statement on the snippet table: on success exactly one row is appended,
/// and its id — the AUTOINCREMENT primary key — is larger than every id
/// ever used in the table, hence fresh. A failed statement changes
/// nothing.
#[verifier::external_body]
fn conn_insert(conn: &mut rusqlite::Connection, title: &str, content: &str) -> (r: Result<
    (),
    rusqlite::Error,
>)
    ensures
        r is Ok ==> inserted(db_rows(*old(conn)), db_rows(*final(conn)), title@, content@),
        r is Err ==> db_rows(*final(conn)) == db_rows(*old(conn)),
{
    let res = conn.execute(
        "INSERT INTO snippets (title, content) VALUES (?1, ?2)",
        (title, content),
    );
    match res {
        Ok(_) => Ok(()),
        Err(e) => Err(e),
    }
}

/// Relies on rusqlite::Connection::prepare and Statement::query_map running
/// a single SELECT over the snippet table with ORDER BY id: on success it
/// returns every row, in ascending id order, each read as
/// (id, title, content) — exactly the store's contents.
#[verifier::external_body]
fn conn_select_all(conn: &rusqlite::Connection) -> (r: Result<Vec<Snippet>, rusqlite::Error>)
    ensures
        r matches Ok(v) ==> views_of(v@) == db_rows(*conn),
{
    let mut stmt = conn.prepare("SELECT id, title, content FROM snippets ORDER BY id")?;
    let rows = stmt.query_map([], |row| {
        Ok(Snippet { id: row.get(0)?, title: row.get(1)?, content: row.get(2)? })
    })?;
    let mut out = Vec::new();
    for row in rows {
        out.push(row?);
    }
    Ok(out)
}

/// Owns the single persistence handle for the process lifetime. Exclusive
/// access (`&mut` for writes, `&` for reads) serializes every operation
/// against the handle: an insert and a search can never interleave.
pub struct Store {
    conn: rusqlite::Connection,
}

impl View for Store {
    type V = Seq<(int, Seq<char>, Seq<char>)>;

    /// A store is its persisted rows, in ascending id order.
    closed spec fn view(&self) -> Seq<(int, Seq<char>, Seq<char>)> {
        db_rows(self.conn)
    }
}

impl Store {
    /// Opens or creates the file-backed store at `path` and idempotently
    /// ensures the snippet schema exists, so that no operation ever runs
    /// without it. `StoreUnavailable` when the file cannot be opened or
    /// created, `SchemaError` when the schema statement fails: both are
    /// fatal at startup, the underlying store decides which occurs.
    pub fn open(path: &str) -> (r: Result<Store, StartupError>) {
        match conn_open(path) {
            Ok(mut conn) => match conn_init_schema(&mut conn) {
                Ok(_) => Ok(Store { conn }),
                Err(_) => Err(StartupError::SchemaError),
            },
            Err(_) => Err(StartupError::StoreUnavailable),
        }
    }

    /// Appends one snippet. On success the store holds exactly its old
    /// rows followed by the new one, under a fresh store-assigned id; on
    /// failure — the underlying store decides — the store is unchanged and
    /// the caller is told, non-fatally.
    pub fn insert(&mut self, title: &str, content: &str) -> (r: Result<(), InsertError>)
        ensures
            r is Ok ==> inserted(old(self)@, final(self)@, title@, content@),
            r is Err ==> final(self)@ == old(self)@,
    {
        match conn_insert(&mut self.conn, title, content) {
            Ok(_) => Ok(()),
            Err(_) => Err(InsertError),
        }
    }

    /// Returns every stored snippet whose title or content contains
    /// `query` as a case-sensitive substring, in store order; the empty
    /// query matches every snippet. A pure read: the result is a function
    /// of the store's contents and the query alone. Fails — with the store
    /// unread and unchanged — only when the underlying read fails.
    pub fn search(&self, query: &str) -> (r: Result<Vec<Snippet>, SearchError>)
        ensures
            r matches Ok(v) ==> views_of(v@) == search_spec(self@, query@),
    {
        match conn_select_all(&self.conn) {
            Ok(rows) => Ok(filter_matching(&rows, query)),
            Err(_) => Err(SearchError),
        }
    }
}

/// Keeps exactly the snippets that match `query`, in their given order:
/// the verified filtering half of a search, applied to whatever rows the
/// underlying store handed back.
pub fn filter_matching(snippets: &Vec<Snippet>, query: &str) -> (r: Vec<Snippet>)
    ensures
        views_of(r@) == search_spec(views_of(snippets@), query@),
{
    broadcast use group_seq_properties;

    let ghost all = views_of(snippets@);
    let ghost pred = |row: (int, Seq<char>, Seq<char>)| row_matches(row, query@);
    let mut out: Vec<Snippet> = Vec::new();
    let mut i: usize = 0;
    while i < snippets.len()
        invariant
            i <= snippets@.len(),
            all == views_of(snippets@),
            pred == (|row: (int, Seq<char>, Seq<char>)| row_matches(row, query@)),
            views_of(out@) == all.take(i as int).filter(pred),
        decreases snippets@.len() - i,
    {
        let s = &snippets[i];
        proof {
            assert(all.take(i + 1) =~= all.take(i as int) + seq![s@]);
            Seq::filter_distributes_over_add(all.take(i as int), seq![s@], pred);
            reveal(Seq::filter);
            let single = seq![s@];
            let emp = Seq::<(int, Seq<char>, Seq<char>)>::empty();
            assert(single.drop_last() =~= emp);
            assert(single.last() == s@);
            assert(emp.filter(pred) =~= emp);
            assert(single.filter(pred) =~= (if pred(s@) { emp.push(s@) } else { emp }));
            assert(single.filter(pred) =~= (if pred(s@) { single } else { emp }));
        }
        if snippet_matches(s, query) {
            let ghost prev = out@;
            out.push(s.clone());
            proof {
                assert(views_of(out@) =~= views_of(prev).push(s@));
            }
        } else {
            proof {
                assert(views_of(out@) =~= all.take(i as int).filter(pred) + Seq::<
                    (int, Seq<char>, Seq<char>),
                >::empty());
            }
        }
        i += 1;
    }
    proof {
        assert(all.take(snippets@.len() as int) =~= all);
    }
    out
}

} // verus!
