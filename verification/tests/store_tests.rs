use snippet_store::snippet::{Snippet, StartupError};
use snippet_store::store::{filter_matching, Store};

fn mem_store() -> Store {
    Store::open(":memory:").expect("an in-memory store opens")
}

#[test]
fn insert_then_search_by_title_and_by_content() {
    let mut store = mem_store();
    store.insert("todo", "buy milk").expect("insert succeeds");

    let by_title = store.search("todo").expect("search succeeds");
    assert_eq!(by_title.len(), 1);
    assert_eq!(by_title[0].title, "todo");
    assert_eq!(by_title[0].content, "buy milk");

    let by_content = store.search("buy milk").expect("search succeeds");
    assert_eq!(by_content.len(), 1);
    assert_eq!(by_content[0].title, "todo");
    assert_eq!(by_content[0].content, "buy milk");
}

#[test]
fn empty_query_returns_every_snippet() {
    let mut store = mem_store();
    store.insert("a", "first").expect("insert succeeds");
    store.insert("b", "second").expect("insert succeeds");
    store.insert("c", "third").expect("insert succeeds");

    let all = store.search("").expect("search succeeds");
    assert_eq!(all.len(), 3);
    let titles: Vec<&str> = all.iter().map(|s| s.title.as_str()).collect();
    assert_eq!(titles, vec!["a", "b", "c"]);
}

#[test]
fn repeated_search_returns_the_same_snippets() {
    let mut store = mem_store();
    store.insert("notes", "alpha beta").expect("insert succeeds");
    store.insert("other", "gamma").expect("insert succeeds");

    let first = store.search("a").expect("search succeeds");
    let second = store.search("a").expect("search succeeds");
    assert_eq!(first.len(), second.len());
    for (x, y) in first.iter().zip(second.iter()) {
        assert_eq!(x.id, y.id);
        assert_eq!(x.title, y.title);
        assert_eq!(x.content, y.content);
    }
}

#[test]
fn no_match_yields_empty() {
    let mut store = mem_store();
    store.insert("todo", "buy milk").expect("insert succeeds");
    let none = store.search("nonexistent").expect("search succeeds");
    assert!(none.is_empty());
}

#[test]
fn matching_is_case_sensitive() {
    let mut store = mem_store();
    store.insert("Alpha", "Beta").expect("insert succeeds");
    assert_eq!(store.search("Alpha").expect("search succeeds").len(), 1);
    assert!(store.search("alpha").expect("search succeeds").is_empty());
    assert!(store.search("beta").expect("search succeeds").is_empty());
}

#[test]
fn distinct_inserts_are_all_found() {
    let mut store = mem_store();
    let titles = ["one", "two", "three", "four", "five"];
    for t in titles {
        store.insert(t, "body").expect("insert succeeds");
    }
    for t in titles {
        let found = store.search(t).expect("search succeeds");
        assert_eq!(found.len(), 1, "exactly one row for title {t}");
        assert_eq!(found[0].title, t);
    }
    let all = store.search("").expect("search succeeds");
    assert_eq!(all.len(), titles.len());
}

#[test]
fn ids_are_present_and_unique() {
    let mut store = mem_store();
    store.insert("a", "x").expect("insert succeeds");
    store.insert("b", "y").expect("insert succeeds");
    store.insert("c", "z").expect("insert succeeds");
    let all = store.search("").expect("search succeeds");
    let mut ids: Vec<i64> = all.iter().map(|s| s.id).collect();
    let n = ids.len();
    ids.sort();
    ids.dedup();
    assert_eq!(ids.len(), n, "every snippet carries a distinct id");
    assert!(ids.iter().all(|&id| id > 0));
}

#[test]
fn persisted_rows_survive_within_one_handle() {
    let mut store = mem_store();
    store.insert("keep", "me").expect("insert succeeds");
    // An unrelated failed-match search does not disturb the store.
    let _ = store.search("zzz").expect("search succeeds");
    let all = store.search("").expect("search succeeds");
    assert_eq!(all.len(), 1);
    assert_eq!(all[0].title, "keep");
}

#[test]
fn filter_matching_filters_and_keeps_order() {
    let rows = vec![
        Snippet { id: 1, title: "alpha".to_owned(), content: "one".to_owned() },
        Snippet { id: 2, title: "beta".to_owned(), content: "two".to_owned() },
        Snippet { id: 3, title: "gamma".to_owned(), content: "alphabet".to_owned() },
    ];
    let hits = filter_matching(&rows, "alpha");
    assert_eq!(hits.len(), 2);
    assert_eq!(hits[0].id, 1);
    assert_eq!(hits[1].id, 3);
    let all = filter_matching(&rows, "");
    assert_eq!(all.len(), 3);
}

#[test]
fn open_on_bad_path_reports_store_unavailable() {
    let r = Store::open("/nonexistent-dir-xyz/sub/mysnippets.db");
    match r {
        Err(e) => assert_eq!(e, StartupError::StoreUnavailable),
        Ok(_) => panic!("opening under a missing directory must fail"),
    }
}
