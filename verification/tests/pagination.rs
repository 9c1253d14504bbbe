use gobang::app::Action;
use gobang::app::App;
use gobang::app::Focus;
use gobang::app::TableData;
use gobang::components::databases::Database;
use gobang::components::EventState;
use gobang::config::BackendKind;
use gobang::config::Config;
use gobang::config::Connection;
use gobang::database::DbError;
use gobang::key::Key;

fn demo_config(page_size: usize) -> Config {
    let mut config = Config::default();
    config.page_size = page_size;
    config.conn = vec![Connection {
        kind: BackendKind::Sqlite,
        name: String::from("demo"),
        url: String::from("sqlite://demo.db"),
    }];
    config
}

/// The backend's rows for the demo table: N single-cell rows "r0".."rN-1".
fn source(n: usize) -> Vec<Vec<String>> {
    (0..n).map(|i| vec![format!("r{}", i)]).collect()
}

/// What one fetch returns: at most `page_size` rows starting at `offset`.
fn page(src: &[Vec<String>], offset: usize, page_size: usize) -> Vec<Vec<String>> {
    src.iter()
        .skip(offset)
        .take(page_size)
        .cloned()
        .collect()
}

/// Builds an app focused on the data view with the demo table selected and
/// its first page loaded.
fn app_with_table(n_rows: usize, page_size: usize) -> (App, Vec<Vec<String>>) {
    let src = source(n_rows);
    let mut app = App::new(demo_config(page_size));
    let schema = vec![Database {
        name: String::from("db"),
        tables: vec![String::from("t")],
    }];
    let adapter = app.update_databases(BackendKind::Sqlite, Ok(schema));
    assert!(adapter.is_some());
    assert!(matches!(app.focus, Focus::DatabaseTree));
    // walk the tree: database node, then its table node
    assert_eq!(app.event(Key::Char('j')).0, EventState::Consumed);
    assert_eq!(app.event(Key::Char('j')).0, EventState::Consumed);
    let (state, action) = app.event(Key::Enter);
    assert_eq!(state, EventState::Consumed);
    match action {
        Some(Action::SelectTable { database, table }) => {
            assert_eq!(database, "db");
            assert_eq!(table, "t");
        }
        _ => panic!("confirming a table node must request its first page"),
    }
    app.finish_select_table(
        String::from("db"),
        String::from("t"),
        Ok(TableData {
            headers: vec![String::from("c")],
            rows: page(&src, 0, page_size),
            properties: vec![vec![String::from("c"), String::from("text")]],
        }),
    );
    assert!(matches!(app.focus, Focus::DataView));
    (app, src)
}

#[test]
fn twenty_one_rows_page_size_ten() {
    let (mut app, src) = app_with_table(21, 10);
    assert_eq!(app.record_table.table.rows.len(), 10);
    assert!(!app.record_table.table.eod);
    // reaching row index 9 (the 10th row) triggers exactly one fetch at offset 10
    for _ in 0..8 {
        let (_, action) = app.event(Key::Char('j'));
        assert!(action.is_none());
    }
    let (_, action) = app.event(Key::Char('j'));
    match action {
        Some(Action::FetchNextPage { offset, filter, .. }) => {
            assert_eq!(offset, 10);
            assert!(filter.is_none());
        }
        _ => panic!("the page boundary must trigger a fetch"),
    }
    app.finish_next_page(Ok(page(&src, 10, 10)));
    assert_eq!(app.record_table.table.rows.len(), 20);
    assert!(!app.record_table.table.eod);
    // reaching row index 19 triggers one fetch at offset 20
    for _ in 0..9 {
        let (_, action) = app.event(Key::Char('j'));
        assert!(action.is_none());
    }
    let (_, action) = app.event(Key::Char('j'));
    match action {
        Some(Action::FetchNextPage { offset, .. }) => assert_eq!(offset, 20),
        _ => panic!("the second page boundary must trigger a fetch"),
    }
    // that fetch returns one row and sets end-of-data
    app.finish_next_page(Ok(page(&src, 20, 10)));
    assert_eq!(app.record_table.table.rows.len(), 21);
    assert!(app.record_table.table.eod);
    // row index 20 triggers no further fetch
    let (_, action) = app.event(Key::Char('j'));
    assert!(action.is_none());
    assert_eq!(app.record_table.table.rows.len(), 21);
}

#[test]
fn exact_multiple_ends_on_empty_page() {
    let (mut app, src) = app_with_table(20, 10);
    for _ in 0..9 {
        app.event(Key::Char('j'));
    }
    app.finish_next_page(Ok(page(&src, 10, 10)));
    assert_eq!(app.record_table.table.rows.len(), 20);
    assert!(!app.record_table.table.eod);
    for _ in 0..9 {
        app.event(Key::Char('j'));
    }
    let (_, action) = app.event(Key::Char('j'));
    match action {
        Some(Action::FetchNextPage { offset, .. }) => assert_eq!(offset, 20),
        _ => panic!("a full cache without end-of-data must still probe"),
    }
    // the empty page is the sole end-of-data signal
    app.finish_next_page(Ok(page(&src, 20, 10)));
    assert_eq!(app.record_table.table.rows.len(), 20);
    assert!(app.record_table.table.eod);
}

#[test]
fn short_first_page_sets_end_of_data() {
    let (app, _) = app_with_table(3, 10);
    assert_eq!(app.record_table.table.rows.len(), 3);
    assert!(app.record_table.table.eod);
}

#[test]
fn select_table_resets_cache() {
    let (mut app, _) = app_with_table(21, 10);
    assert!(!app.record_table.table.rows.is_empty());
    // force end-of-data, then re-select: the cache must come back empty
    app.record_table.table.end();
    assert!(app.record_table.table.eod);
    app.event(Key::Char('h')); // back to the tree
    let (state, action) = app.event(Key::Enter);
    assert_eq!(state, EventState::Consumed);
    assert!(matches!(action, Some(Action::SelectTable { .. })));
    assert!(app.record_table.table.rows.is_empty());
    assert!(!app.record_table.table.eod);
    assert!(app.record_table.table.selected_table.is_none());
}

#[test]
fn failed_page_fetch_preserves_rows() {
    let (mut app, src) = app_with_table(21, 10);
    for _ in 0..9 {
        app.event(Key::Char('j'));
    }
    app.finish_next_page(Ok(page(&src, 10, 10)));
    assert_eq!(app.record_table.table.rows.len(), 20);
    // a network drop mid-pagination keeps what was already fetched
    app.finish_next_page(Err(DbError::QueryError(String::from("connection reset"))));
    assert_eq!(app.record_table.table.rows.len(), 20);
    assert!(app.error.visible);
    assert_eq!(app.error.message, "connection reset");
}

#[test]
fn filter_confirm_refetches_from_zero() {
    let (mut app, _) = app_with_table(21, 10);
    // '/' focuses the filter, the text is typed, enter confirms
    assert_eq!(app.event(Key::Char('/')).0, EventState::Consumed);
    assert!(app.record_table.filter_focused());
    app.event(Key::Char('a'));
    app.event(Key::Char('b'));
    let (state, action) = app.event(Key::Enter);
    assert_eq!(state, EventState::Consumed);
    match action {
        Some(Action::FilterRecords { database, table, filter }) => {
            assert_eq!(database, "db");
            assert_eq!(table, "t");
            assert_eq!(filter, Some(vec!['a', 'b']));
        }
        _ => panic!("confirming the filter must refetch from offset zero"),
    }
    assert!(!app.record_table.filter_focused());
    // the refetched page replaces the cache and clears end-of-data bookkeeping
    app.update_record_table(
        String::from("db"),
        String::from("t"),
        Ok((vec![String::from("c")], vec![vec![String::from("r7")]])),
    );
    assert_eq!(app.record_table.table.rows.len(), 1);
    assert!(app.record_table.table.eod);
}

#[test]
fn copy_hands_out_the_selected_cell() {
    let (mut app, _) = app_with_table(21, 10);
    app.event(Key::Char('j'));
    let (state, action) = app.event(Key::Char('y'));
    assert_eq!(state, EventState::Consumed);
    match action {
        Some(Action::CopyCell { text }) => assert_eq!(text, "r1"),
        _ => panic!("the copy binding must hand out the selected cell"),
    }
}

#[test]
fn filter_confirm_without_table_fetches_nothing() {
    let mut app = App::new(demo_config(10));
    app.focus = Focus::DataView;
    assert_eq!(app.event(Key::Char('/')).0, EventState::Consumed);
    let (state, action) = app.event(Key::Enter);
    assert_eq!(state, EventState::Consumed);
    assert!(action.is_none());
    assert!(app.record_table.table.rows.is_empty());
    assert!(!app.record_table.table.eod);
}

#[test]
fn properties_panel_takes_scroll_keys() {
    let (mut app, _) = app_with_table(21, 10);
    app.event(Key::Tab);
    app.event(Key::Tab);
    assert_eq!(app.properties.rows.len(), 1);
    let (state, action) = app.event(Key::Char('j'));
    assert_eq!(state, EventState::Consumed);
    assert!(action.is_none());
}

#[test]
fn query_console_round_trip() {
    let (mut app, _) = app_with_table(21, 10);
    // cycle to the query console
    app.event(Key::Tab);
    app.event(Key::Char('s'));
    app.event(Key::Char('e'));
    app.event(Key::Char('l'));
    let (state, action) = app.event(Key::Enter);
    assert_eq!(state, EventState::Consumed);
    match action {
        Some(Action::ExecuteQuery { query }) => assert_eq!(query, vec!['s', 'e', 'l']),
        _ => panic!("enter in the console must execute the query"),
    }
    app.finish_query(Ok((
        vec![String::from("n")],
        vec![vec![String::from("1")]],
    )));
    assert_eq!(app.sql_editor.result_rows.len(), 1);
    // a failing query only surfaces the error
    app.finish_query(Err(DbError::QueryError(String::from("syntax error"))));
    assert!(app.error.visible);
    assert_eq!(app.sql_editor.result_rows.len(), 1);
}
