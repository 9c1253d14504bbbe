use gobang::app::Action;
use gobang::app::App;
use gobang::app::Focus;
use gobang::components::databases::Database;
use gobang::components::tab::Tab;
use gobang::components::EventState;
use gobang::config::BackendKind;
use gobang::config::Config;
use gobang::config::Connection;
use gobang::database::ConnectionLifecycle;
use gobang::database::DbError;
use gobang::key::Key;

fn two_connections() -> Config {
    let mut config = Config::default();
    config.conn = vec![
        Connection {
            kind: BackendKind::MySql,
            name: String::from("first"),
            url: String::from("mysql://one"),
        },
        Connection {
            kind: BackendKind::Postgres,
            name: String::from("second"),
            url: String::from("postgres://two"),
        },
    ];
    config
}

#[test]
fn switch_closes_before_open() {
    let mut lifecycle = ConnectionLifecycle::new();
    assert!(lifecycle.begin_switch().is_none());
    let first = lifecycle.complete_switch(BackendKind::MySql);
    // the second switch hands the first adapter out for closing while the
    // slot is empty, and only then opens the next one
    let closed = lifecycle.begin_switch();
    assert_eq!(closed.map(|a| a.id), Some(first.id));
    assert!(lifecycle.held.is_none());
    let second = lifecycle.complete_switch(BackendKind::Postgres);
    assert_ne!(first.id, second.id);
    assert_eq!(lifecycle.held.map(|a| a.id), Some(second.id));
}

#[test]
fn consecutive_switches_overlap_nothing() {
    let mut app = App::new(two_connections());
    // confirm the first connection
    let (state, action) = app.event(Key::Enter);
    assert_eq!(state, EventState::Consumed);
    let first_close = match action {
        Some(Action::SwitchConnection { connection, close }) => {
            assert_eq!(connection.name, "first");
            close
        }
        _ => panic!("confirming a connection must request a switch"),
    };
    assert!(first_close.is_none());
    assert!(app.pool.held.is_none());
    let schema = vec![Database {
        name: String::from("db"),
        tables: vec![String::from("t")],
    }];
    let first = app
        .update_databases(BackendKind::MySql, Ok(schema))
        .expect("a successful switch installs the adapter");
    assert!(matches!(app.focus, Focus::DatabaseTree));
    assert!(matches!(app.tab.selected_tab, Tab::Records));
    // go back and confirm the second connection
    assert_eq!(app.event(Key::Char('c')).0, EventState::Consumed);
    assert_eq!(app.event(Key::Char('j')).0, EventState::Consumed);
    let (state, action) = app.event(Key::Enter);
    assert_eq!(state, EventState::Consumed);
    match action {
        Some(Action::SwitchConnection { connection, close }) => {
            assert_eq!(connection.name, "second");
            // the first adapter leaves for closing before the next opens
            assert_eq!(close.map(|a| a.id), Some(first.id));
        }
        _ => panic!("confirming a connection must request a switch"),
    }
    assert!(app.pool.held.is_none());
    let schema = vec![Database {
        name: String::from("other"),
        tables: vec![],
    }];
    let second = app
        .update_databases(BackendKind::Postgres, Ok(schema))
        .expect("a successful switch installs the adapter");
    assert_ne!(first.id, second.id);
    assert_eq!(app.pool.held.map(|a| a.id), Some(second.id));
}

#[test]
fn failed_switch_holds_no_adapter() {
    let mut app = App::new(two_connections());
    let (state, action) = app.event(Key::Enter);
    assert_eq!(state, EventState::Consumed);
    assert!(matches!(action, Some(Action::SwitchConnection { .. })));
    let opened = app.update_databases(
        BackendKind::MySql,
        Err(DbError::ConnectionError(String::from("access denied"))),
    );
    // the old adapter stays closed, none is held, the error is surfaced,
    // and focus remains on the connection list
    assert!(opened.is_none());
    assert!(app.pool.held.is_none());
    assert!(app.error.visible);
    assert_eq!(app.error.message, "access denied");
    assert!(matches!(app.focus, Focus::ConnectionList));
}

#[test]
fn switch_resets_cache_and_tab() {
    let mut app = App::new(two_connections());
    app.tab.selected_tab = Tab::Sql;
    app.event(Key::Enter);
    let schema = vec![Database {
        name: String::from("db"),
        tables: vec![String::from("t")],
    }];
    app.update_databases(BackendKind::MySql, Ok(schema));
    assert!(matches!(app.tab.selected_tab, Tab::Records));
    assert!(app.record_table.table.rows.is_empty());
    assert!(!app.record_table.table.eod);
    assert_eq!(app.databases.databases.len(), 1);
    assert!(app.databases.selection.is_none());
}

#[test]
fn connection_list_navigation() {
    let mut app = App::new(two_connections());
    let (state, _) = app.event(Key::Char('j'));
    assert_eq!(state, EventState::Consumed);
    let selected = app
        .connections
        .selected_connection()
        .expect("a non-empty list always has a selection");
    assert_eq!(selected.name, "second");
    let (state, _) = app.event(Key::Char('k'));
    assert_eq!(state, EventState::Consumed);
    let selected = app
        .connections
        .selected_connection()
        .expect("a non-empty list always has a selection");
    assert_eq!(selected.name, "first");
}
