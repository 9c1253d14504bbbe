use gobang::app::App;
use gobang::app::Focus;
use gobang::components::databases::Database;
use gobang::components::tab::Tab;
use gobang::components::EventState;
use gobang::config::BackendKind;
use gobang::config::Config;
use gobang::config::Connection;
use gobang::key::Key;

fn demo_config() -> Config {
    let mut config = Config::default();
    config.conn = vec![Connection {
        kind: BackendKind::Sqlite,
        name: String::from("demo"),
        url: String::from("sqlite://demo.db"),
    }];
    config
}

#[test]
fn test_extend_or_shorten_widget_width() {
    let mut app = App::new(Config::default());
    assert_eq!(
        app.extend_or_shorten_widget_width(Key::Char('>')),
        EventState::Consumed
    );
    assert_eq!(app.left_main_chunk_percentage, 20);

    app.left_main_chunk_percentage = 70;
    assert_eq!(
        app.extend_or_shorten_widget_width(Key::Char('>')),
        EventState::Consumed
    );
    assert_eq!(app.left_main_chunk_percentage, 70);

    assert_eq!(
        app.extend_or_shorten_widget_width(Key::Char('<')),
        EventState::Consumed
    );
    assert_eq!(app.left_main_chunk_percentage, 65);

    app.left_main_chunk_percentage = 15;
    assert_eq!(
        app.extend_or_shorten_widget_width(Key::Char('<')),
        EventState::Consumed
    );
    assert_eq!(app.left_main_chunk_percentage, 15);
}

#[test]
fn ratio_never_leaves_its_bound() {
    let mut app = App::new(Config::default());
    assert_eq!(app.left_main_chunk_percentage, 15);
    for _ in 0..6 {
        app.extend_or_shorten_widget_width(Key::Char('<'));
        assert!(app.left_main_chunk_percentage >= 15);
    }
    assert_eq!(app.left_main_chunk_percentage, 15);
    for _ in 0..20 {
        app.extend_or_shorten_widget_width(Key::Char('>'));
        assert!(app.left_main_chunk_percentage <= 70);
    }
    assert_eq!(app.left_main_chunk_percentage, 70);
}

#[test]
fn initial_state() {
    let app = App::new(demo_config());
    assert!(matches!(app.focus, Focus::ConnectionList));
    assert!(matches!(app.tab.selected_tab, Tab::Records));
    assert!(app.pool.held.is_none());
    assert_eq!(app.left_main_chunk_percentage, 15);
    assert!(!app.error.visible);
    assert_eq!(app.connections.connections.len(), 1);
}

#[test]
fn move_focus_transitions() {
    let mut app = App::new(demo_config());
    // enter from the connection list moves to the tree
    assert_eq!(app.move_focus(Key::Enter), EventState::Consumed);
    assert!(matches!(app.focus, Focus::DatabaseTree));
    // without a selected tree node, move-right does nothing
    assert_eq!(app.move_focus(Key::Char('l')), EventState::NotConsumed);
    assert!(matches!(app.focus, Focus::DatabaseTree));
    // select a node; move-right now enters the data view
    app.databases.update(vec![Database {
        name: String::from("db"),
        tables: vec![String::from("t")],
    }]);
    assert_eq!(app.event(Key::Char('j')).0, EventState::Consumed);
    assert_eq!(app.move_focus(Key::Char('l')), EventState::Consumed);
    assert!(matches!(app.focus, Focus::DataView));
    // move-left goes back to the tree
    assert_eq!(app.move_focus(Key::Char('h')), EventState::Consumed);
    assert!(matches!(app.focus, Focus::DatabaseTree));
    // the connections binding works from any state
    assert_eq!(app.move_focus(Key::Char('c')), EventState::Consumed);
    assert!(matches!(app.focus, Focus::ConnectionList));
    // an unbound key is reported upward
    assert_eq!(app.move_focus(Key::Char('z')), EventState::NotConsumed);
}

#[test]
fn tab_cycles_only_in_data_view() {
    let mut app = App::new(demo_config());
    // outside the data view the toggle does nothing
    assert_eq!(app.move_focus(Key::Tab), EventState::NotConsumed);
    assert!(matches!(app.tab.selected_tab, Tab::Records));
    app.focus = Focus::DataView;
    assert_eq!(app.move_focus(Key::Tab), EventState::Consumed);
    assert!(matches!(app.tab.selected_tab, Tab::Sql));
    assert_eq!(app.move_focus(Key::Tab), EventState::Consumed);
    assert!(matches!(app.tab.selected_tab, Tab::Properties));
    assert_eq!(app.move_focus(Key::Tab), EventState::Consumed);
    assert!(matches!(app.tab.selected_tab, Tab::Records));
    // the tab survives leaving and re-entering the data view
    app.move_focus(Key::Tab);
    app.move_focus(Key::Char('h'));
    assert!(matches!(app.tab.selected_tab, Tab::Sql));
}

#[test]
fn error_overlay_consumes_everything() {
    let mut app = App::new(demo_config());
    app.focus = Focus::DatabaseTree;
    app.error.set(String::from("connection lost"));
    // 'c' is also the focus-connections binding, but the overlay wins
    let (state, action) = app.event(Key::Char('c'));
    assert_eq!(state, EventState::Consumed);
    assert!(action.is_none());
    assert!(matches!(app.focus, Focus::DatabaseTree));
    assert!(matches!(app.tab.selected_tab, Tab::Records));
    assert!(app.error.visible);
    // dismissing clears the overlay and the same key now moves focus
    let (state, _) = app.event(Key::Esc);
    assert_eq!(state, EventState::Consumed);
    assert!(!app.error.visible);
    let (state, _) = app.event(Key::Char('c'));
    assert_eq!(state, EventState::Consumed);
    assert!(matches!(app.focus, Focus::ConnectionList));
}

#[test]
fn help_overlay_suppressed_on_connection_list() {
    let mut app = App::new(demo_config());
    // on the connection list the help binding is not routed to the overlay
    let (_, _) = app.event(Key::Char('?'));
    assert!(!app.help.visible);
    app.focus = Focus::DatabaseTree;
    let (state, _) = app.event(Key::Char('?'));
    assert_eq!(state, EventState::Consumed);
    assert!(app.help.visible);
    // while shown it captures every key; dismiss hides it
    let (state, _) = app.event(Key::Char('j'));
    assert_eq!(state, EventState::Consumed);
    assert!(app.help.visible);
    let (state, _) = app.event(Key::Esc);
    assert_eq!(state, EventState::Consumed);
    assert!(!app.help.visible);
}

#[test]
fn unbound_key_changes_nothing() {
    let mut app = App::new(demo_config());
    app.focus = Focus::DatabaseTree;
    let (state, action) = app.event(Key::Char('z'));
    assert_eq!(state, EventState::NotConsumed);
    assert!(action.is_none());
    assert!(matches!(app.focus, Focus::DatabaseTree));
    assert!(matches!(app.tab.selected_tab, Tab::Records));
    assert_eq!(app.left_main_chunk_percentage, 15);
    assert!(app.record_table.table.rows.is_empty());
}

#[test]
fn confirm_without_connection_does_nothing() {
    let mut app = App::new(Config::default());
    let (state, action) = app.event(Key::Enter);
    assert_eq!(state, EventState::Consumed);
    assert!(action.is_none());
    assert!(app.pool.held.is_none());
    assert!(matches!(app.focus, Focus::ConnectionList));
}

#[test]
fn connection_accessors() {
    let conn = Connection {
        kind: BackendKind::MySql,
        name: String::from("m"),
        url: String::from("mysql://h/db"),
    };
    assert!(conn.is_mysql());
    assert!(!conn.is_postgres());
    assert_eq!(conn.database_url(), "mysql://h/db");
}

#[test]
fn commands_list_is_complete() {
    let mut app = App::new(demo_config());
    let cmds = app.commands();
    assert_eq!(cmds.len(), 10);
    app.update_commands();
    assert_eq!(app.help.cmds.len(), 10);
    assert_eq!(app.help.cmds[0].key, Key::Char('/'));
    assert_eq!(app.help.cmds[9].key, Key::Char('y'));
}
