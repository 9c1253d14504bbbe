use vstd::prelude::*;

use crate::database::RECORDS_LIMIT_PER_PAGE;
use crate::key::Key;

verus! {

/// One binding per logical action; every action is independently rebindable.
#[derive(Clone, Copy, Debug, PartialEq, Eq, Structural)]
pub struct KeyConfig {
    pub enter: Key,
    pub exit_popup: Key,
    pub open_help: Key,
    pub copy: Key,
    pub filter: Key,
    pub toggle_tabs: Key,
    pub scroll_down: Key,
    pub scroll_up: Key,
    pub move_column_left: Key,
    pub move_column_right: Key,
    pub focus_connections: Key,
    pub focus_left: Key,
    pub focus_right: Key,
    pub extend_or_shorten_widget_width_to_left: Key,
    pub extend_or_shorten_widget_width_to_right: Key,
}

impl KeyConfig {
    /// The standard key map used when no configuration overrides it.
    pub open spec fn standard() -> KeyConfig {
        KeyConfig {
            enter: Key::Enter,
            exit_popup: Key::Esc,
            open_help: Key::Char('?'),
            copy: Key::Char('y'),
            filter: Key::Char('/'),
            toggle_tabs: Key::Tab,
            scroll_down: Key::Char('j'),
            scroll_up: Key::Char('k'),
            move_column_left: Key::Left,
            move_column_right: Key::Right,
            focus_connections: Key::Char('c'),
            focus_left: Key::Char('h'),
            focus_right: Key::Char('l'),
            extend_or_shorten_widget_width_to_left: Key::Char('<'),
            extend_or_shorten_widget_width_to_right: Key::Char('>'),
        }
    }
}

impl Default for KeyConfig {
    fn default() -> (r: KeyConfig)
        ensures
            r == KeyConfig::standard(),
    {
        KeyConfig {
            enter: Key::Enter,
            exit_popup: Key::Esc,
            open_help: Key::Char('?'),
            copy: Key::Char('y'),
            filter: Key::Char('/'),
            toggle_tabs: Key::Tab,
            scroll_down: Key::Char('j'),
            scroll_up: Key::Char('k'),
            move_column_left: Key::Left,
            move_column_right: Key::Right,
            focus_connections: Key::Char('c'),
            focus_left: Key::Char('h'),
            focus_right: Key::Char('l'),
            extend_or_shorten_widget_width_to_left: Key::Char('<'),
            extend_or_shorten_widget_width_to_right: Key::Char('>'),
        }
    }
}

/// Which database engine a connection talks to. The set is closed: exactly
/// these three backend families are supported.
#[derive(Clone, Copy, Debug, PartialEq, Eq, Structural)]
pub enum BackendKind {
    MySql,
    Postgres,
    Sqlite,
}

/// A connection definition: the backend kind plus the pre-built connection
/// string. Immutable once created; only the connection lifecycle reads it.
#[derive(Debug)]
pub struct Connection {
    pub kind: BackendKind,
    pub name: String,
    pub url: String,
}

impl Clone for Connection {
    fn clone(&self) -> (r: Connection)
        ensures
            r == *self,
    {
        Connection { kind: self.kind, name: self.name.clone(), url: self.url.clone() }
    }
}

impl Connection {
    pub fn is_mysql(&self) -> (r: bool)
        ensures
            r == (self.kind is MySql),
    {
        matches!(self.kind, BackendKind::MySql)
    }

    pub fn is_postgres(&self) -> (r: bool)
        ensures
            r == (self.kind is Postgres),
    {
        matches!(self.kind, BackendKind::Postgres)
    }

    pub fn database_url(&self) -> (r: String)
        ensures
            r@ == self.url@,
    {
        self.url.clone()
    }
}

/// Pre-parsed configuration: the key map, the connection definitions, and the
/// page size used by every row fetch.
#[derive(Debug)]
pub struct Config {
    pub key_config: KeyConfig,
    pub conn: Vec<Connection>,
    pub page_size: usize,
}

impl Default for Config {
    fn default() -> (r: Config)
        ensures
            r.key_config == KeyConfig::standard(),
            r.conn@ == Seq::<Connection>::empty(),
            r.page_size == RECORDS_LIMIT_PER_PAGE,
    {
        Config { key_config: KeyConfig::default(), conn: Vec::new(), page_size: RECORDS_LIMIT_PER_PAGE }
    }
}

/// Copies a connection list element by element, so that callers know the
/// copy holds exactly the same definitions.
pub fn clone_connections(v: &Vec<Connection>) -> (r: Vec<Connection>)
    ensures
        r@ == v@,
{
    let mut r: Vec<Connection> = Vec::new();
    let mut i: usize = 0;
    while i < v.len()
        invariant
            i <= v.len(),
            r@ == v@.subrange(0, i as int),
        decreases v.len() - i,
    {
        r.push(v[i].clone());
        proof {
            assert(r@ =~= v@.subrange(0, i as int + 1));
        }
        i = i + 1;
    }
    proof {
        assert(v@.subrange(0, v@.len() as int) =~= v@);
    }
    r
}

} // verus!
