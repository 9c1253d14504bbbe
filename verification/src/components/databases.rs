use vstd::prelude::*;

use crate::components::command::CommandInfo;
use crate::components::command::CommandKind;
use crate::components::EventState;
use crate::config::KeyConfig;
use crate::key::Key;

verus! {

/// One database of the active connection, with its tables in backend order.
#[derive(Debug)]
pub struct Database {
    pub name: String,
    pub tables: Vec<String>,
}

/// The cursor of the schema tree: a database, and optionally one of its
/// tables.
#[derive(Clone, Copy, Debug, PartialEq, Eq, Structural)]
pub struct TreeSelection {
    pub database: usize,
    pub table: Option<usize>,
}

/// The database/table tree panel. The tree is rebuilt wholesale whenever the
/// active connection changes; navigation walks databases and their tables in
/// order. A text filter input can take the panel's keys instead of the tree.
pub struct DatabasesComponent {
    pub key_config: KeyConfig,
    pub databases: Vec<Database>,
    pub selection: Option<TreeSelection>,
    pub filter_focused: bool,
    pub filter: Vec<char>,
}

impl DatabasesComponent {
    pub open spec fn wf(self) -> bool {
        match self.selection {
            Some(s) => s.database < self.databases@.len() && match s.table {
                Some(t) => t < self.databases@[s.database as int].tables@.len(),
                None => true,
            },
            None => true,
        }
    }

    pub fn new(key_config: KeyConfig) -> (r: DatabasesComponent)
        ensures
            r.wf(),
            r.key_config == key_config,
            r.databases@ == Seq::<Database>::empty(),
            r.selection is None,
            !r.filter_focused,
            r.filter@ == Seq::<char>::empty(),
    {
        DatabasesComponent {
            key_config,
            databases: Vec::new(),
            selection: None,
            filter_focused: false,
            filter: Vec::new(),
        }
    }

    /// Replaces the whole tree after a connection switch.
    pub fn update(&mut self, databases: Vec<Database>)
        ensures
            final(self).wf(),
            final(self).key_config == old(self).key_config,
            final(self).databases == databases,
            final(self).selection is None,
            !final(self).filter_focused,
            final(self).filter@ == Seq::<char>::empty(),
    {
        self.databases = databases;
        self.selection = None;
        self.filter_focused = false;
        self.filter = Vec::new();
    }

    /// Adds this panel's help entry: confirming a table node opens it.
    pub fn commands(&self, out: &mut Vec<CommandInfo>)
        ensures
            final(out)@ == old(out)@.push(
                CommandInfo { kind: CommandKind::SelectTable, key: self.key_config.enter },
            ),
    {
        out.push(CommandInfo { kind: CommandKind::SelectTable, key: self.key_config.enter });
    }

    pub fn tree_focused(&self) -> (r: bool)
        ensures
            r == !self.filter_focused,
    {
        !self.filter_focused
    }

    /// The (database, table) pair under the cursor, if the cursor rests on a
    /// table node.
    pub fn selected_table(&self) -> (r: Option<(String, String)>)
        requires
            self.wf(),
        ensures
            match r {
                Some(p) => self.selection matches Some(s) && s.table matches Some(t) && p.0@
                    == self.databases@[s.database as int].name@ && p.1@ == self.databases@[s.database as int].tables@[t as int]@,
                None => match self.selection {
                    Some(s) => s.table is None,
                    None => true,
                },
            },
    {
        match self.selection {
            Some(s) => match s.table {
                Some(t) => {
                    let db = &self.databases[s.database];
                    Some((db.name.clone(), db.tables[t].clone()))
                },
                None => None,
            },
            None => None,
        }
    }

    /// The next node in flattened order: a database, then each of its tables,
    /// then the next database. The cursor stays put at the end.
    pub open spec fn spec_next_selection(self) -> Option<TreeSelection> {
        match self.selection {
            None => if self.databases@.len() > 0 {
                Some(TreeSelection { database: 0, table: None })
            } else {
                None
            },
            Some(s) => {
                let tables = self.databases@[s.database as int].tables@;
                match s.table {
                    None => if tables.len() > 0 {
                        Some(TreeSelection { database: s.database, table: Some(0usize) })
                    } else if s.database + 1 < self.databases@.len() {
                        Some(TreeSelection { database: (s.database + 1) as usize, table: None })
                    } else {
                        Some(s)
                    },
                    Some(t) => if t + 1 < tables.len() {
                        Some(TreeSelection { database: s.database, table: Some((t + 1) as usize) })
                    } else if s.database + 1 < self.databases@.len() {
                        Some(TreeSelection { database: (s.database + 1) as usize, table: None })
                    } else {
                        Some(s)
                    },
                }
            },
        }
    }

    /// The previous node in flattened order; the cursor stays put at the top.
    pub open spec fn spec_prev_selection(self) -> Option<TreeSelection> {
        match self.selection {
            None => None,
            Some(s) => match s.table {
                Some(t) => if t > 0 {
                    Some(TreeSelection { database: s.database, table: Some((t - 1) as usize) })
                } else {
                    Some(TreeSelection { database: s.database, table: None })
                },
                None => if s.database > 0 {
                    let prev = self.databases@[s.database - 1].tables@;
                    if prev.len() > 0 {
                        Some(
                            TreeSelection {
                                database: (s.database - 1) as usize,
                                table: Some((prev.len() - 1) as usize),
                            },
                        )
                    } else {
                        Some(TreeSelection { database: (s.database - 1) as usize, table: None })
                    }
                } else {
                    Some(s)
                },
            },
        }
    }

    fn move_next(&mut self)
        requires
            old(self).wf(),
        ensures
            final(self).wf(),
            *final(self) == (DatabasesComponent {
                selection: old(self).spec_next_selection(),
                ..*old(self)
            }),
    {
        match self.selection {
            None => {
                if self.databases.len() > 0 {
                    self.selection = Some(TreeSelection { database: 0, table: None });
                }
            },
            Some(s) => {
                let nd = self.databases.len();
                let n_tables = self.databases[s.database].tables.len();
                match s.table {
                    None => {
                        if n_tables > 0 {
                            self.selection = Some(
                                TreeSelection { database: s.database, table: Some(0) },
                            );
                        } else if s.database + 1 < nd {
                            self.selection = Some(
                                TreeSelection { database: s.database + 1, table: None },
                            );
                        }
                    },
                    Some(t) => {
                        if t + 1 < n_tables {
                            self.selection = Some(
                                TreeSelection { database: s.database, table: Some(t + 1) },
                            );
                        } else if s.database + 1 < nd {
                            self.selection = Some(
                                TreeSelection { database: s.database + 1, table: None },
                            );
                        }
                    },
                }
            },
        }
    }

    fn move_prev(&mut self)
        requires
            old(self).wf(),
        ensures
            final(self).wf(),
            *final(self) == (DatabasesComponent {
                selection: old(self).spec_prev_selection(),
                ..*old(self)
            }),
    {
        match self.selection {
            None => {},
            Some(s) => match s.table {
                Some(t) => {
                    if t > 0 {
                        self.selection = Some(
                            TreeSelection { database: s.database, table: Some(t - 1) },
                        );
                    } else {
                        self.selection = Some(TreeSelection { database: s.database, table: None });
                    }
                },
                None => {
                    if s.database > 0 {
                        let n_prev = self.databases[s.database - 1].tables.len();
                        if n_prev > 0 {
                            self.selection = Some(
                                TreeSelection {
                                    database: s.database - 1,
                                    table: Some(n_prev - 1),
                                },
                            );
                        } else {
                            self.selection = Some(
                                TreeSelection { database: s.database - 1, table: None },
                            );
                        }
                    }
                },
            },
        }
    }

    /// While the filter owns the panel, editing keys are taken; on the tree,
    /// the filter binding and the scroll bindings.
    pub open spec fn spec_consumes(self, key: Key) -> bool {
        if self.filter_focused {
            match key {
                Key::Char(_) => true,
                Key::Backspace => true,
                Key::Enter => true,
                Key::Esc => true,
                _ => false,
            }
        } else {
            key == self.key_config.filter || key == self.key_config.scroll_down || key
                == self.key_config.scroll_up
        }
    }

    /// Filter editing while the filter owns the panel; otherwise tree
    /// navigation and the binding that moves into the filter.
    pub fn event(&mut self, key: Key) -> (r: EventState)
        requires
            old(self).wf(),
        ensures
            final(self).wf(),
            final(self).key_config == old(self).key_config,
            final(self).databases == old(self).databases,
            (r is Consumed) == old(self).spec_consumes(key),
            old(self).filter_focused ==> final(self).selection == old(self).selection,
            old(self).filter_focused ==> match key {
                Key::Char(c) => r is Consumed && final(self).filter@ == old(self).filter@.push(c)
                    && final(self).filter_focused,
                Key::Backspace => r is Consumed && final(self).filter@ == (if old(self).filter@.len() > 0 {
                    old(self).filter@.drop_last()
                } else {
                    old(self).filter@
                }) && final(self).filter_focused,
                Key::Enter => r is Consumed && !final(self).filter_focused && final(self).filter@
                    == old(self).filter@,
                Key::Esc => r is Consumed && !final(self).filter_focused && final(self).filter@
                    == old(self).filter@,
                _ => r is NotConsumed && *final(self) == *old(self),
            },
            !old(self).filter_focused ==> final(self).filter@ == old(self).filter@,
            !old(self).filter_focused && key == old(self).key_config.filter ==> r is Consumed
                && final(self).filter_focused && final(self).selection == old(self).selection,
            !old(self).filter_focused && key != old(self).key_config.filter && key == old(self).key_config.scroll_down ==> r is Consumed && !final(self).filter_focused && final(self).selection == old(self).spec_next_selection(),
            !old(self).filter_focused && key != old(self).key_config.filter && key != old(self).key_config.scroll_down && key == old(self).key_config.scroll_up ==> r is Consumed
                && !final(self).filter_focused && final(self).selection == old(self).spec_prev_selection(),
            !old(self).filter_focused && key != old(self).key_config.filter && key != old(self).key_config.scroll_down && key != old(self).key_config.scroll_up ==> r is NotConsumed
                && *final(self) == *old(self),
    {
        if self.filter_focused {
            match key {
                Key::Char(c) => {
                    self.filter.push(c);
                    EventState::Consumed
                },
                Key::Backspace => {
                    let _ = self.filter.pop();
                    EventState::Consumed
                },
                Key::Enter => {
                    self.filter_focused = false;
                    EventState::Consumed
                },
                Key::Esc => {
                    self.filter_focused = false;
                    EventState::Consumed
                },
                _ => EventState::NotConsumed,
            }
        } else if key == self.key_config.filter {
            self.filter_focused = true;
            EventState::Consumed
        } else if key == self.key_config.scroll_down {
            self.move_next();
            EventState::Consumed
        } else if key == self.key_config.scroll_up {
            self.move_prev();
            EventState::Consumed
        } else {
            EventState::NotConsumed
        }
    }
}

} // verus!
