use vstd::prelude::*;

use crate::components::command::CommandInfo;
use crate::components::command::CommandKind;
use crate::components::table::TableComponent;
use crate::components::EventState;
use crate::config::KeyConfig;
use crate::key::Key;

verus! {

/// Which part of the records panel owns its keys: the row grid or the text
/// filter above it.
#[derive(Clone, Copy, Debug, PartialEq, Eq, Structural)]
pub enum Focus {
    Table,
    Filter,
}

/// The records panel: the record page cache plus the text filter that
/// restricts which rows the backend returns.
pub struct RecordTableComponent {
    pub key_config: KeyConfig,
    pub table: TableComponent,
    pub filter: Vec<char>,
    pub focus: Focus,
}

impl RecordTableComponent {
    pub open spec fn wf(self) -> bool {
        self.table.wf()
    }

    pub fn new(key_config: KeyConfig, page_size: usize) -> (r: RecordTableComponent)
        requires
            page_size >= 1,
        ensures
            r.wf(),
            r.key_config == key_config,
            r.table.page_size == page_size,
            r.table.rows@ == Seq::<Vec<String>>::empty(),
            !r.table.eod,
            r.filter@ == Seq::<char>::empty(),
            r.focus is Table,
    {
        RecordTableComponent {
            key_config,
            table: TableComponent::new(page_size),
            filter: Vec::new(),
            focus: Focus::Table,
        }
    }

    /// Full reset for a table change: rows emptied, end-of-data cleared, the
    /// filter text dropped.
    pub fn reset(&mut self)
        requires
            old(self).table.page_size >= 1,
        ensures
            final(self).wf(),
            final(self).key_config == old(self).key_config,
            final(self).table.page_size == old(self).table.page_size,
            final(self).table.rows@ == Seq::<Vec<String>>::empty(),
            final(self).table.headers@ == Seq::<String>::empty(),
            !final(self).table.eod,
            final(self).table.selected_row is None,
            final(self).table.selected_table is None,
            final(self).filter@ == Seq::<char>::empty(),
            final(self).focus is Table,
    {
        self.table.reset();
        self.filter = Vec::new();
        self.focus = Focus::Table;
    }

    /// Adds this panel's help entry: copying the selected cell.
    pub fn commands(&self, out: &mut Vec<CommandInfo>)
        ensures
            final(out)@ == old(out)@.push(
                CommandInfo { kind: CommandKind::CopyCell, key: self.key_config.copy },
            ),
    {
        out.push(CommandInfo { kind: CommandKind::CopyCell, key: self.key_config.copy });
    }

    pub fn filter_focused(&self) -> (r: bool)
        ensures
            r == (self.focus is Filter),
    {
        matches!(self.focus, Focus::Filter)
    }

    /// The filter to send with a fetch: nothing when the input is empty.
    pub fn current_filter(&self) -> (r: Option<Vec<char>>)
        ensures
            self.filter@.len() == 0 ==> r is None,
            self.filter@.len() > 0 ==> (r matches Some(f) && f@ == self.filter@),
    {
        if self.filter.len() == 0 {
            None
        } else {
            let mut f: Vec<char> = Vec::new();
            let mut i: usize = 0;
            while i < self.filter.len()
                invariant
                    i <= self.filter@.len(),
                    f@ == self.filter@.subrange(0, i as int),
                decreases self.filter@.len() - i,
            {
                f.push(self.filter[i]);
                proof {
                    assert(f@ =~= self.filter@.subrange(0, i as int + 1));
                }
                i = i + 1;
            }
            proof {
                assert(self.filter@.subrange(0, self.filter@.len() as int) =~= self.filter@);
            }
            Some(f)
        }
    }

    /// Populates the cache from the first page fetched for a table.
    pub fn update(
        &mut self,
        rows: Vec<Vec<String>>,
        headers: Vec<String>,
        database: String,
        table: String,
    )
        requires
            old(self).wf(),
            rows@.len() <= old(self).table.page_size,
            forall|i: int| 0 <= i < rows@.len() ==> (#[trigger] rows@[i])@.len() == headers@.len(),
        ensures
            final(self).wf(),
            final(self).key_config == old(self).key_config,
            final(self).filter == old(self).filter,
            final(self).focus is Table,
            final(self).table.page_size == old(self).table.page_size,
            final(self).table.rows == rows,
            final(self).table.headers == headers,
            final(self).table.eod == (rows@.len() < old(self).table.page_size),
            final(self).table.selected_table == Some((database, table)),
    {
        self.table.update(rows, headers, database, table);
        self.focus = Focus::Table;
    }

    /// While the filter owns the panel, editing keys are taken; on the grid,
    /// the filter binding and row and column movement. Everything else is
    /// left for the surrounding dispatcher.
    pub open spec fn spec_consumes(self, key: Key) -> bool {
        match self.focus {
            Focus::Filter => match key {
                Key::Char(_) => true,
                Key::Backspace => true,
                Key::Esc => true,
                _ => false,
            },
            Focus::Table => key == self.key_config.filter || key == self.key_config.scroll_down
                || key == self.key_config.scroll_up || key == self.key_config.move_column_left
                || key == self.key_config.move_column_right,
        }
    }

    /// While the filter owns the panel, edits the filter text; on the grid,
    /// the filter binding, row and column movement. Everything else is left
    /// for the surrounding dispatcher.
    pub fn event(&mut self, key: Key) -> (r: EventState)
        requires
            old(self).wf(),
        ensures
            final(self).wf(),
            final(self).key_config == old(self).key_config,
            (r is Consumed) == old(self).spec_consumes(key),
            final(self).table.page_size == old(self).table.page_size,
            final(self).table.rows == old(self).table.rows,
            final(self).table.headers == old(self).table.headers,
            final(self).table.eod == old(self).table.eod,
            final(self).table.selected_table == old(self).table.selected_table,
            old(self).focus is Filter ==> final(self).table == old(self).table,
            old(self).focus is Filter ==> match key {
                Key::Char(c) => r is Consumed && final(self).filter@ == old(self).filter@.push(c)
                    && final(self).focus is Filter,
                Key::Backspace => r is Consumed && final(self).filter@ == (if old(self).filter@.len() > 0 {
                    old(self).filter@.drop_last()
                } else {
                    old(self).filter@
                }) && final(self).focus is Filter,
                Key::Esc => r is Consumed && final(self).focus is Table && final(self).filter@
                    == old(self).filter@,
                _ => r is NotConsumed && *final(self) == *old(self),
            },
            old(self).focus is Table ==> final(self).filter@ == old(self).filter@,
            old(self).focus is Table && key == old(self).key_config.filter ==> r is Consumed
                && final(self).focus is Filter && final(self).table == old(self).table,
            old(self).focus is Table && key != old(self).key_config.filter && key == old(self).key_config.scroll_down ==> r is Consumed && final(self).table.selected_row == old(self).table.spec_next_row() && final(self).focus is Table,
            old(self).focus is Table && key != old(self).key_config.filter && key != old(self).key_config.scroll_down && key == old(self).key_config.scroll_up ==> r is Consumed
                && final(self).table.selected_row == old(self).table.spec_prev_row() && final(self).focus is Table,
            old(self).focus is Table && key != old(self).key_config.filter && key != old(self).key_config.scroll_down && key != old(self).key_config.scroll_up ==> final(self).table.selected_row == old(self).table.selected_row,
            old(self).focus is Table && key != old(self).key_config.filter && key != old(self).key_config.scroll_down && key != old(self).key_config.scroll_up && key == old(self).key_config.move_column_left ==> r is Consumed,
            old(self).focus is Table && key != old(self).key_config.filter && key != old(self).key_config.scroll_down && key != old(self).key_config.scroll_up && key != old(self).key_config.move_column_left && key == old(self).key_config.move_column_right ==> r
                is Consumed,
            old(self).focus is Table && key != old(self).key_config.filter && key != old(self).key_config.scroll_down && key != old(self).key_config.scroll_up && key != old(self).key_config.move_column_left && key != old(self).key_config.move_column_right ==> r
                is NotConsumed && *final(self) == *old(self),
    {
        match self.focus {
            Focus::Filter => {
                match key {
                    Key::Char(c) => {
                        self.filter.push(c);
                        EventState::Consumed
                    },
                    Key::Backspace => {
                        let _ = self.filter.pop();
                        EventState::Consumed
                    },
                    Key::Esc => {
                        self.focus = Focus::Table;
                        EventState::Consumed
                    },
                    _ => EventState::NotConsumed,
                }
            },
            Focus::Table => {
                if key == self.key_config.filter {
                    self.focus = Focus::Filter;
                    EventState::Consumed
                } else if key == self.key_config.scroll_down {
                    self.table.select_next();
                    EventState::Consumed
                } else if key == self.key_config.scroll_up {
                    self.table.select_previous();
                    EventState::Consumed
                } else if key == self.key_config.move_column_left {
                    self.table.select_column_left();
                    EventState::Consumed
                } else if key == self.key_config.move_column_right {
                    self.table.select_column_right();
                    EventState::Consumed
                } else {
                    EventState::NotConsumed
                }
            },
        }
    }
}

} // verus!
