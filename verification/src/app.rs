use vstd::prelude::*;

use crate::components::command;
use crate::components::command::CommandInfo;
use crate::components::command::CommandKind;
use crate::components::connections::ConnectionsComponent;
use crate::components::databases::Database;
use crate::components::databases::DatabasesComponent;
use crate::components::error::ErrorComponent;
use crate::components::help::HelpComponent;
use crate::components::properties::PropertiesComponent;
use crate::components::record_table;
use crate::components::record_table::RecordTableComponent;
use crate::components::sql_editor::SqlEditorComponent;
use crate::components::tab::Tab;
use crate::components::tab::TabComponent;
use crate::components::EventState;
use crate::config::BackendKind;
use crate::config::clone_connections;
use crate::config::Config;
use crate::config::Connection;
use crate::database::Adapter;
use crate::database::ConnectionLifecycle;
use crate::database::DbError;
use crate::database::LifecycleEvent;
use crate::key::Key;

verus! {

/// Which top-level panel owns keyboard input. Exactly one is active.
#[derive(Clone, Copy, Debug, PartialEq, Eq, Structural)]
pub enum Focus {
    ConnectionList,
    DatabaseTree,
    DataView,
}

/// A database operation the core asks its surroundings to perform. The core
/// decides; the surrounding I/O layer runs the operation against the live
/// backend and feeds the outcome back through the matching `App` method.
pub enum Action {
    /// Close the given adapter (best effort, failures swallowed), then open a
    /// connection to `connection`, list its schema, and report through
    /// `App::update_databases`.
    SwitchConnection { connection: Connection, close: Option<Adapter> },
    /// Fetch the first page of rows and the properties of this table, with no
    /// filter, and report through `App::finish_select_table`.
    SelectTable { database: String, table: String },
    /// Fetch the first page of rows under the given filter and report through
    /// `App::update_record_table`.
    FilterRecords { database: String, table: String, filter: Option<Vec<char>> },
    /// Fetch the page at `offset` under the given filter and report through
    /// `App::finish_next_page`.
    FetchNextPage { database: String, table: String, offset: usize, filter: Option<Vec<char>> },
    /// Run the query text against the live backend and report through
    /// `App::finish_query`.
    ExecuteQuery { query: Vec<char> },
    /// Hand this cell text to the clipboard integration.
    CopyCell { text: String },
}

/// The rows, header and properties fetched for a newly selected table.
pub struct TableData {
    pub headers: Vec<String>,
    pub rows: Vec<Vec<String>>,
    pub properties: Vec<Vec<String>>,
}

/// A narrow event moves the split ratio one step toward its floor.
pub open spec fn narrowed_ratio(r: u16) -> u16 {
    if r >= 20 {
        (r - 5) as u16
    } else {
        15u16
    }
}

/// A widen event moves the split ratio one step toward its ceiling.
pub open spec fn widened_ratio(r: u16) -> u16 {
    if r <= 65 {
        (r + 5) as u16
    } else {
        70u16
    }
}

pub open spec fn ratio_step(r: u16, widen: bool) -> u16 {
    if widen {
        widened_ratio(r)
    } else {
        narrowed_ratio(r)
    }
}

pub open spec fn ratio_after(r: u16, steps: Seq<bool>) -> u16
    decreases steps.len(),
{
    if steps.len() == 0 {
        r
    } else {
        ratio_after(ratio_step(r, steps[0]), steps.skip(1))
    }
}

/// Law: starting anywhere within the fixed bound, any sequence of widen and
/// narrow events leaves the layout ratio within the bound.
pub proof fn lemma_ratio_stays_bounded(r: u16, steps: Seq<bool>)
    requires
        15 <= r <= 70,
    ensures
        15 <= ratio_after(r, steps) <= 70,
    decreases steps.len(),
{
    if steps.len() > 0 {
        lemma_ratio_stays_bounded(ratio_step(r, steps[0]), steps.skip(1));
    }
}

/// The top-level controller: every panel, the navigation state, the adapter
/// slot, and the layout ratio. All cross-panel effects are funneled through
/// it; panels never mutate each other directly.
pub struct App {
    pub record_table: RecordTableComponent,
    pub properties: PropertiesComponent,
    pub sql_editor: SqlEditorComponent,
    pub focus: Focus,
    pub tab: TabComponent,
    pub help: HelpComponent,
    pub databases: DatabasesComponent,
    pub connections: ConnectionsComponent,
    pub pool: ConnectionLifecycle,
    pub left_main_chunk_percentage: u16,
    pub config: Config,
    pub error: ErrorComponent,
}

impl App {
    /// Every panel consults the same key map as the configuration.
    pub open spec fn shared_key_config(self) -> bool {
        &&& self.record_table.key_config == self.config.key_config
        &&& self.properties.key_config == self.config.key_config
        &&& self.sql_editor.key_config == self.config.key_config
        &&& self.tab.key_config == self.config.key_config
        &&& self.help.key_config == self.config.key_config
        &&& self.databases.key_config == self.config.key_config
        &&& self.connections.key_config == self.config.key_config
        &&& self.error.key_config == self.config.key_config
    }

    pub open spec fn wf(self) -> bool {
        &&& 15 <= self.left_main_chunk_percentage <= 70
        &&& self.shared_key_config()
        &&& self.record_table.wf()
        &&& self.connections.wf()
        &&& self.databases.wf()
        &&& self.properties.wf()
        &&& self.pool.wf()
    }

    pub fn new(config: Config) -> (app: App)
        requires
            config.page_size >= 1,
        ensures
            app.wf(),
            app.config == config,
            app.focus is ConnectionList,
            app.tab.selected_tab is Records,
            app.pool.held is None,
            app.pool.history@ == Seq::<LifecycleEvent>::empty(),
            app.left_main_chunk_percentage == 15,
            app.record_table.table.page_size == config.page_size,
            app.record_table.table.rows@ == Seq::<Vec<String>>::empty(),
            !app.record_table.table.eod,
            app.connections.connections@ == config.conn@,
            app.databases.databases@ == Seq::<Database>::empty(),
            !app.error.visible,
            !app.help.visible,
    {
        let key_config = config.key_config;
        let conns = clone_connections(&config.conn);
        App {
            record_table: RecordTableComponent::new(key_config, config.page_size),
            properties: PropertiesComponent::new(key_config),
            sql_editor: SqlEditorComponent::new(key_config),
            focus: Focus::ConnectionList,
            tab: TabComponent::new(key_config),
            help: HelpComponent::new(key_config),
            databases: DatabasesComponent::new(key_config),
            connections: ConnectionsComponent::new(key_config, conns),
            pool: ConnectionLifecycle::new(),
            left_main_chunk_percentage: 15,
            config,
            error: ErrorComponent::new(key_config),
        }
    }

    /// The help entries that apply right now: the global bindings, then what
    /// each panel contributes.
    pub open spec fn spec_commands(self) -> Seq<CommandInfo> {
        let kc = self.config.key_config;
        seq![
            CommandInfo { kind: CommandKind::Filter, key: kc.filter },
            CommandInfo { kind: CommandKind::Help, key: kc.open_help },
            CommandInfo { kind: CommandKind::ToggleTabs, key: kc.toggle_tabs },
            CommandInfo { kind: CommandKind::Scroll, key: kc.scroll_down },
            CommandInfo { kind: CommandKind::ScrollToTopBottom, key: kc.scroll_up },
            CommandInfo { kind: CommandKind::ScrollUpDownMultipleLines, key: kc.scroll_down },
            CommandInfo { kind: CommandKind::MoveFocus, key: kc.focus_connections },
            CommandInfo {
                kind: CommandKind::ExtendOrShortenWidgetWidth,
                key: kc.extend_or_shorten_widget_width_to_right,
            },
            CommandInfo { kind: CommandKind::SelectTable, key: kc.enter },
            CommandInfo { kind: CommandKind::CopyCell, key: kc.copy },
        ]
    }

    pub fn commands(&self) -> (r: Vec<CommandInfo>)
        requires
            self.shared_key_config(),
        ensures
            r@ == self.spec_commands(),
    {
        let kc = &self.config.key_config;
        let mut res: Vec<CommandInfo> = Vec::new();
        res.push(command::filter(kc));
        res.push(command::help(kc));
        res.push(command::toggle_tabs(kc));
        res.push(command::scroll(kc));
        res.push(command::scroll_to_top_bottom(kc));
        res.push(command::scroll_up_down_multiple_lines(kc));
        res.push(command::move_focus(kc));
        res.push(command::extend_or_shorten_widget_width(kc));
        self.databases.commands(&mut res);
        self.record_table.commands(&mut res);
        proof {
            assert(res@ =~= self.spec_commands());
        }
        res
    }

    /// Refreshes the help overlay's command list.
    pub fn update_commands(&mut self)
        requires
            old(self).shared_key_config(),
        ensures
            *final(self) == (App { help: final(self).help, ..*old(self) }),
            final(self).help.visible == old(self).help.visible,
            final(self).help.key_config == old(self).help.key_config,
            final(self).help.cmds@ == old(self).spec_commands(),
    {
        let cmds = self.commands();
        self.help.set_cmds(cmds);
    }

    /// Widens or narrows the side panel by one step, clamped to the fixed
    /// bound of the layout ratio.
    pub fn extend_or_shorten_widget_width(&mut self, key: Key) -> (r: EventState)
        ensures
            *final(self) == (App {
                left_main_chunk_percentage: final(self).left_main_chunk_percentage,
                ..*old(self)
            }),
            key == old(self).config.key_config.extend_or_shorten_widget_width_to_left ==> r
                is Consumed && final(self).left_main_chunk_percentage == narrowed_ratio(
                old(self).left_main_chunk_percentage,
            ),
            key != old(self).config.key_config.extend_or_shorten_widget_width_to_left && key == old(self).config.key_config.extend_or_shorten_widget_width_to_right ==> r is Consumed && final(self).left_main_chunk_percentage == widened_ratio(old(self).left_main_chunk_percentage),
            key != old(self).config.key_config.extend_or_shorten_widget_width_to_left && key != old(self).config.key_config.extend_or_shorten_widget_width_to_right ==> r is NotConsumed
                && final(self).left_main_chunk_percentage == old(self).left_main_chunk_percentage,
            15 <= old(self).left_main_chunk_percentage <= 70 ==> 15 <= final(self).left_main_chunk_percentage <= 70,
    {
        if key == self.config.key_config.extend_or_shorten_widget_width_to_left {
            if self.left_main_chunk_percentage >= 20 {
                self.left_main_chunk_percentage = self.left_main_chunk_percentage - 5;
            } else {
                self.left_main_chunk_percentage = 15;
            }
            EventState::Consumed
        } else if key == self.config.key_config.extend_or_shorten_widget_width_to_right {
            if self.left_main_chunk_percentage <= 65 {
                self.left_main_chunk_percentage = self.left_main_chunk_percentage + 5;
            } else {
                self.left_main_chunk_percentage = 70;
            }
            EventState::Consumed
        } else {
            EventState::NotConsumed
        }
    }

    /// Global focus movement, evaluated after everything panel-local: the
    /// unconditional jump to the connection list, tab cycling within the data
    /// view, and the moves between the tree and the data view.
    pub fn move_focus(&mut self, key: Key) -> (r: EventState)
        requires
            old(self).wf(),
        ensures
            final(self).wf(),
            *final(self) == (App { focus: final(self).focus, tab: final(self).tab, ..*old(self) }),
            (r is Consumed) == old(self).spec_move_focus_consumes(key),
            key == old(self).config.key_config.focus_connections ==> r is Consumed && final(self).focus is ConnectionList && final(self).tab == old(self).tab,
            key != old(self).config.key_config.focus_connections && old(self).focus is DataView
                && key == old(self).config.key_config.toggle_tabs ==> r is Consumed && final(self).focus == old(self).focus && final(self).tab.selected_tab == old(self).tab.selected_tab.spec_next(),
            key != old(self).config.key_config.focus_connections && !(old(self).focus is DataView
                && key == old(self).config.key_config.toggle_tabs) ==> final(self).tab == old(self).tab,
            key != old(self).config.key_config.focus_connections && !(old(self).focus is DataView
                && key == old(self).config.key_config.toggle_tabs) && old(self).focus
                is ConnectionList && key == old(self).config.key_config.enter ==> r is Consumed
                && final(self).focus is DatabaseTree,
            key != old(self).config.key_config.focus_connections && !(old(self).focus is DataView
                && key == old(self).config.key_config.toggle_tabs) && old(self).focus
                is DatabaseTree && key == old(self).config.key_config.focus_right && old(self).databases.selection is Some ==> r is Consumed && final(self).focus is DataView,
            key != old(self).config.key_config.focus_connections && !(old(self).focus is DataView
                && key == old(self).config.key_config.toggle_tabs) && old(self).focus is DataView
                && key == old(self).config.key_config.focus_left ==> r is Consumed && final(self).focus is DatabaseTree,
            r is NotConsumed ==> *final(self) == *old(self),
    {
        if key == self.config.key_config.focus_connections {
            self.focus = Focus::ConnectionList;
            return EventState::Consumed;
        }
        if matches!(self.focus, Focus::DataView) {
            if self.tab.event(key).is_consumed() {
                return EventState::Consumed;
            }
        }
        match self.focus {
            Focus::ConnectionList => {
                if key == self.config.key_config.enter {
                    self.focus = Focus::DatabaseTree;
                    return EventState::Consumed;
                }
            },
            Focus::DatabaseTree => {
                if key == self.config.key_config.focus_right && self.databases.selection.is_some() {
                    self.focus = Focus::DataView;
                    return EventState::Consumed;
                }
            },
            Focus::DataView => {
                if key == self.config.key_config.focus_left {
                    self.focus = Focus::DatabaseTree;
                    return EventState::Consumed;
                }
            },
        }
        EventState::NotConsumed
    }

    /// No overlay stands between this key and the focused panel: no error is
    /// shown, and outside the connection list the help overlay neither is
    /// shown nor is being opened by this key.
    pub open spec fn reaches_focused_panel(self, key: Key) -> bool {
        &&& !self.error.visible
        &&& (self.focus is ConnectionList || (!self.help.visible && key
            != self.config.key_config.open_help))
    }

    /// Which keys the focused panel itself takes: its own bindings, plus the
    /// confirm paths the dispatcher handles on its behalf.
    pub open spec fn spec_panel_consumes(self, key: Key) -> bool {
        match self.focus {
            Focus::ConnectionList => self.connections.spec_consumes(key) || key
                == self.config.key_config.enter,
            Focus::DatabaseTree => self.databases.spec_consumes(key) || (key
                == self.config.key_config.enter && !self.databases.filter_focused),
            Focus::DataView => match self.tab.selected_tab {
                Tab::Records => self.record_table.spec_consumes(key) || (key
                    == self.config.key_config.copy && self.record_table.table.selected_row is Some
                    && self.record_table.table.headers@.len() > 0) || (key
                    == self.config.key_config.enter && self.record_table.focus is Filter),
                Tab::Sql => self.sql_editor.spec_consumes(key) || key
                    == self.config.key_config.enter,
                Tab::Properties => self.properties.spec_consumes(key),
            },
        }
    }

    /// Exactly when some stage of the dispatcher consumes a key: the error
    /// overlay, the help overlay outside the connection list, the focused
    /// panel, or the layout-resize bindings. A key matching none of these is
    /// reported upward unconsumed.
    pub open spec fn spec_dispatch_consumes(self, key: Key) -> bool {
        ||| self.error.spec_consumes(key)
        ||| (!(self.focus is ConnectionList) && self.help.spec_consumes(key))
        ||| self.spec_panel_consumes(key)
        ||| key == self.config.key_config.extend_or_shorten_widget_width_to_left
        ||| key == self.config.key_config.extend_or_shorten_widget_width_to_right
    }

    /// Exactly when global focus movement consumes a key: the unconditional
    /// jump to the connection list, tab cycling in the data view, and the one
    /// transition the current focus enables.
    pub open spec fn spec_move_focus_consumes(self, key: Key) -> bool {
        ||| key == self.config.key_config.focus_connections
        ||| (self.focus is DataView && key == self.config.key_config.toggle_tabs)
        ||| (self.focus is ConnectionList && key == self.config.key_config.enter)
        ||| (self.focus is DatabaseTree && key == self.config.key_config.focus_right
            && self.databases.selection is Some)
        ||| (self.focus is DataView && key == self.config.key_config.focus_left)
    }

    /// Routes one key through the overlays, the focused panel, and the layout
    /// bindings, in strict priority order, short-circuiting on the first
    /// consumer. Never moves focus or tab; those belong to `move_focus`.
    pub fn components_event(&mut self, key: Key) -> (r: (EventState, Option<Action>))
        requires
            old(self).wf(),
        ensures
            final(self).wf(),
            final(self).config == old(self).config,
            final(self).focus == old(self).focus,
            final(self).tab == old(self).tab,
            r.1 is Some ==> r.0 is Consumed,
            (r.0 is Consumed) == old(self).spec_dispatch_consumes(key),
            r.0 is NotConsumed ==> r.1 is None && *final(self) == *old(self),
            old(self).error.visible ==> r.0 is Consumed && r.1 is None && *final(self) == (App {
                error: final(self).error,
                ..*old(self)
            }),
            // panels other than the focused one are left alone, the help
            // overlay never moves while the connection list owns focus, and
            // errors appear only through the overlay itself
            final(self).help.cmds == old(self).help.cmds,
            old(self).focus is ConnectionList ==> final(self).help == old(self).help,
            !old(self).error.visible ==> final(self).error == old(self).error,
            !(old(self).focus is ConnectionList) ==> final(self).connections == old(self).connections,
            !(old(self).focus is DatabaseTree) ==> final(self).databases == old(self).databases,
            !(old(self).focus is DataView && old(self).tab.selected_tab is Records) && !(old(self).focus is DatabaseTree) ==> final(self).record_table == old(self).record_table,
            !(old(self).focus is DataView && old(self).tab.selected_tab is Sql) ==> final(self).sql_editor == old(self).sql_editor,
            !(old(self).focus is DataView && old(self).tab.selected_tab is Properties) ==> final(self).properties == old(self).properties,
            old(self).focus is DatabaseTree && !(r.1 matches Some(Action::SelectTable { .. })) ==> final(self).record_table == old(self).record_table,
            old(self).focus is DataView ==> final(self).record_table.table.rows == old(self).record_table.table.rows && final(self).record_table.table.eod == old(self).record_table.table.eod && final(self).record_table.table.headers == old(self).record_table.table.headers && final(self).record_table.table.selected_table == old(self).record_table.table.selected_table,
            key != old(self).config.key_config.extend_or_shorten_widget_width_to_left && key != old(self).config.key_config.extend_or_shorten_widget_width_to_right ==> final(self).left_main_chunk_percentage == old(self).left_main_chunk_percentage,
            // a confirm with nothing selected does nothing at all
            old(self).focus is ConnectionList && old(self).connections.selection is None && key == old(self).config.key_config.enter ==> *final(self) == (App {
                error: final(self).error,
                ..*old(self)
            }),
            // without a selected table nothing can be fetched
            old(self).focus is DataView && old(self).record_table.table.selected_table is None ==> !(r.1 matches Some(Action::FetchNextPage { .. })) && !(r.1 matches Some(Action::FilterRecords { .. })),
            r.1 matches Some(Action::SwitchConnection { connection, close }) ==> {
                &&& old(self).focus is ConnectionList
                &&& key == old(self).config.key_config.enter
                &&& close == old(self).pool.held
                &&& final(self).pool.held is None
                &&& final(self).connections == old(self).connections
                &&& (final(self).connections.selection matches Some(i) && connection == final(self).connections.connections@[i as int])
            },
            !(r.1 matches Some(Action::SwitchConnection { .. })) ==> final(self).pool == old(self).pool,
            r.1 matches Some(Action::SelectTable { database, table }) ==> {
                &&& old(self).focus is DatabaseTree
                &&& key == old(self).config.key_config.enter
                &&& final(self).databases == old(self).databases
                &&& !final(self).databases.filter_focused
                &&& (final(self).databases.selection matches Some(s) && s.table matches Some(t)
                    && database@ == final(self).databases.databases@[s.database as int].name@
                    && table@ == final(self).databases.databases@[s.database as int].tables@[t as int]@)
                &&& final(self).record_table.table.rows@ == Seq::<Vec<String>>::empty()
                &&& !final(self).record_table.table.eod
                &&& final(self).record_table.filter@ == Seq::<char>::empty()
            },
            r.1 matches Some(Action::FetchNextPage { database, table, offset, filter }) ==> {
                &&& old(self).focus is DataView
                &&& old(self).tab.selected_tab is Records
                &&& !final(self).record_table.table.eod
                &&& offset == final(self).record_table.table.rows@.len()
                &&& offset as int % (final(self).record_table.table.page_size as int) == 0
                &&& offset > 0
                &&& Some(offset) == final(self).record_table.table.spec_next_fetch_offset()
                &&& (final(self).record_table.table.selected_table matches Some(p) && database@
                    == p.0@ && table@ == p.1@)
                &&& match filter {
                    Some(f) => f@ == final(self).record_table.filter@ && f@.len() > 0,
                    None => final(self).record_table.filter@.len() == 0,
                }
            },
            r.1 matches Some(Action::CopyCell { text }) ==> {
                &&& old(self).focus is DataView
                &&& old(self).tab.selected_tab is Records
                &&& key == old(self).config.key_config.copy
                &&& (final(self).record_table.table.selected_row matches Some(i) && final(self).record_table.table.headers@.len() > 0 && text@ == final(self).record_table.table.rows@[i as int]@[final(self).record_table.table.selected_column as int]@)
            },
            r.1 matches Some(Action::FilterRecords { database, table, filter }) ==> {
                &&& old(self).focus is DataView
                &&& old(self).tab.selected_tab is Records
                &&& key == old(self).config.key_config.enter
                &&& (final(self).record_table.table.selected_table matches Some(p) && database@
                    == p.0@ && table@ == p.1@)
                &&& match filter {
                    Some(f) => f@ == final(self).record_table.filter@ && f@.len() > 0,
                    None => final(self).record_table.filter@.len() == 0,
                }
            },
            r.1 matches Some(Action::ExecuteQuery { query }) ==> {
                &&& old(self).focus is DataView
                &&& old(self).tab.selected_tab is Sql
                &&& key == old(self).config.key_config.enter
                &&& query@ == final(self).sql_editor.query@
            },
            // a confirm on the connection list always requests a switch
            old(self).reaches_focused_panel(key) && old(self).focus is ConnectionList && key
                == old(self).config.key_config.enter && key != old(self).config.key_config.scroll_down && key != old(self).config.key_config.scroll_up && old(self).connections.selection is Some ==> (r.1 matches Some(
                Action::SwitchConnection { .. },
            )),
            // a confirm on a table node always requests its first page
            old(self).reaches_focused_panel(key) && old(self).focus is DatabaseTree && !old(self).databases.filter_focused && key == old(self).config.key_config.enter && key != old(self).config.key_config.filter && key != old(self).config.key_config.scroll_down && key
                != old(self).config.key_config.scroll_up && (old(self).databases.selection matches Some(s) && s.table is Some) ==> (r.1 matches Some(
                Action::SelectTable { .. },
            )),
            // scrolling across a page boundary always requests the next page
            old(self).reaches_focused_panel(key) && old(self).focus is DataView && old(self).tab.selected_tab is Records && old(self).record_table.focus is Table && key == old(self).config.key_config.scroll_down && key != old(self).config.key_config.filter && final(self).record_table.table.spec_next_fetch_offset() is Some && final(self).record_table.table.selected_table is Some ==> (r.1 matches Some(
                Action::FetchNextPage { offset, .. },
            ) && Some(offset) == final(self).record_table.table.spec_next_fetch_offset()),
            // the copy binding with a cell under the cursor always hands it out
            old(self).reaches_focused_panel(key) && old(self).focus is DataView && old(self).tab.selected_tab is Records && key == old(self).config.key_config.copy && !old(self).record_table.spec_consumes(key) && old(self).record_table.table.selected_row is Some && old(self).record_table.table.headers@.len() > 0 ==> (r.1 matches Some(
                Action::CopyCell { .. },
            )),
            // confirming the filter always refetches from offset zero
            old(self).reaches_focused_panel(key) && old(self).focus is DataView && old(self).tab.selected_tab is Records && old(self).record_table.focus is Filter && key == old(self).config.key_config.enter && key != old(self).config.key_config.copy && !(key matches Key::Char(_)) && key != Key::Backspace && key != Key::Esc && old(self).record_table.table.selected_table is Some ==> (r.1 matches Some(
                Action::FilterRecords { .. },
            )),
            // a confirm on the query console always executes the query
            old(self).reaches_focused_panel(key) && old(self).focus is DataView && old(self).tab.selected_tab is Sql && key == old(self).config.key_config.enter && !(key matches Key::Char(_)) && key != Key::Backspace ==> (r.1 matches
                Some(Action::ExecuteQuery { .. })),
    {
        if self.error.event(key).is_consumed() {
            return (EventState::Consumed, None);
        }
        if !matches!(self.focus, Focus::ConnectionList) {
            if self.help.event(key).is_consumed() {
                return (EventState::Consumed, None);
            }
        }
        match self.focus {
            Focus::ConnectionList => {
                if self.connections.event(key).is_consumed() {
                    return (EventState::Consumed, None);
                }
                if key == self.config.key_config.enter {
                    let conn: Option<Connection> = match self.connections.selected_connection() {
                        Some(c) => Some(c.clone()),
                        None => None,
                    };
                    if let Some(connection) = conn {
                        let close = self.pool.begin_switch();
                        return (
                            EventState::Consumed,
                            Some(Action::SwitchConnection { connection, close }),
                        );
                    }
                    return (EventState::Consumed, None);
                }
            },
            Focus::DatabaseTree => {
                if self.databases.event(key).is_consumed() {
                    return (EventState::Consumed, None);
                }
                if key == self.config.key_config.enter && self.databases.tree_focused() {
                    if let Some((database, table)) = self.databases.selected_table() {
                        self.record_table.reset();
                        return (
                            EventState::Consumed,
                            Some(Action::SelectTable { database, table }),
                        );
                    }
                    return (EventState::Consumed, None);
                }
            },
            Focus::DataView => {
                match self.tab.selected_tab {
                    Tab::Records => {
                        if self.record_table.event(key).is_consumed() {
                            // Scrolling may have crossed a page boundary; the
                            // prefetch keeps latency bounded to one page.
                            if let Some(offset) = self.record_table.table.next_fetch_offset() {
                                let ident: Option<(String, String)> = match &self.record_table.table.selected_table {
                                    Some(p) => Some((p.0.clone(), p.1.clone())),
                                    None => None,
                                };
                                if let Some((database, table)) = ident {
                                    let filter = self.record_table.current_filter();
                                    return (
                                        EventState::Consumed,
                                        Some(
                                            Action::FetchNextPage { database, table, offset, filter },
                                        ),
                                    );
                                }
                            }
                            return (EventState::Consumed, None);
                        }
                        if key == self.config.key_config.copy {
                            if let Some(text) = self.record_table.table.selected_cells() {
                                return (EventState::Consumed, Some(Action::CopyCell { text }));
                            }
                        }
                        if key == self.config.key_config.enter && self.record_table.filter_focused()
                        {
                            self.record_table.focus = record_table::Focus::Table;
                            let ident: Option<(String, String)> = match &self.record_table.table.selected_table {
                                Some(p) => Some((p.0.clone(), p.1.clone())),
                                None => None,
                            };
                            if let Some((database, table)) = ident {
                                let filter = self.record_table.current_filter();
                                return (
                                    EventState::Consumed,
                                    Some(Action::FilterRecords { database, table, filter }),
                                );
                            }
                            return (EventState::Consumed, None);
                        }
                    },
                    Tab::Sql => {
                        if self.sql_editor.event(key).is_consumed() {
                            return (EventState::Consumed, None);
                        }
                        if key == self.config.key_config.enter {
                            let query = self.sql_editor.query_text();
                            return (EventState::Consumed, Some(Action::ExecuteQuery { query }));
                        }
                    },
                    Tab::Properties => {
                        if self.properties.event(key).is_consumed() {
                            return (EventState::Consumed, None);
                        }
                    },
                }
            },
        }
        if self.extend_or_shorten_widget_width(key).is_consumed() {
            return (EventState::Consumed, None);
        }
        (EventState::NotConsumed, None)
    }

    /// One input event, fully processed: the help list is refreshed, then the
    /// event runs through the dispatcher and, if nothing consumed it, through
    /// global focus movement. While an error is displayed, the event is
    /// consumed by the overlay and neither focus nor tab nor any data moves.
    pub fn event(&mut self, key: Key) -> (r: (EventState, Option<Action>))
        requires
            old(self).wf(),
        ensures
            final(self).wf(),
            final(self).config == old(self).config,
            r.1 is Some ==> r.0 is Consumed,
            (r.0 is Consumed) == (old(self).spec_dispatch_consumes(key) || old(self).spec_move_focus_consumes(key)),
            final(self).help.cmds@ == old(self).spec_commands(),
            old(self).focus is ConnectionList ==> final(self).help.visible == old(self).help.visible,
            old(self).error.visible ==> {
                &&& r.0 is Consumed
                &&& r.1 is None
                &&& final(self).focus == old(self).focus
                &&& final(self).tab == old(self).tab
                &&& final(self).record_table == old(self).record_table
                &&& final(self).pool == old(self).pool
                &&& final(self).databases == old(self).databases
                &&& final(self).connections == old(self).connections
                &&& final(self).sql_editor == old(self).sql_editor
                &&& final(self).properties == old(self).properties
                &&& final(self).left_main_chunk_percentage == old(self).left_main_chunk_percentage
            },
            r.0 is NotConsumed ==> r.1 is None && *final(self) == (App {
                help: final(self).help,
                ..*old(self)
            }) && final(self).help.visible == old(self).help.visible,
            // a confirm on the connection list always requests a switch
            old(self).reaches_focused_panel(key) && old(self).focus is ConnectionList && key == old(self).config.key_config.enter && key != old(self).config.key_config.scroll_down && key != old(self).config.key_config.scroll_up && old(self).connections.selection is Some ==> (r.1 matches Some(
                Action::SwitchConnection { .. },
            )),
            // a confirm on a table node always requests its first page
            old(self).reaches_focused_panel(key) && old(self).focus is DatabaseTree && !old(self).databases.filter_focused && key == old(self).config.key_config.enter && key != old(self).config.key_config.filter && key != old(self).config.key_config.scroll_down && key != old(self).config.key_config.scroll_up && (old(self).databases.selection matches Some(s) && s.table is Some) ==> (r.1 matches Some(
                Action::SelectTable { .. },
            )),
            // scrolling across a page boundary always requests the next page
            old(self).reaches_focused_panel(key) && old(self).focus is DataView && old(self).tab.selected_tab is Records && old(self).record_table.focus is Table && key == old(self).config.key_config.scroll_down && key != old(self).config.key_config.filter && final(self).record_table.table.spec_next_fetch_offset() is Some && final(self).record_table.table.selected_table is Some ==> (r.1 matches Some(
                Action::FetchNextPage { offset, .. },
            ) && Some(offset) == final(self).record_table.table.spec_next_fetch_offset()),
            // the copy binding with a cell under the cursor always hands it out
            old(self).reaches_focused_panel(key) && old(self).focus is DataView && old(self).tab.selected_tab is Records && key == old(self).config.key_config.copy && !old(self).record_table.spec_consumes(key) && old(self).record_table.table.selected_row is Some && old(self).record_table.table.headers@.len() > 0 ==> (r.1 matches Some(
                Action::CopyCell { .. },
            )),
            // confirming the filter always refetches from offset zero
            old(self).reaches_focused_panel(key) && old(self).focus is DataView && old(self).tab.selected_tab is Records && old(self).record_table.focus is Filter && key == old(self).config.key_config.enter && key != old(self).config.key_config.copy && !(key matches Key::Char(_)) && key != Key::Backspace && key != Key::Esc && old(self).record_table.table.selected_table is Some ==> (r.1 matches Some(
                Action::FilterRecords { .. },
            )),
            // a confirm on the query console always executes the query
            old(self).reaches_focused_panel(key) && old(self).focus is DataView && old(self).tab.selected_tab is Sql && key == old(self).config.key_config.enter && !(key matches Key::Char(_)) && key != Key::Backspace ==> (r.1 matches
                Some(Action::ExecuteQuery { .. })),
    {
        self.update_commands();
        let (state, action) = self.components_event(key);
        if state.is_consumed() {
            return (EventState::Consumed, action);
        }
        let state2 = self.move_focus(key);
        (state2, None)
    }

    /// Applies the outcome of a connection switch, whose close-then-open the
    /// I/O layer has just performed. On success the new adapter takes the
    /// (empty) slot, the schema tree is rebuilt, the cache and tab reset, and
    /// focus moves to the tree. On failure no adapter is held, nothing else
    /// moves, and the error is surfaced.
    pub fn update_databases(&mut self, kind: BackendKind, outcome: Result<Vec<Database>, DbError>) -> (r: Option<
        Adapter,
    >)
        requires
            old(self).wf(),
            old(self).pool.held is None,
            old(self).pool.next_id < u64::MAX,
        ensures
            final(self).wf(),
            final(self).config == old(self).config,
            match outcome {
                Ok(databases) => {
                    &&& (r matches Some(a) && a.kind == kind && final(self).pool.held == Some(a)
                        && final(self).pool.history@ == old(self).pool.history@.push(
                        LifecycleEvent::Opened(a.id),
                    ))
                    &&& final(self).databases.databases == databases
                    &&& final(self).databases.selection is None
                    &&& final(self).focus is DatabaseTree
                    &&& final(self).tab.selected_tab is Records
                    &&& final(self).record_table.table.rows@ == Seq::<Vec<String>>::empty()
                    &&& !final(self).record_table.table.eod
                    &&& final(self).record_table.filter@ == Seq::<char>::empty()
                    &&& final(self).error == old(self).error
                },
                Err(e) => {
                    &&& r is None
                    &&& final(self).pool == old(self).pool
                    &&& final(self).focus == old(self).focus
                    &&& final(self).tab == old(self).tab
                    &&& final(self).databases == old(self).databases
                    &&& final(self).record_table == old(self).record_table
                    &&& final(self).error.visible
                    &&& final(self).error.message == e.spec_message()
                },
            },
    {
        match outcome {
            Ok(databases) => {
                let a = self.pool.complete_switch(kind);
                self.databases.update(databases);
                self.record_table.reset();
                self.tab.reset();
                self.focus = Focus::DatabaseTree;
                Some(a)
            },
            Err(e) => {
                self.error.set(e.message());
                None
            },
        }
    }

    /// Applies what was fetched for a newly selected table. On success the
    /// cache is populated, the properties panel filled, and focus moves to
    /// the data view; on failure the cache stays as it was and the error is
    /// surfaced.
    pub fn finish_select_table(
        &mut self,
        database: String,
        table: String,
        outcome: Result<TableData, DbError>,
    )
        requires
            old(self).wf(),
            outcome matches Ok(d) ==> d.rows@.len() <= old(self).record_table.table.page_size
                && forall|i: int|
                0 <= i < d.rows@.len() ==> (#[trigger] d.rows@[i])@.len() == d.headers@.len(),
        ensures
            final(self).wf(),
            final(self).config == old(self).config,
            final(self).pool == old(self).pool,
            match outcome {
                Ok(d) => {
                    &&& final(self).record_table.table.rows == d.rows
                    &&& final(self).record_table.table.headers == d.headers
                    &&& final(self).record_table.table.eod == (d.rows@.len() < old(self).record_table.table.page_size)
                    &&& final(self).record_table.table.selected_table == Some((database, table))
                    &&& final(self).properties.rows == d.properties
                    &&& final(self).focus is DataView
                    &&& final(self).error == old(self).error
                },
                Err(e) => {
                    &&& final(self).record_table == old(self).record_table
                    &&& final(self).focus == old(self).focus
                    &&& final(self).error.visible
                    &&& final(self).error.message == e.spec_message()
                },
            },
    {
        match outcome {
            Ok(d) => {
                self.record_table.update(d.rows, d.headers, database, table);
                self.properties.update(d.properties);
                self.focus = Focus::DataView;
            },
            Err(e) => {
                self.error.set(e.message());
            },
        }
    }

    /// Applies a refetch under a changed filter: the cache is replaced from
    /// page zero on success; on failure it is left untouched and the error
    /// surfaced.
    pub fn update_record_table(
        &mut self,
        database: String,
        table: String,
        outcome: Result<(Vec<String>, Vec<Vec<String>>), DbError>,
    )
        requires
            old(self).wf(),
            outcome matches Ok(d) ==> d.1@.len() <= old(self).record_table.table.page_size
                && forall|i: int|
                0 <= i < d.1@.len() ==> (#[trigger] d.1@[i])@.len() == d.0@.len(),
        ensures
            final(self).wf(),
            final(self).config == old(self).config,
            final(self).pool == old(self).pool,
            final(self).focus == old(self).focus,
            match outcome {
                Ok(d) => {
                    &&& final(self).record_table.table.headers == d.0
                    &&& final(self).record_table.table.rows == d.1
                    &&& final(self).record_table.table.eod == (d.1@.len() < old(self).record_table.table.page_size)
                    &&& final(self).record_table.table.selected_table == Some((database, table))
                    &&& final(self).record_table.filter == old(self).record_table.filter
                    &&& final(self).error == old(self).error
                },
                Err(e) => {
                    &&& final(self).record_table == old(self).record_table
                    &&& final(self).error.visible
                    &&& final(self).error.message == e.spec_message()
                },
            },
    {
        match outcome {
            Ok(d) => {
                self.record_table.update(d.1, d.0, database, table);
            },
            Err(e) => {
                self.error.set(e.message());
            },
        }
    }

    /// Applies one further fetched page. The page is appended and a short
    /// page sets end-of-data; on failure the rows already accumulated are
    /// preserved and the error surfaced.
    pub fn finish_next_page(&mut self, outcome: Result<Vec<Vec<String>>, DbError>)
        requires
            old(self).wf(),
            outcome matches Ok(rows) ==> rows@.len() <= old(self).record_table.table.page_size
                && forall|i: int|
                0 <= i < rows@.len() ==> (#[trigger] rows@[i])@.len() == old(self).record_table.table.headers@.len(),
        ensures
            final(self).wf(),
            final(self).config == old(self).config,
            final(self).pool == old(self).pool,
            final(self).focus == old(self).focus,
            final(self).tab == old(self).tab,
            match outcome {
                Ok(rows) => {
                    &&& final(self).record_table.table.rows@ == old(self).record_table.table.rows@ + rows@
                    &&& final(self).record_table.table.eod == (old(self).record_table.table.eod
                        || rows@.len() < old(self).record_table.table.page_size)
                    &&& final(self).record_table.table.headers == old(self).record_table.table.headers
                    &&& final(self).record_table.filter == old(self).record_table.filter
                    &&& final(self).error == old(self).error
                },
                Err(e) => {
                    &&& final(self).record_table == old(self).record_table
                    &&& final(self).error.visible
                    &&& final(self).error.message == e.spec_message()
                },
            },
    {
        match outcome {
            Ok(rows) => {
                self.record_table.table.append_page(rows);
            },
            Err(e) => {
                self.error.set(e.message());
            },
        }
    }

    /// Applies a query console result: rows shown on success, the error
    /// surfaced on failure. The record cache is never touched by a query.
    pub fn finish_query(&mut self, outcome: Result<(Vec<String>, Vec<Vec<String>>), DbError>)
        requires
            old(self).wf(),
        ensures
            final(self).wf(),
            final(self).config == old(self).config,
            final(self).pool == old(self).pool,
            final(self).record_table == old(self).record_table,
            match outcome {
                Ok(d) => final(self).sql_editor.result_headers == d.0 && final(self).sql_editor.result_rows == d.1 && final(self).error == old(self).error,
                Err(e) => final(self).sql_editor == old(self).sql_editor && final(self).error.visible && final(self).error.message == e.spec_message(),
            },
    {
        match outcome {
            Ok(d) => {
                self.sql_editor.update_result(d.0, d.1);
            },
            Err(e) => {
                self.error.set(e.message());
            },
        }
    }
}

} // verus!
