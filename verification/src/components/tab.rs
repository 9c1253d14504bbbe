use vstd::prelude::*;

use crate::components::EventState;
use crate::config::KeyConfig;
use crate::key::Key;

verus! {

/// Which sub-panel of the data view is active. Only meaningful while the
/// data view owns focus; it is kept, not reset, while focus is elsewhere.
#[derive(Clone, Copy, Debug, PartialEq, Eq, Structural)]
pub enum Tab {
    Records,
    Sql,
    Properties,
}

impl Tab {
    pub open spec fn spec_next(self) -> Tab {
        match self {
            Tab::Records => Tab::Sql,
            Tab::Sql => Tab::Properties,
            Tab::Properties => Tab::Records,
        }
    }

    pub fn next(self) -> (r: Tab)
        ensures
            r == self.spec_next(),
    {
        match self {
            Tab::Records => Tab::Sql,
            Tab::Sql => Tab::Properties,
            Tab::Properties => Tab::Records,
        }
    }
}

pub struct TabComponent {
    pub key_config: KeyConfig,
    pub selected_tab: Tab,
}

impl TabComponent {
    /// Only the toggle binding is taken.
    pub open spec fn spec_consumes(self, key: Key) -> bool {
        key == self.key_config.toggle_tabs
    }

    pub fn new(key_config: KeyConfig) -> (r: TabComponent)
        ensures
            r.key_config == key_config,
            r.selected_tab == Tab::Records,
    {
        TabComponent { key_config, selected_tab: Tab::Records }
    }

    pub fn reset(&mut self)
        ensures
            final(self).key_config == old(self).key_config,
            final(self).selected_tab == Tab::Records,
    {
        self.selected_tab = Tab::Records;
    }

    /// Cycles to the next tab when the toggle binding is pressed.
    pub fn event(&mut self, key: Key) -> (r: EventState)
        ensures
            final(self).key_config == old(self).key_config,
            (r is Consumed) == old(self).spec_consumes(key),
            key == old(self).key_config.toggle_tabs ==> r is Consumed && final(self).selected_tab
                == old(self).selected_tab.spec_next(),
            key != old(self).key_config.toggle_tabs ==> r is NotConsumed && *final(self) == *old(self),
    {
        if key == self.key_config.toggle_tabs {
            self.selected_tab = self.selected_tab.next();
            EventState::Consumed
        } else {
            EventState::NotConsumed
        }
    }
}

} // verus!
