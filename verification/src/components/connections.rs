use vstd::prelude::*;

use crate::components::EventState;
use crate::config::Connection;
use crate::config::KeyConfig;
use crate::key::Key;

verus! {

/// The connection list panel: the configured connection definitions and the
/// cursor over them.
pub struct ConnectionsComponent {
    pub key_config: KeyConfig,
    pub connections: Vec<Connection>,
    pub selection: Option<usize>,
}

impl ConnectionsComponent {
    pub open spec fn wf(self) -> bool {
        match self.selection {
            Some(i) => i < self.connections@.len(),
            None => self.connections@.len() == 0,
        }
    }

    pub fn new(key_config: KeyConfig, connections: Vec<Connection>) -> (r: ConnectionsComponent)
        ensures
            r.wf(),
            r.key_config == key_config,
            r.connections == connections,
            connections@.len() > 0 ==> r.selection == Some(0usize),
            connections@.len() == 0 ==> r.selection is None,
    {
        let selection: Option<usize> = if connections.len() > 0 {
            Some(0)
        } else {
            None
        };
        ConnectionsComponent { key_config, connections, selection }
    }

    /// The connection the cursor rests on, if any.
    pub fn selected_connection(&self) -> (r: Option<&Connection>)
        requires
            self.wf(),
        ensures
            match r {
                Some(c) => self.selection matches Some(i) && *c == self.connections@[i as int],
                None => self.selection is None,
            },
    {
        match self.selection {
            Some(i) => Some(&self.connections[i]),
            None => None,
        }
    }

    pub open spec fn spec_next_selection(self) -> Option<usize> {
        match self.selection {
            Some(i) => if i + 1 < self.connections@.len() {
                Some((i + 1) as usize)
            } else {
                Some(i)
            },
            None => None,
        }
    }

    pub open spec fn spec_prev_selection(self) -> Option<usize> {
        match self.selection {
            Some(i) => if i > 0 {
                Some((i - 1) as usize)
            } else {
                Some(i)
            },
            None => None,
        }
    }

    /// Only the scroll bindings are taken.
    pub open spec fn spec_consumes(self, key: Key) -> bool {
        key == self.key_config.scroll_down || key == self.key_config.scroll_up
    }

    /// Moves the cursor with the scroll bindings; other keys are ignored.
    pub fn event(&mut self, key: Key) -> (r: EventState)
        requires
            old(self).wf(),
        ensures
            final(self).wf(),
            final(self).key_config == old(self).key_config,
            final(self).connections == old(self).connections,
            (r is Consumed) == old(self).spec_consumes(key),
            key == old(self).key_config.scroll_down ==> r is Consumed && final(self).selection
                == old(self).spec_next_selection(),
            key != old(self).key_config.scroll_down && key == old(self).key_config.scroll_up ==> r
                is Consumed && final(self).selection == old(self).spec_prev_selection(),
            key != old(self).key_config.scroll_down && key != old(self).key_config.scroll_up ==> r
                is NotConsumed && *final(self) == *old(self),
    {
        if key == self.key_config.scroll_down {
            let n = self.connections.len();
            if let Some(i) = self.selection {
                if i + 1 < n {
                    self.selection = Some(i + 1);
                }
            }
            EventState::Consumed
        } else if key == self.key_config.scroll_up {
            if let Some(i) = self.selection {
                if i > 0 {
                    self.selection = Some(i - 1);
                }
            }
            EventState::Consumed
        } else {
            EventState::NotConsumed
        }
    }
}

} // verus!
