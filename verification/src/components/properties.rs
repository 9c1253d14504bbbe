use vstd::prelude::*;

use crate::components::EventState;
use crate::config::KeyConfig;
use crate::key::Key;

verus! {

/// The schema properties panel: one row per property of the selected table,
/// with a cursor over them. Its contents are fetched when a table is
/// selected.
pub struct PropertiesComponent {
    pub key_config: KeyConfig,
    pub rows: Vec<Vec<String>>,
    pub selection: Option<usize>,
}

impl PropertiesComponent {
    pub open spec fn wf(self) -> bool {
        match self.selection {
            Some(i) => i < self.rows@.len(),
            None => true,
        }
    }

    pub fn new(key_config: KeyConfig) -> (r: PropertiesComponent)
        ensures
            r.wf(),
            r.key_config == key_config,
            r.rows@ == Seq::<Vec<String>>::empty(),
            r.selection is None,
    {
        PropertiesComponent { key_config, rows: Vec::new(), selection: None }
    }

    /// Replaces the panel's contents for a newly selected table.
    pub fn update(&mut self, rows: Vec<Vec<String>>)
        ensures
            final(self).wf(),
            final(self).key_config == old(self).key_config,
            final(self).rows == rows,
            rows@.len() > 0 ==> final(self).selection == Some(0usize),
            rows@.len() == 0 ==> final(self).selection is None,
    {
        self.selection = if rows.len() > 0 {
            Some(0)
        } else {
            None
        };
        self.rows = rows;
    }

    pub open spec fn spec_next_selection(self) -> Option<usize> {
        match self.selection {
            Some(i) => if i + 1 < self.rows@.len() {
                Some((i + 1) as usize)
            } else {
                Some(i)
            },
            None => None,
        }
    }

    pub open spec fn spec_prev_selection(self) -> Option<usize> {
        match self.selection {
            Some(i) => if i > 0 {
                Some((i - 1) as usize)
            } else {
                Some(i)
            },
            None => None,
        }
    }

    /// Only the scroll bindings are taken.
    pub open spec fn spec_consumes(self, key: Key) -> bool {
        key == self.key_config.scroll_down || key == self.key_config.scroll_up
    }

    /// Moves the cursor with the scroll bindings; other keys are ignored.
    pub fn event(&mut self, key: Key) -> (r: EventState)
        requires
            old(self).wf(),
        ensures
            final(self).wf(),
            final(self).key_config == old(self).key_config,
            final(self).rows == old(self).rows,
            (r is Consumed) == old(self).spec_consumes(key),
            key == old(self).key_config.scroll_down ==> r is Consumed && final(self).selection
                == old(self).spec_next_selection(),
            key != old(self).key_config.scroll_down && key == old(self).key_config.scroll_up ==> r
                is Consumed && final(self).selection == old(self).spec_prev_selection(),
            key != old(self).key_config.scroll_down && key != old(self).key_config.scroll_up ==> r
                is NotConsumed && *final(self) == *old(self),
    {
        if key == self.key_config.scroll_down {
            let n = self.rows.len();
            if let Some(i) = self.selection {
                if i + 1 < n {
                    self.selection = Some(i + 1);
                }
            }
            EventState::Consumed
        } else if key == self.key_config.scroll_up {
            if let Some(i) = self.selection {
                if i > 0 {
                    self.selection = Some(i - 1);
                }
            }
            EventState::Consumed
        } else {
            EventState::NotConsumed
        }
    }
}

} // verus!
