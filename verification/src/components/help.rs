use vstd::prelude::*;

use crate::components::command::CommandInfo;
use crate::components::EventState;
use crate::config::KeyConfig;
use crate::key::Key;

verus! {

/// The help overlay: a list of the currently available commands. While
/// visible it captures every input event.
pub struct HelpComponent {
    pub key_config: KeyConfig,
    pub cmds: Vec<CommandInfo>,
    pub visible: bool,
}

impl HelpComponent {
    /// The overlay takes a key while it is shown, and the help binding opens
    /// it.
    pub open spec fn spec_consumes(self, key: Key) -> bool {
        self.visible || key == self.key_config.open_help
    }

    pub fn new(key_config: KeyConfig) -> (r: HelpComponent)
        ensures
            r.key_config == key_config,
            !r.visible,
            r.cmds@ == Seq::<CommandInfo>::empty(),
    {
        HelpComponent { key_config, cmds: Vec::new(), visible: false }
    }

    pub fn set_cmds(&mut self, cmds: Vec<CommandInfo>)
        ensures
            final(self).key_config == old(self).key_config,
            final(self).visible == old(self).visible,
            final(self).cmds == cmds,
    {
        self.cmds = cmds;
    }

    /// While visible, consumes every key and hides on the dismiss binding;
    /// otherwise the help binding opens the overlay.
    pub fn event(&mut self, key: Key) -> (r: EventState)
        ensures
            final(self).key_config == old(self).key_config,
            final(self).cmds == old(self).cmds,
            (r is Consumed) == old(self).spec_consumes(key),
            old(self).visible ==> r is Consumed && final(self).visible == (key != old(self).key_config.exit_popup),
            !old(self).visible && key == old(self).key_config.open_help ==> r is Consumed
                && final(self).visible,
            !old(self).visible && key != old(self).key_config.open_help ==> r is NotConsumed
                && *final(self) == *old(self),
    {
        if self.visible {
            if key == self.key_config.exit_popup {
                self.visible = false;
            }
            EventState::Consumed
        } else if key == self.key_config.open_help {
            self.visible = true;
            EventState::Consumed
        } else {
            EventState::NotConsumed
        }
    }
}

} // verus!
