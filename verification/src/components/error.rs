use vstd::prelude::*;

use crate::components::EventState;
use crate::config::KeyConfig;
use crate::key::Key;

verus! {

/// The error overlay. While a message is shown it captures every input
/// event; the dismiss binding clears it.
pub struct ErrorComponent {
    pub key_config: KeyConfig,
    pub message: String,
    pub visible: bool,
}

impl ErrorComponent {
    /// The overlay takes a key exactly while it is shown.
    pub open spec fn spec_consumes(self, key: Key) -> bool {
        self.visible
    }

    pub fn new(key_config: KeyConfig) -> (r: ErrorComponent)
        ensures
            r.key_config == key_config,
            !r.visible,
            r.message@ == Seq::<char>::empty(),
    {
        ErrorComponent { key_config, message: String::new(), visible: false }
    }

    pub fn set(&mut self, error: String)
        ensures
            final(self).key_config == old(self).key_config,
            final(self).visible,
            final(self).message == error,
    {
        self.message = error;
        self.visible = true;
    }

    /// While visible, consumes every key; the dismiss binding hides the
    /// overlay, anything else leaves it up.
    pub fn event(&mut self, key: Key) -> (r: EventState)
        ensures
            final(self).key_config == old(self).key_config,
            (r is Consumed) == old(self).spec_consumes(key),
            old(self).visible ==> r is Consumed,
            old(self).visible && key == old(self).key_config.exit_popup ==> !final(self).visible
                && final(self).message@ == Seq::<char>::empty(),
            old(self).visible && key != old(self).key_config.exit_popup ==> *final(self) == *old(self),
            !old(self).visible ==> r is NotConsumed && *final(self) == *old(self),
    {
        if self.visible {
            if key == self.key_config.exit_popup {
                self.message = String::new();
                self.visible = false;
            }
            EventState::Consumed
        } else {
            EventState::NotConsumed
        }
    }
}

} // verus!
