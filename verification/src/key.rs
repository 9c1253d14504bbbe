use vstd::prelude::*;

verus! {

/// One already-decoded input event: a printable character or a named control
/// key. Decoding raw terminal bytes into these values happens outside the
/// library; the core only compares them against the configured bindings.
#[derive(Clone, Copy, Debug, PartialEq, Eq, Structural)]
pub enum Key {
    Char(char),
    Enter,
    Esc,
    Backspace,
    Tab,
    Up,
    Down,
    Left,
    Right,
}

} // verus!
