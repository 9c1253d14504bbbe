use vstd::prelude::*;

use crate::config::KeyConfig;
use crate::key::Key;

verus! {

/// A logical action that can appear in the help overlay.
#[derive(Clone, Copy, Debug, PartialEq, Eq, Structural)]
pub enum CommandKind {
    Filter,
    Help,
    ToggleTabs,
    Scroll,
    ScrollToTopBottom,
    ScrollUpDownMultipleLines,
    MoveFocus,
    ExtendOrShortenWidgetWidth,
    SelectTable,
    CopyCell,
}

/// One help entry: a logical action together with the key bound to it.
#[derive(Clone, Copy, Debug, PartialEq, Eq, Structural)]
pub struct CommandInfo {
    pub kind: CommandKind,
    pub key: Key,
}

pub fn filter(kc: &KeyConfig) -> (r: CommandInfo)
    ensures
        r == (CommandInfo { kind: CommandKind::Filter, key: kc.filter }),
{
    CommandInfo { kind: CommandKind::Filter, key: kc.filter }
}

pub fn help(kc: &KeyConfig) -> (r: CommandInfo)
    ensures
        r == (CommandInfo { kind: CommandKind::Help, key: kc.open_help }),
{
    CommandInfo { kind: CommandKind::Help, key: kc.open_help }
}

pub fn toggle_tabs(kc: &KeyConfig) -> (r: CommandInfo)
    ensures
        r == (CommandInfo { kind: CommandKind::ToggleTabs, key: kc.toggle_tabs }),
{
    CommandInfo { kind: CommandKind::ToggleTabs, key: kc.toggle_tabs }
}

pub fn scroll(kc: &KeyConfig) -> (r: CommandInfo)
    ensures
        r == (CommandInfo { kind: CommandKind::Scroll, key: kc.scroll_down }),
{
    CommandInfo { kind: CommandKind::Scroll, key: kc.scroll_down }
}

pub fn scroll_to_top_bottom(kc: &KeyConfig) -> (r: CommandInfo)
    ensures
        r == (CommandInfo { kind: CommandKind::ScrollToTopBottom, key: kc.scroll_up }),
{
    CommandInfo { kind: CommandKind::ScrollToTopBottom, key: kc.scroll_up }
}

pub fn scroll_up_down_multiple_lines(kc: &KeyConfig) -> (r: CommandInfo)
    ensures
        r == (CommandInfo { kind: CommandKind::ScrollUpDownMultipleLines, key: kc.scroll_down }),
{
    CommandInfo { kind: CommandKind::ScrollUpDownMultipleLines, key: kc.scroll_down }
}

pub fn move_focus(kc: &KeyConfig) -> (r: CommandInfo)
    ensures
        r == (CommandInfo { kind: CommandKind::MoveFocus, key: kc.focus_connections }),
{
    CommandInfo { kind: CommandKind::MoveFocus, key: kc.focus_connections }
}

pub fn extend_or_shorten_widget_width(kc: &KeyConfig) -> (r: CommandInfo)
    ensures
        r == (CommandInfo {
            kind: CommandKind::ExtendOrShortenWidgetWidth,
            key: kc.extend_or_shorten_widget_width_to_right,
        }),
{
    CommandInfo {
        kind: CommandKind::ExtendOrShortenWidgetWidth,
        key: kc.extend_or_shorten_widget_width_to_right,
    }
}

} // verus!
