//! The tray menu, tray clicks and window events that drive the overlay.

use vstd::prelude::*;
use crate::text::str_eq;

verus! {

/// A command of the tray menu.
#[derive(Clone, Copy, PartialEq, Eq, Debug, Structural)]
pub enum MenuCommand {
    ToggleMode,
    OpenControlPanel,
    OpenHistory,
    Quit,
}

/// The identifier of a menu command's item.
pub open spec fn command_id(c: MenuCommand) -> Seq<char> {
    match c {
        MenuCommand::ToggleMode => "toggle"@,
        MenuCommand::OpenControlPanel => "panel"@,
        MenuCommand::OpenHistory => "history"@,
        MenuCommand::Quit => "quit"@,
    }
}

/// The command whose item has identifier `id`, if any.
pub open spec fn command_for_id(id: Seq<char>) -> Option<MenuCommand> {
    if id == "toggle"@ {
        Some(MenuCommand::ToggleMode)
    } else if id == "panel"@ {
        Some(MenuCommand::OpenControlPanel)
    } else if id == "history"@ {
        Some(MenuCommand::OpenHistory)
    } else if id == "quit"@ {
        Some(MenuCommand::Quit)
    } else {
        None
    }
}

impl MenuCommand {
    /// The identifier of the command's menu item.
    pub fn id(self) -> (s: &'static str)
        ensures
            s@ == command_id(self),
    {
        match self {
            MenuCommand::ToggleMode => "toggle",
            MenuCommand::OpenControlPanel => "panel",
            MenuCommand::OpenHistory => "history",
            MenuCommand::Quit => "quit",
        }
    }

    /// The title shown on the command's menu item.
    pub fn title(self) -> (s: &'static str)
        ensures
            s@ == (match self {
                MenuCommand::ToggleMode => "切换编辑/穿透"@,
                MenuCommand::OpenControlPanel => "打开控制面板"@,
                MenuCommand::OpenHistory => "历史记录"@,
                MenuCommand::Quit => "退出 N-Top"@,
            }),
    {
        match self {
            MenuCommand::ToggleMode => "切换编辑/穿透",
            MenuCommand::OpenControlPanel => "打开控制面板",
            MenuCommand::OpenHistory => "历史记录",
            MenuCommand::Quit => "退出 N-Top",
        }
    }

    /// The commands in the order the menu shows them.
    pub fn all() -> (v: Vec<MenuCommand>)
        ensures
            v@ == seq![
                MenuCommand::ToggleMode,
                MenuCommand::OpenControlPanel,
                MenuCommand::OpenHistory,
                MenuCommand::Quit,
            ],
    {
        vec![
            MenuCommand::ToggleMode,
            MenuCommand::OpenControlPanel,
            MenuCommand::OpenHistory,
            MenuCommand::Quit,
        ]
    }

    /// The command whose menu item has identifier `id`; `None` for any other
    /// identifier, which the menu ignores.
    pub fn from_id(id: &str) -> (c: Option<MenuCommand>)
        ensures
            c == command_for_id(id@),
    {
        if str_eq(id, "toggle") {
            Some(MenuCommand::ToggleMode)
        } else if str_eq(id, "panel") {
            Some(MenuCommand::OpenControlPanel)
        } else if str_eq(id, "history") {
            Some(MenuCommand::OpenHistory)
        } else if str_eq(id, "quit") {
            Some(MenuCommand::Quit)
        } else {
            None
        }
    }
}

/// Each command's identifier leads back to that command.
pub proof fn lemma_menu_id_round_trip(c: MenuCommand)
    ensures
        command_for_id(command_id(c)) == Some(c),
{
    reveal_strlit("toggle");
    reveal_strlit("panel");
    reveal_strlit("history");
    reveal_strlit("quit");
    assert("toggle"@ != "panel"@ && "toggle"@ != "history"@ && "toggle"@ != "quit"@) by {
        assert("toggle"@[0] != "panel"@[0] && "toggle"@[0] != "history"@[0] && "toggle"@[0] != "quit"@[0]);
    }
    assert("panel"@ != "history"@ && "panel"@ != "quit"@) by {
        assert("panel"@[0] != "history"@[0] && "panel"@[0] != "quit"@[0]);
    }
    assert("history"@ != "quit"@) by {
        assert("history"@[0] != "quit"@[0]);
    }
}

/// The label of the overlay window.
pub fn overlay_label() -> (s: &'static str)
    ensures
        s@ == "overlay"@,
{
    "overlay"
}

/// The label of the control panel window.
pub fn control_panel_label() -> (s: &'static str)
    ensures
        s@ == "control-panel"@,
{
    "control-panel"
}

/// The label of the history window.
pub fn history_label() -> (s: &'static str)
    ensures
        s@ == "history"@,
{
    "history"
}

/// Whether a click on the tray icon opens the control panel: a release of the
/// left button does.
pub fn tray_click_opens_panel(left_button: bool, released: bool) -> (r: bool)
    ensures
        r == (left_button && released),
{
    left_button && released
}

/// Whether a window event puts the overlay back into pass-through mode: a
/// request to close the control panel does.
pub fn event_returns_to_pass_through(window_label: &str, close_requested: bool) -> (r: bool)
    ensures
        r == (close_requested && window_label@ == "control-panel"@),
{
    close_requested && str_eq(window_label, "control-panel")
}


/// Whether a global-hotkey event toggles the mode: a press does, a release
/// does not.
pub fn hotkey_event_toggles(pressed: bool) -> (r: bool)
    ensures
        r == pressed,
{
    pressed
}

} // verus!
