//! The tray icon: its menu, and what a menu entry or a click asks for.

use crate::shortcuts::Intent;
use vstd::prelude::*;
use vstd::string::*;

verus! {

/// What the user asked for through the tray.
#[derive(Clone, Copy, Debug, PartialEq, Eq, Structural)]
pub enum TrayCommand {
    Show,
    NewChat,
    OpenSettings,
    Quit,
}

/// What the application does in answer to a hotkey or a tray command.
#[derive(Clone, Copy, Debug, PartialEq, Eq, Structural)]
pub enum AppAction {
    /// Create the main window or bring the existing one forward.
    CreateOrFocus { new_chat: bool },
    /// Show and focus the settings window, if there is one.
    ShowSettings,
    /// End the process.
    Exit,
}

/// A mouse button, as a tray click reports it.
#[derive(Clone, Copy, Debug, PartialEq, Eq, Structural)]
pub enum MouseButton {
    Left,
    Right,
    Middle,
}

/// Whether the button went down or came up.
#[derive(Clone, Copy, Debug, PartialEq, Eq, Structural)]
pub enum ButtonState {
    Up,
    Down,
}

/// One entry of the tray menu.
#[derive(Debug)]
pub struct MenuEntry {
    pub id: String,
    pub label: String,
    pub command: TrayCommand,
}

/// The identifier of the menu entry that stands for `command`.
pub open spec fn menu_id(command: TrayCommand) -> Seq<char> {
    match command {
        TrayCommand::Show => "show"@,
        TrayCommand::NewChat => "new_chat"@,
        TrayCommand::OpenSettings => "settings"@,
        TrayCommand::Quit => "quit"@,
    }
}

/// The label that the menu shows for `command`.
pub open spec fn menu_label(command: TrayCommand) -> Seq<char> {
    match command {
        TrayCommand::Show => "Show"@,
        TrayCommand::NewChat => "New Chat"@,
        TrayCommand::OpenSettings => "Settings"@,
        TrayCommand::Quit => "Quit"@,
    }
}

/// The commands of the menu, from top to bottom.
pub open spec fn menu_order() -> Seq<TrayCommand> {
    seq![TrayCommand::Show, TrayCommand::NewChat, TrayCommand::OpenSettings, TrayCommand::Quit]
}

/// The command whose menu entry has the identifier `id`, if there is one.
pub open spec fn command_of_id(id: Seq<char>) -> Option<TrayCommand> {
    if id == "show"@ {
        Some(TrayCommand::Show)
    } else if id == "new_chat"@ {
        Some(TrayCommand::NewChat)
    } else if id == "settings"@ {
        Some(TrayCommand::OpenSettings)
    } else if id == "quit"@ {
        Some(TrayCommand::Quit)
    } else {
        None
    }
}

/// The command that a click on the tray icon stands for: the left button
/// coming up shows the window, every other click does nothing.
pub open spec fn command_of_click(button: MouseButton, state: ButtonState) -> Option<TrayCommand> {
    if button == MouseButton::Left && state == ButtonState::Up {
        Some(TrayCommand::Show)
    } else {
        None
    }
}

/// What the application does for `command`.
pub open spec fn action_of(command: TrayCommand) -> AppAction {
    match command {
        TrayCommand::Show => AppAction::CreateOrFocus { new_chat: false },
        TrayCommand::NewChat => AppAction::CreateOrFocus { new_chat: true },
        TrayCommand::OpenSettings => AppAction::ShowSettings,
        TrayCommand::Quit => AppAction::Exit,
    }
}

impl MenuEntry {
    /// The entry of the menu that stands for `command`.
    pub fn for_command(command: TrayCommand) -> (r: MenuEntry)
        ensures
            r.command == command,
            r.id@ == menu_id(command),
            r.label@ == menu_label(command),
    {
        match command {
            TrayCommand::Show => MenuEntry {
                id: String::from_str("show"),
                label: String::from_str("Show"),
                command,
            },
            TrayCommand::NewChat => MenuEntry {
                id: String::from_str("new_chat"),
                label: String::from_str("New Chat"),
                command,
            },
            TrayCommand::OpenSettings => MenuEntry {
                id: String::from_str("settings"),
                label: String::from_str("Settings"),
                command,
            },
            TrayCommand::Quit => MenuEntry {
                id: String::from_str("quit"),
                label: String::from_str("Quit"),
                command,
            },
        }
    }
}

/// The label that the tray icon shows when the pointer rests on it.
pub fn tooltip() -> (r: &'static str)
    ensures
        r@ == "AI Quick Access"@,
{
    "AI Quick Access"
}

/// The entries of the tray menu, from top to bottom.
pub fn menu_entries() -> (r: Vec<MenuEntry>)
    ensures
        r.len() == 4,
        forall|i: int|
            0 <= i < 4 ==> {
                &&& (#[trigger] r[i]).command == menu_order()[i]
                &&& r[i].id@ == menu_id(menu_order()[i])
                &&& r[i].label@ == menu_label(menu_order()[i])
            },
{
    let mut r: Vec<MenuEntry> = Vec::new();
    r.push(MenuEntry::for_command(TrayCommand::Show));
    r.push(MenuEntry::for_command(TrayCommand::NewChat));
    r.push(MenuEntry::for_command(TrayCommand::OpenSettings));
    r.push(MenuEntry::for_command(TrayCommand::Quit));
    r
}

/// Maps the identifier of a menu event to its command. An identifier that
/// belongs to no entry has none and is ignored.
pub fn command_for_menu_id(id: &str) -> (r: Option<TrayCommand>)
    ensures
        r == command_of_id(id@),
{
    let id = String::from_str(id);
    if id == String::from_str("show") {
        Some(TrayCommand::Show)
    } else if id == String::from_str("new_chat") {
        Some(TrayCommand::NewChat)
    } else if id == String::from_str("settings") {
        Some(TrayCommand::OpenSettings)
    } else if id == String::from_str("quit") {
        Some(TrayCommand::Quit)
    } else {
        None
    }
}

/// Maps a click on the tray icon to its command.
pub fn command_for_click(button: MouseButton, state: ButtonState) -> (r: Option<TrayCommand>)
    ensures
        r == command_of_click(button, state),
{
    match (button, state) {
        (MouseButton::Left, ButtonState::Up) => Some(TrayCommand::Show),
        _ => None,
    }
}

/// What the application does for a tray command.
pub fn dispatch(command: TrayCommand) -> (r: AppAction)
    ensures
        r == action_of(command),
{
    match command {
        TrayCommand::Show => AppAction::CreateOrFocus { new_chat: false },
        TrayCommand::NewChat => AppAction::CreateOrFocus { new_chat: true },
        TrayCommand::OpenSettings => AppAction::ShowSettings,
        TrayCommand::Quit => AppAction::Exit,
    }
}

/// What the application does for the intent of a hotkey.
pub fn dispatch_intent(intent: Intent) -> (r: AppAction)
    ensures
        r == (AppAction::CreateOrFocus { new_chat: intent.spec_starts_new_chat() }),
{
    AppAction::CreateOrFocus { new_chat: intent.starts_new_chat() }
}

/// The four identifiers of the menu are pairwise different, so each entry
/// of the menu is mapped back to its own command.
pub proof fn lemma_menu_ids_round_trip(command: TrayCommand)
    ensures
        command_of_id(menu_id(command)) == Some(command),
{
    reveal_strlit("show");
    reveal_strlit("new_chat");
    reveal_strlit("settings");
    reveal_strlit("quit");
    assert("show"@.len() == 4);
    assert("new_chat"@.len() == 8);
    assert("settings"@.len() == 8);
    assert("quit"@.len() == 4);
    assert("show"@[0] == 's');
    assert("quit"@[0] == 'q');
    assert("new_chat"@[0] == 'n');
    assert("settings"@[0] == 's');
}

/// A left click on the tray icon does what the menu entry Show does.
pub proof fn lemma_left_click_is_show()
    ensures
        command_of_click(MouseButton::Left, ButtonState::Up) == Some(TrayCommand::Show),
        forall|button: MouseButton, state: ButtonState|
            command_of_click(button, state).is_some() ==> button == MouseButton::Left && state
                == ButtonState::Up,
{
}

} // verus!
