use ai_quick_access::autostart::{sync_launch_at_startup, AutostartCall, AutostartChange};
use ai_quick_access::settings::SettingsError;
use ai_quick_access::shortcuts::{
    bindings, primary_modifier, route_shortcut, shortcut_for, Intent, Key, Modifiers, Platform,
    Shortcut,
};
use ai_quick_access::tray::{
    command_for_click, command_for_menu_id, dispatch, dispatch_intent, menu_entries, AppAction,
    ButtonState, MouseButton, TrayCommand,
};

#[test]
fn autostart_changes_only_on_a_difference() {
    assert_eq!(sync_launch_at_startup(true, false), AutostartChange::Enable);
    assert_eq!(sync_launch_at_startup(false, true), AutostartChange::Disable);
    assert_eq!(sync_launch_at_startup(true, true), AutostartChange::Keep);
    assert_eq!(sync_launch_at_startup(false, false), AutostartChange::Keep);
}

#[test]
fn autostart_change_names_its_call() {
    assert_eq!(AutostartChange::Keep.call(), None);
    assert_eq!(AutostartChange::Enable.call(), Some(AutostartCall::Enable));
    assert_eq!(AutostartChange::Disable.call(), Some(AutostartCall::Disable));
}

#[test]
fn autostart_failures_have_their_own_messages() {
    let denied = || String::from("denied");
    assert_eq!(
        AutostartCall::Query.failure(denied()).message(),
        "Failed to read launch at startup state: denied"
    );
    assert_eq!(
        AutostartCall::Enable.failure(denied()).message(),
        "Failed to enable launch at startup: denied"
    );
    assert_eq!(
        AutostartCall::Disable.failure(denied()).message(),
        "Failed to disable launch at startup: denied"
    );
    assert!(matches!(AutostartCall::Query.failure(denied()), SettingsError::AutostartQuery(_)));
}

#[test]
fn primary_modifier_is_one_key() {
    let mac = primary_modifier(Platform::MacOs);
    assert_eq!(mac, Modifiers { shift: false, control: false, alt: false, super_key: true });
    let other = primary_modifier(Platform::Other);
    assert_eq!(other, Modifiers { shift: false, control: true, alt: false, super_key: false });
}

#[test]
fn the_two_bindings_differ_by_shift() {
    for platform in [Platform::MacOs, Platform::Other] {
        let focus = shortcut_for(platform, Intent::Focus);
        let new_chat = shortcut_for(platform, Intent::NewChat);
        assert_eq!(focus.key, Key::E);
        assert_eq!(new_chat.key, Key::E);
        assert!(!focus.modifiers.shift);
        assert_eq!(new_chat.modifiers, Modifiers { shift: true, ..focus.modifiers });
        assert_eq!(
            bindings(platform),
            vec![(focus, Intent::Focus), (new_chat, Intent::NewChat)]
        );
    }
}

#[test]
fn shortcuts_are_routed_to_their_intents() {
    let ctrl = Modifiers { shift: false, control: true, alt: false, super_key: false };
    let ctrl_shift = Modifiers { shift: true, ..ctrl };
    let cmd = Modifiers { shift: false, control: false, alt: false, super_key: true };
    let e = |modifiers| Shortcut { modifiers, key: Key::E };
    assert_eq!(route_shortcut(Platform::Other, e(ctrl)), Some(Intent::Focus));
    assert_eq!(route_shortcut(Platform::Other, e(ctrl_shift)), Some(Intent::NewChat));
    assert_eq!(route_shortcut(Platform::Other, e(cmd)), None);
    assert_eq!(route_shortcut(Platform::MacOs, e(cmd)), Some(Intent::Focus));
    assert_eq!(
        route_shortcut(Platform::MacOs, e(Modifiers { shift: true, ..cmd })),
        Some(Intent::NewChat)
    );
    assert_eq!(route_shortcut(Platform::MacOs, e(ctrl)), None);
}

#[test]
fn unknown_shortcuts_are_ignored() {
    let ctrl = Modifiers { shift: false, control: true, alt: false, super_key: false };
    assert_eq!(
        route_shortcut(Platform::Other, Shortcut { modifiers: ctrl, key: Key::Other }),
        None
    );
    assert_eq!(
        route_shortcut(
            Platform::Other,
            Shortcut { modifiers: Modifiers { alt: true, ..ctrl }, key: Key::E }
        ),
        None
    );
    assert_eq!(
        route_shortcut(
            Platform::Other,
            Shortcut { modifiers: Modifiers { super_key: true, ..ctrl }, key: Key::E }
        ),
        None
    );
}

#[test]
fn intents_become_create_or_focus() {
    assert!(!Intent::Focus.starts_new_chat());
    assert!(Intent::NewChat.starts_new_chat());
    assert_eq!(dispatch_intent(Intent::Focus), AppAction::CreateOrFocus { new_chat: false });
    assert_eq!(dispatch_intent(Intent::NewChat), AppAction::CreateOrFocus { new_chat: true });
}

#[test]
fn menu_has_four_entries_in_order() {
    let entries = menu_entries();
    let listed: Vec<(&str, &str, TrayCommand)> =
        entries.iter().map(|e| (e.id.as_str(), e.label.as_str(), e.command)).collect();
    assert_eq!(
        listed,
        vec![
            ("show", "Show", TrayCommand::Show),
            ("new_chat", "New Chat", TrayCommand::NewChat),
            ("settings", "Settings", TrayCommand::OpenSettings),
            ("quit", "Quit", TrayCommand::Quit),
        ]
    );
}

#[test]
fn menu_ids_map_back_to_their_commands() {
    for entry in menu_entries() {
        assert_eq!(command_for_menu_id(&entry.id), Some(entry.command));
    }
    assert_eq!(command_for_menu_id("Show"), None);
    assert_eq!(command_for_menu_id(""), None);
    assert_eq!(command_for_menu_id("quit "), None);
}

#[test]
fn tray_commands_are_dispatched() {
    assert_eq!(dispatch(TrayCommand::Show), AppAction::CreateOrFocus { new_chat: false });
    assert_eq!(dispatch(TrayCommand::NewChat), AppAction::CreateOrFocus { new_chat: true });
    assert_eq!(dispatch(TrayCommand::OpenSettings), AppAction::ShowSettings);
    assert_eq!(dispatch(TrayCommand::Quit), AppAction::Exit);
}

#[test]
fn only_a_left_release_counts_as_a_click() {
    assert_eq!(command_for_click(MouseButton::Left, ButtonState::Up), Some(TrayCommand::Show));
    assert_eq!(command_for_click(MouseButton::Left, ButtonState::Down), None);
    assert_eq!(command_for_click(MouseButton::Right, ButtonState::Up), None);
    assert_eq!(command_for_click(MouseButton::Middle, ButtonState::Up), None);
}
