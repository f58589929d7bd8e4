//! The two global hotkeys and the intents they stand for.

use vstd::prelude::*;

verus! {

/// The platform family, which decides the primary modifier.
#[derive(Clone, Copy, Debug, PartialEq, Eq, Structural)]
pub enum Platform {
    MacOs,
    Other,
}

/// The modifier keys held down with a hotkey.
#[derive(Clone, Copy, Debug, PartialEq, Eq, Structural)]
pub struct Modifiers {
    pub shift: bool,
    pub control: bool,
    pub alt: bool,
    pub super_key: bool,
}

/// The key of a hotkey, as far as this application tells keys apart.
#[derive(Clone, Copy, Debug, PartialEq, Eq, Structural)]
pub enum Key {
    E,
    Other,
}

/// A hotkey: a set of modifiers and a key.
#[derive(Clone, Copy, Debug, PartialEq, Eq, Structural)]
pub struct Shortcut {
    pub modifiers: Modifiers,
    pub key: Key,
}

/// What a hotkey, a tray click or a menu entry asks of the main window.
#[derive(Clone, Copy, Debug, PartialEq, Eq, Structural)]
pub enum Intent {
    Focus,
    NewChat,
}

/// The platform's primary modifier alone: the command key on macOS, the
/// control key everywhere else.
pub open spec fn primary_modifiers(platform: Platform) -> Modifiers {
    Modifiers {
        shift: false,
        control: platform != Platform::MacOs,
        alt: false,
        super_key: platform == Platform::MacOs,
    }
}

/// The hotkey bound to `intent` on `platform`: the primary modifier and the
/// key E, with Shift added for a new chat.
pub open spec fn binding(platform: Platform, intent: Intent) -> Shortcut {
    Shortcut {
        modifiers: Modifiers {
            shift: intent == Intent::NewChat,
            ..primary_modifiers(platform)
        },
        key: Key::E,
    }
}

/// The intent that `fired` stands for on `platform`, if it is one of the two
/// bound hotkeys.
pub open spec fn intent_of(platform: Platform, fired: Shortcut) -> Option<Intent> {
    if fired == binding(platform, Intent::Focus) {
        Some(Intent::Focus)
    } else if fired == binding(platform, Intent::NewChat) {
        Some(Intent::NewChat)
    } else {
        None
    }
}

/// The modifiers of the platform's primary modifier alone.
pub fn primary_modifier(platform: Platform) -> (r: Modifiers)
    ensures
        r == primary_modifiers(platform),
        r.control != r.super_key,
        !r.shift && !r.alt,
{
    match platform {
        Platform::MacOs => Modifiers { shift: false, control: false, alt: false, super_key: true },
        Platform::Other => Modifiers { shift: false, control: true, alt: false, super_key: false },
    }
}

/// The hotkey that is registered for `intent` on `platform`.
pub fn shortcut_for(platform: Platform, intent: Intent) -> (r: Shortcut)
    ensures
        r == binding(platform, intent),
{
    let base = primary_modifier(platform);
    let shift = match intent {
        Intent::Focus => false,
        Intent::NewChat => true,
    };
    Shortcut {
        modifiers: Modifiers {
            shift,
            control: base.control,
            alt: base.alt,
            super_key: base.super_key,
        },
        key: Key::E,
    }
}

/// The hotkeys to register at startup, in the order of registration: the
/// one for focus, then the one for a new chat.
pub fn bindings(platform: Platform) -> (r: Vec<(Shortcut, Intent)>)
    ensures
        r@ == seq![
            (binding(platform, Intent::Focus), Intent::Focus),
            (binding(platform, Intent::NewChat), Intent::NewChat),
        ],
{
    let mut r: Vec<(Shortcut, Intent)> = Vec::new();
    r.push((shortcut_for(platform, Intent::Focus), Intent::Focus));
    r.push((shortcut_for(platform, Intent::NewChat), Intent::NewChat));
    proof {
        assert(r@ =~= seq![
            (binding(platform, Intent::Focus), Intent::Focus),
            (binding(platform, Intent::NewChat), Intent::NewChat),
        ]);
    }
    r
}

/// Maps a hotkey that fired to its intent. A hotkey that is neither of the
/// two bound ones has none and is ignored.
pub fn route_shortcut(platform: Platform, fired: Shortcut) -> (r: Option<Intent>)
    ensures
        r == intent_of(platform, fired),
        forall|intent: Intent| r == Some(intent) <==> fired == binding(platform, intent),
{
    let focus = shortcut_for(platform, Intent::Focus);
    let new_chat = shortcut_for(platform, Intent::NewChat);
    if fired == focus {
        Some(Intent::Focus)
    } else if fired == new_chat {
        Some(Intent::NewChat)
    } else {
        None
    }
}

impl Intent {
    /// Whether the front-end is told to start a new conversation.
    pub open spec fn spec_starts_new_chat(self) -> bool {
        self == Intent::NewChat
    }

    #[verifier::when_used_as_spec(spec_starts_new_chat)]
    pub fn starts_new_chat(self) -> (r: bool)
        ensures
            r == self.spec_starts_new_chat(),
    {
        match self {
            Intent::Focus => false,
            Intent::NewChat => true,
        }
    }
}

/// The two bound hotkeys share the key and the primary modifier and differ
/// in Shift alone; the primary modifier is one of control and command, never
/// both; and each bound hotkey is routed to its own intent.
pub proof fn lemma_bindings_differ_by_shift(platform: Platform)
    ensures
        binding(platform, Intent::Focus).key == binding(platform, Intent::NewChat).key,
        binding(platform, Intent::NewChat).modifiers == (Modifiers {
            shift: true,
            ..binding(platform, Intent::Focus).modifiers
        }),
        !binding(platform, Intent::Focus).modifiers.shift,
        binding(platform, Intent::Focus).modifiers.control != binding(
            platform,
            Intent::Focus,
        ).modifiers.super_key,
        binding(platform, Intent::Focus) != binding(platform, Intent::NewChat),
        intent_of(platform, binding(platform, Intent::Focus)) == Some(Intent::Focus),
        intent_of(platform, binding(platform, Intent::NewChat)) == Some(Intent::NewChat),
{
}

} // verus!
