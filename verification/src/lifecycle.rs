//! The main window as a single slot: what creating or focusing it does, step
//! by step, and a model of the window on which those steps are stated.

use crate::geometry::{
    lemma_no_placement_without_monitor, place_under_mouse, placement_under_mouse, reset_geometry,
    resized_geometry, Geometry, Monitor, Placement, Point, Size,
};
use vstd::prelude::*;

verus! {

/// What this application knows of its main window.
#[derive(Clone, Copy, Debug, PartialEq, Eq, Structural)]
pub struct WindowState {
    pub visible: bool,
    pub focused: bool,
    pub always_on_top: bool,
    pub position: Placement,
    pub outer_size: Size,
}

/// One step that the platform is asked to take on the main window.
#[derive(Clone, Copy, Debug, PartialEq, Eq, Structural)]
pub enum WindowAction {
    /// Build the window: the root route, the fixed title, the default
    /// logical size, no native decorations.
    Create,
    /// Centre the window on the monitor under the cursor, if there is one.
    Reposition,
    Show,
    Focus,
    SetAlwaysOnTop(bool),
    /// Apply the platform's translucency effect; a failure is only logged.
    ApplyBackdrop,
    /// Send the event `new-chat`, without payload, to the front-end.
    EmitNewChat,
}

/// What the desktop reports while one request is handled.
#[derive(Debug)]
pub struct Desktop {
    /// The cursor, where it can be had.
    pub mouse: Option<Point>,
    /// The monitors, in the order in which the platform lists them.
    pub monitors: Vec<Monitor>,
    /// The outer size that the platform gives a window that it builds.
    pub fresh_size: Size,
    /// The position that the platform gives a window that it builds.
    pub fresh_position: Placement,
}

/// The name under which the platform knows the main window.
pub fn main_window_label() -> (r: &'static str)
    ensures
        r@ == "main"@,
{
    "main"
}

/// The name under which the platform knows the settings window.
pub fn settings_window_label() -> (r: &'static str)
    ensures
        r@ == "settings"@,
{
    "settings"
}

/// The title of the main window.
pub fn window_title() -> (r: &'static str)
    ensures
        r@ == "ai-quick-access"@,
{
    "ai-quick-access"
}

/// The name of the event that asks the front-end for a new conversation.
pub fn new_chat_event() -> (r: &'static str)
    ensures
        r@ == "new-chat"@,
{
    "new-chat"
}

/// A window as the platform builds it: shown and focused, not pinned.
pub open spec fn fresh_window(desktop: Desktop) -> WindowState {
    WindowState {
        visible: true,
        focused: true,
        always_on_top: false,
        position: desktop.fresh_position,
        outer_size: desktop.fresh_size,
    }
}

/// The steps of one request, in order. An existing window is moved, shown,
/// focused and raised; a missing one is built, moved, raised and given its
/// backdrop. A request for a new chat ends with the event.
pub open spec fn plan(present: bool, new_chat: bool) -> Seq<WindowAction> {
    let steps = if present {
        seq![
            WindowAction::Reposition,
            WindowAction::Show,
            WindowAction::Focus,
            WindowAction::SetAlwaysOnTop(true),
            WindowAction::SetAlwaysOnTop(false),
        ]
    } else {
        seq![
            WindowAction::Create,
            WindowAction::Reposition,
            WindowAction::SetAlwaysOnTop(true),
            WindowAction::SetAlwaysOnTop(false),
            WindowAction::ApplyBackdrop,
        ]
    };
    if new_chat {
        steps.push(WindowAction::EmitNewChat)
    } else {
        steps
    }
}

/// The slot of the main window after one step. Building fills an empty slot
/// and leaves a filled one alone, so the slot never holds a second window;
/// every other step acts on the window in the slot, if there is one.
pub open spec fn after_action(
    slot: Option<WindowState>,
    action: WindowAction,
    desktop: Desktop,
) -> Option<WindowState> {
    match slot {
        None => match action {
            WindowAction::Create => Some(fresh_window(desktop)),
            _ => None,
        },
        Some(w) => Some(
            match action {
                WindowAction::Reposition => match placement_under_mouse(
                    desktop.mouse,
                    desktop.monitors@,
                    Some(w.outer_size),
                ) {
                    Some(p) => WindowState { position: p, ..w },
                    None => w,
                },
                WindowAction::Show => WindowState { visible: true, ..w },
                WindowAction::Focus => WindowState { focused: true, ..w },
                WindowAction::SetAlwaysOnTop(on) => WindowState { always_on_top: on, ..w },
                WindowAction::Create | WindowAction::ApplyBackdrop | WindowAction::EmitNewChat => w,
            },
        ),
    }
}

/// The slot after the steps of `actions` from index `from` on, in order.
pub open spec fn after_actions_from(
    slot: Option<WindowState>,
    actions: Seq<WindowAction>,
    from: int,
    desktop: Desktop,
) -> Option<WindowState>
    decreases actions.len() - from,
{
    if from < 0 || from >= actions.len() {
        slot
    } else {
        after_actions_from(after_action(slot, actions[from], desktop), actions, from + 1, desktop)
    }
}

/// How many of the steps from index `from` on send the event `new-chat`.
pub open spec fn new_chat_events_from(actions: Seq<WindowAction>, from: int) -> nat
    decreases actions.len() - from,
{
    if from < 0 || from >= actions.len() {
        0
    } else if actions[from] == WindowAction::EmitNewChat {
        1 + new_chat_events_from(actions, from + 1)
    } else {
        new_chat_events_from(actions, from + 1)
    }
}

/// How many of the steps build a window.
pub open spec fn creations_from(actions: Seq<WindowAction>, from: int) -> nat
    decreases actions.len() - from,
{
    if from < 0 || from >= actions.len() {
        0
    } else if actions[from] == WindowAction::Create {
        1 + creations_from(actions, from + 1)
    } else {
        creations_from(actions, from + 1)
    }
}

/// The main window after a request to create or focus it: the window of the
/// slot, or a fresh one, centred under the cursor where a monitor holds the
/// cursor, shown, focused, and not pinned on top.
pub open spec fn window_after_request(slot: Option<WindowState>, desktop: Desktop) -> WindowState {
    let w = match slot {
        Some(w) => w,
        None => fresh_window(desktop),
    };
    WindowState {
        visible: true,
        focused: true,
        always_on_top: false,
        position: match placement_under_mouse(
            desktop.mouse,
            desktop.monitors@,
            Some(w.outer_size),
        ) {
            Some(p) => p,
            None => w.position,
        },
        outer_size: w.outer_size,
    }
}

/// The steps to take for one request, given whether the main window exists.
/// If the platform fails to build the window, the steps after `Create` are
/// not taken.
pub fn create_or_focus_plan(present: bool, new_chat: bool) -> (r: Vec<WindowAction>)
    ensures
        r@ == plan(present, new_chat),
{
    let mut r: Vec<WindowAction> = Vec::new();
    if present {
        r.push(WindowAction::Reposition);
        r.push(WindowAction::Show);
        r.push(WindowAction::Focus);
        r.push(WindowAction::SetAlwaysOnTop(true));
        r.push(WindowAction::SetAlwaysOnTop(false));
    } else {
        r.push(WindowAction::Create);
        r.push(WindowAction::Reposition);
        r.push(WindowAction::SetAlwaysOnTop(true));
        r.push(WindowAction::SetAlwaysOnTop(false));
        r.push(WindowAction::ApplyBackdrop);
    }
    if new_chat {
        r.push(WindowAction::EmitNewChat);
    }
    proof {
        assert(r@ =~= plan(present, new_chat));
    }
    r
}

/// Takes one step on the model of the main window.
pub fn perform(slot: Option<WindowState>, action: WindowAction, desktop: &Desktop) -> (r: Option<
    WindowState,
>)
    ensures
        r == after_action(slot, action, *desktop),
{
    match slot {
        None => match action {
            WindowAction::Create => Some(
                WindowState {
                    visible: true,
                    focused: true,
                    always_on_top: false,
                    position: desktop.fresh_position,
                    outer_size: desktop.fresh_size,
                },
            ),
            _ => None,
        },
        Some(w) => {
            let mut next = w;
            match action {
                WindowAction::Reposition => {
                    match place_under_mouse(desktop.mouse, &desktop.monitors, Some(w.outer_size)) {
                        Some(p) => {
                            next.position = p;
                        },
                        None => {},
                    }
                },
                WindowAction::Show => {
                    next.visible = true;
                },
                WindowAction::Focus => {
                    next.focused = true;
                },
                WindowAction::SetAlwaysOnTop(on) => {
                    next.always_on_top = on;
                },
                _ => {},
            }
            Some(next)
        },
    }
}

/// Handles one request to create or focus the main window on the model:
/// plans the steps and takes them, one after the other. Returns the slot
/// afterwards, which holds the one main window, and the steps that were
/// taken.
pub fn create_or_focus(slot: Option<WindowState>, new_chat: bool, desktop: &Desktop) -> (r: (
    Option<WindowState>,
    Vec<WindowAction>,
))
    ensures
        r.0 == Some(window_after_request(slot, *desktop)),
        r.1@ == plan(slot.is_some(), new_chat),
        new_chat_events_from(r.1@, 0) == if new_chat { 1nat } else { 0nat },
        creations_from(r.1@, 0) == if slot.is_some() { 0nat } else { 1nat },
{
    let steps = create_or_focus_plan(slot.is_some(), new_chat);
    let ghost outcome = after_actions_from(slot, steps@, 0, *desktop);
    let mut current = slot;
    let mut i: usize = 0;
    while i < steps.len()
        invariant
            i <= steps.len(),
            after_actions_from(current, steps@, i as int, *desktop) == outcome,
        decreases steps.len() - i,
    {
        current = perform(current, steps[i], desktop);
        i += 1;
    }
    proof {
        lemma_plan_effect(slot, new_chat, *desktop);
        lemma_plan_events(slot.is_some(), new_chat);
    }
    (current, steps)
}

/// Taking the planned steps, in order, leaves exactly the window that
/// `window_after_request` describes.
pub proof fn lemma_plan_effect(slot: Option<WindowState>, new_chat: bool, desktop: Desktop)
    ensures
        after_actions_from(slot, plan(slot.is_some(), new_chat), 0, desktop) == Some(
            window_after_request(slot, desktop),
        ),
{
    reveal_with_fuel(after_actions_from, 8);
}

/// A plan for a new chat sends the event once, any other plan never; and a
/// plan builds a window once where there is none, and never where there is.
pub proof fn lemma_plan_events(present: bool, new_chat: bool)
    ensures
        new_chat_events_from(plan(present, new_chat), 0) == if new_chat { 1nat } else { 0nat },
        creations_from(plan(present, new_chat), 0) == if present { 0nat } else { 1nat },
{
    reveal_with_fuel(new_chat_events_from, 8);
    reveal_with_fuel(creations_from, 8);
}

/// Two requests in succession leave one window: the second builds none and
/// acts on the window that the first left, and after each the window is
/// shown, focused and not pinned on top.
pub proof fn lemma_single_window(
    slot: Option<WindowState>,
    first_new_chat: bool,
    first: Desktop,
    second_new_chat: bool,
    second: Desktop,
)
    ensures
        ({
            let once = window_after_request(slot, first);
            let twice = window_after_request(Some(once), second);
            &&& once.visible && once.focused && !once.always_on_top
            &&& twice.visible && twice.focused && !twice.always_on_top
            &&& twice.outer_size == once.outer_size
            &&& creations_from(plan(true, second_new_chat), 0) == 0
            &&& after_actions_from(
                after_actions_from(slot, plan(slot.is_some(), first_new_chat), 0, first),
                plan(true, second_new_chat),
                0,
                second,
            ) == Some(twice)
        }),
{
    lemma_plan_effect(slot, first_new_chat, first);
    lemma_plan_effect(Some(window_after_request(slot, first)), second_new_chat, second);
    lemma_plan_events(true, second_new_chat);
}

/// Where the cursor is unavailable, or lies outside every monitor, a request
/// leaves the window where it is, and so does the step that repositions it.
pub proof fn lemma_window_stays_put(w: WindowState, desktop: Desktop)
    requires
        desktop.mouse matches Some(p) ==> forall|j: int|
            0 <= j < desktop.monitors@.len() ==> !(#[trigger] desktop.monitors@[j]).spec_contains(p),
    ensures
        window_after_request(Some(w), desktop).position == w.position,
        after_action(Some(w), WindowAction::Reposition, desktop) == Some(w),
{
    lemma_no_placement_without_monitor(desktop.mouse, desktop.monitors@, Some(w.outer_size));
}

/// The window once it has the geometry `geometry`, or as it was where the
/// operation gave none.
pub open spec fn with_geometry(w: WindowState, geometry: Option<Geometry>) -> WindowState {
    match geometry {
        Some(g) => WindowState { position: g.position, outer_size: g.size, ..w },
        None => w,
    }
}

impl WindowState {
    /// Records the geometry that a resize or a reset gave the window.
    pub fn apply_geometry(self, geometry: Option<Geometry>) -> (r: WindowState)
        ensures
            r == with_geometry(self, geometry),
    {
        match geometry {
            Some(g) => WindowState {
                visible: self.visible,
                focused: self.focused,
                always_on_top: self.always_on_top,
                position: g.position,
                outer_size: g.size,
            },
            None => self,
        }
    }
}

/// The window after a resize to `new_height` on `monitor`.
pub open spec fn after_resize(w: WindowState, monitor: Option<Monitor>, new_height: u32) -> WindowState {
    with_geometry(
        w,
        match monitor {
            Some(m) => Some(resized_geometry(m, w.outer_size, new_height)),
            None => None,
        },
    )
}

/// The window after a reset to `physical_default` on `monitor`.
pub open spec fn after_reset(w: WindowState, monitor: Option<Monitor>, physical_default: Size) -> WindowState {
    with_geometry(
        w,
        match monitor {
            Some(m) => Some(reset_geometry(m, physical_default)),
            None => None,
        },
    )
}

/// Resizing and resetting are idempotent: with the same monitor and the same
/// argument, the second call leaves the window as the first left it. Without
/// a monitor neither changes the window.
pub proof fn lemma_resize_and_reset_idempotent(
    w: WindowState,
    monitor: Option<Monitor>,
    new_height: u32,
    physical_default: Size,
)
    ensures
        after_resize(after_resize(w, monitor, new_height), monitor, new_height) == after_resize(
            w,
            monitor,
            new_height,
        ),
        after_reset(after_reset(w, monitor, physical_default), monitor, physical_default)
            == after_reset(w, monitor, physical_default),
        monitor.is_none() ==> after_resize(w, monitor, new_height) == w && after_reset(
            w,
            monitor,
            physical_default,
        ) == w,
{
}

} // verus!
