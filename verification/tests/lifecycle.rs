use ai_quick_access::geometry::{
    reset_window, resize_window, Monitor, Placement, Point, Size,
};
use ai_quick_access::lifecycle::{
    create_or_focus, create_or_focus_plan, new_chat_event, perform, window_title, Desktop,
    WindowAction, WindowState,
};

fn desktop(mouse: Option<Point>) -> Desktop {
    Desktop {
        mouse,
        monitors: vec![
            Monitor { origin: Point { x: 0, y: 0 }, size: Size { width: 1920, height: 1080 } },
            Monitor { origin: Point { x: 1920, y: 0 }, size: Size { width: 2560, height: 1440 } },
        ],
        fresh_size: Size { width: 800, height: 150 },
        fresh_position: Placement { x: 40, y: 40 },
    }
}

fn hidden_window() -> WindowState {
    WindowState {
        visible: false,
        focused: false,
        always_on_top: true,
        position: Placement { x: 7, y: 9 },
        outer_size: Size { width: 800, height: 540 },
    }
}

fn count(actions: &[WindowAction], wanted: WindowAction) -> usize {
    actions.iter().filter(|a| **a == wanted).count()
}

#[test]
fn plan_for_an_existing_window() {
    assert_eq!(
        create_or_focus_plan(true, false),
        vec![
            WindowAction::Reposition,
            WindowAction::Show,
            WindowAction::Focus,
            WindowAction::SetAlwaysOnTop(true),
            WindowAction::SetAlwaysOnTop(false),
        ]
    );
    assert_eq!(
        create_or_focus_plan(true, true),
        vec![
            WindowAction::Reposition,
            WindowAction::Show,
            WindowAction::Focus,
            WindowAction::SetAlwaysOnTop(true),
            WindowAction::SetAlwaysOnTop(false),
            WindowAction::EmitNewChat,
        ]
    );
}

#[test]
fn plan_for_a_missing_window() {
    assert_eq!(
        create_or_focus_plan(false, false),
        vec![
            WindowAction::Create,
            WindowAction::Reposition,
            WindowAction::SetAlwaysOnTop(true),
            WindowAction::SetAlwaysOnTop(false),
            WindowAction::ApplyBackdrop,
        ]
    );
    assert_eq!(
        create_or_focus_plan(false, true),
        vec![
            WindowAction::Create,
            WindowAction::Reposition,
            WindowAction::SetAlwaysOnTop(true),
            WindowAction::SetAlwaysOnTop(false),
            WindowAction::ApplyBackdrop,
            WindowAction::EmitNewChat,
        ]
    );
}

#[test]
fn new_chat_is_emitted_exactly_once() {
    for exists in [false, true] {
        assert_eq!(count(&create_or_focus_plan(exists, true), WindowAction::EmitNewChat), 1);
        assert_eq!(count(&create_or_focus_plan(exists, false), WindowAction::EmitNewChat), 0);
    }
}

#[test]
fn first_request_creates_the_window_under_the_mouse() {
    let d = desktop(Some(Point { x: 2000, y: 100 }));
    let (window, actions) = create_or_focus(None, true, &d);
    assert_eq!(
        window.unwrap(),
        WindowState {
            visible: true,
            focused: true,
            always_on_top: false,
            position: Placement { x: 2800, y: 645 },
            outer_size: Size { width: 800, height: 150 },
        }
    );
    assert_eq!(count(&actions, WindowAction::Create), 1);
    assert_eq!(count(&actions, WindowAction::EmitNewChat), 1);
}

#[test]
fn two_requests_leave_one_window() {
    let d = desktop(Some(Point { x: 10, y: 10 }));
    let (first, first_actions) = create_or_focus(None, false, &d);
    let (second, second_actions) = create_or_focus(first, false, &d);
    let second = second.unwrap();
    let first = first.unwrap();
    assert_eq!(count(&first_actions, WindowAction::Create), 1);
    assert_eq!(count(&second_actions, WindowAction::Create), 0);
    assert_eq!(first, second);
    assert!(second.visible);
    assert!(second.focused);
    assert!(!second.always_on_top);
    assert_eq!(second.position, Placement { x: 560, y: 465 });
    assert_eq!(count(&second_actions, WindowAction::EmitNewChat), 0);
}

#[test]
fn hidden_window_is_brought_back() {
    let d = desktop(Some(Point { x: 10, y: 10 }));
    let (window, actions) = create_or_focus(Some(hidden_window()), false, &d);
    assert_eq!(
        window.unwrap(),
        WindowState {
            visible: true,
            focused: true,
            always_on_top: false,
            position: Placement { x: 560, y: 270 },
            outer_size: Size { width: 800, height: 540 },
        }
    );
    assert_eq!(actions, create_or_focus_plan(true, false));
}

#[test]
fn window_stays_put_without_mouse() {
    let (window, _) = create_or_focus(Some(hidden_window()), false, &desktop(None));
    assert_eq!(window.unwrap().position, Placement { x: 7, y: 9 });
    let (fresh, _) = create_or_focus(None, false, &desktop(None));
    assert_eq!(fresh.unwrap().position, Placement { x: 40, y: 40 });
}

#[test]
fn window_stays_put_when_mouse_is_on_no_monitor() {
    let d = desktop(Some(Point { x: -10, y: 5000 }));
    let (window, _) = create_or_focus(Some(hidden_window()), true, &d);
    let window = window.unwrap();
    assert_eq!(window.position, Placement { x: 7, y: 9 });
    assert!(window.visible && window.focused && !window.always_on_top);
}

#[test]
fn perform_takes_single_steps() {
    let d = desktop(Some(Point { x: 10, y: 10 }));
    let w = hidden_window();
    assert_eq!(perform(None, WindowAction::Show, &d), None);
    assert_eq!(perform(Some(w), WindowAction::Create, &d), Some(w));
    assert_eq!(perform(Some(w), WindowAction::Show, &d), Some(WindowState { visible: true, ..w }));
    assert_eq!(perform(Some(w), WindowAction::Focus, &d), Some(WindowState { focused: true, ..w }));
    assert_eq!(
        perform(Some(w), WindowAction::SetAlwaysOnTop(false), &d),
        Some(WindowState { always_on_top: false, ..w })
    );
    assert_eq!(perform(Some(w), WindowAction::EmitNewChat, &d), Some(w));
    assert_eq!(perform(Some(w), WindowAction::ApplyBackdrop, &d), Some(w));
    assert_eq!(
        perform(Some(w), WindowAction::Reposition, &d),
        Some(WindowState { position: Placement { x: 560, y: 270 }, ..w })
    );
    let created = perform(None, WindowAction::Create, &d).unwrap();
    assert!(created.visible && created.focused && !created.always_on_top);
    assert_eq!(created.outer_size, Size { width: 800, height: 150 });
}

#[test]
fn geometry_is_recorded_on_the_window() {
    let m = Monitor { origin: Point { x: 0, y: 0 }, size: Size { width: 1920, height: 1080 } };
    let w = hidden_window();
    let once = w.apply_geometry(resize_window(Some(m), w.outer_size, 300));
    let twice = once.apply_geometry(resize_window(Some(m), once.outer_size, 300));
    assert_eq!(once, twice);
    assert_eq!(once.outer_size, Size { width: 800, height: 300 });
    assert_eq!(once.position, Placement { x: 560, y: 390 });
    assert_eq!(w.apply_geometry(resize_window(None, w.outer_size, 300)), w);
    let default = Size { width: 800, height: 150 };
    let reset = once.apply_geometry(reset_window(Some(m), default));
    assert_eq!(reset.apply_geometry(reset_window(Some(m), default)), reset);
    assert_eq!(reset.position, Placement { x: 560, y: 465 });
}

#[test]
fn fixed_names() {
    assert_eq!(window_title(), "ai-quick-access");
    assert_eq!(new_chat_event(), "new-chat");
}
