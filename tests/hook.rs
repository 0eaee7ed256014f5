use netease_watcher::hook::{
    size_message_param, CbtAction, Intercepted, SavedWindow, WindowHook, WindowPos, WindowRect,
    HCBT_ACTIVATE, HCBT_MINMAX, SW_FORCEMINIMIZE, SW_MAXIMIZE, SW_MINIMIZE, SW_NORMAL,
    SW_SHOWMINIMIZED,
};

const RECT: WindowRect = WindowRect { left: 100, top: 50, right: 900, bottom: 650 };

#[test]
fn restore_requests_are_allowed() {
    let mut hook = WindowHook::new();
    assert_eq!(hook.on_cbt(HCBT_MINMAX, SW_NORMAL as isize), CbtAction::Allow);
    assert_eq!(hook.on_cbt(HCBT_MINMAX, 0x7_0000 | SW_NORMAL as isize), CbtAction::Allow);
}

#[test]
fn minimize_is_intercepted_once_and_undone_on_activation() {
    let mut hook = WindowHook::new();
    for show in [SW_SHOWMINIMIZED, SW_MINIMIZE, SW_FORCEMINIMIZE] {
        assert_eq!(WindowHook::new().on_cbt(HCBT_MINMAX, show as isize), CbtAction::Capture);
    }
    assert_eq!(hook.on_cbt(HCBT_MINMAX, SW_MINIMIZE as isize), CbtAction::Capture);
    let intercepted = hook.capture(0xABC, true, Some(RECT));
    let pos = WindowPos { x: 100, y: 50, cx: 800, cy: 600 };
    assert_eq!(intercepted, Some(Intercepted { size_param: (50 << 16) | 800 }));
    assert_eq!(hook.saved, Some(SavedWindow { hwnd: 0xABC, pos, maximized: true }));

    assert_eq!(hook.on_cbt(HCBT_MINMAX, SW_MINIMIZE as isize), CbtAction::PassOn);
    assert_eq!(hook.on_cbt(HCBT_ACTIVATE, 0), CbtAction::Restore { pos, maximize: true });
    assert_eq!(hook.saved, None);
    assert_eq!(hook.on_cbt(HCBT_ACTIVATE, 0), CbtAction::PassOn);
}

#[test]
fn unreadable_geometry_saves_nothing() {
    let mut hook = WindowHook::new();
    assert_eq!(hook.on_cbt(HCBT_MINMAX, SW_MINIMIZE as isize), CbtAction::Capture);
    assert_eq!(hook.capture(1, false, None), None);
    assert_eq!(hook.saved, None);
}

#[test]
fn other_notifications_pass_on() {
    let mut hook = WindowHook::new();
    assert_eq!(hook.on_cbt(HCBT_MINMAX, SW_MAXIMIZE as isize), CbtAction::PassOn);
    assert_eq!(hook.on_cbt(3, SW_MINIMIZE as isize), CbtAction::PassOn);
    assert_eq!(hook.on_cbt(HCBT_ACTIVATE, 0), CbtAction::PassOn);
}

#[test]
fn detach_hands_out_the_saved_window() {
    let mut hook = WindowHook::new();
    hook.on_cbt(HCBT_MINMAX, SW_MINIMIZE as isize);
    hook.capture(7, false, Some(RECT));
    let saved = hook.on_detach().unwrap();
    assert_eq!(saved.hwnd, 7);
    assert!(!saved.maximized);
    assert_eq!(hook.on_detach(), None);
}

#[test]
fn size_parameter_matches_the_32_bit_word() {
    let word = |y: i32, cx: i32| ((y << 16) | cx) as isize;
    for (y, cx) in [(0, 0), (50, 800), (-1, 5), (40000, 3), (-32000, -7), (i32::MAX, i32::MIN)] {
        assert_eq!(size_message_param(WindowPos { x: 0, y, cx, cy: 0 }), word(y, cx));
    }
}
