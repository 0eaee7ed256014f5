use netease_watcher::dashboard::{in_rect, Area, ExitButton, LogScroll, STICK_TO_BOTTOM};

#[test]
fn hit_test_covers_the_area_only() {
    let a = Area { x: 10, y: 5, width: 4, height: 2 };
    assert!(in_rect(a, 10, 5));
    assert!(in_rect(a, 13, 6));
    assert!(!in_rect(a, 14, 5));
    assert!(!in_rect(a, 9, 5));
    assert!(!in_rect(a, 10, 7));
    let edge = Area { x: u16::MAX - 1, y: 0, width: 2, height: 1 };
    assert!(in_rect(edge, u16::MAX, 0));
    assert!(!in_rect(Area { x: 3, y: 3, width: 0, height: 0 }, 3, 3));
}

#[test]
fn scrolling_up_from_the_bottom_starts_at_the_last_page() {
    let mut s = LogScroll::new();
    assert_eq!(s.first_visible_line(30, 10), 20);
    s.scroll_up(30, 10);
    assert_eq!(s.offset, 20);
    s.scroll_up(30, 10);
    assert_eq!(s.offset, 19);
    let mut short = LogScroll::new();
    short.scroll_up(5, 10);
    assert_eq!(short.offset, STICK_TO_BOTTOM);
    assert_eq!(short.first_visible_line(5, 10), 0);
}

#[test]
fn scrolling_down_sticks_to_the_bottom_at_the_end() {
    let mut s = LogScroll { offset: 19 };
    s.scroll_down(30, 10);
    assert_eq!(s.offset, 20);
    s.scroll_down(30, 10);
    assert_eq!(s.offset, 21);
    let mut end = LogScroll { offset: 25 };
    end.scroll_down(30, 10);
    assert_eq!(end.offset, STICK_TO_BOTTOM);
    end.scroll_down(30, 10);
    assert_eq!(end.offset, STICK_TO_BOTTOM);
}

#[test]
fn top_stays_at_the_top_and_reset_sticks() {
    let mut s = LogScroll { offset: 0 };
    s.scroll_up(30, 10);
    assert_eq!(s.offset, 0);
    s.reset();
    assert_eq!(s.offset, STICK_TO_BOTTOM);
    assert_eq!(LogScroll::new().first_visible_line(1_000_000, 10), STICK_TO_BOTTOM - 1);
}

#[test]
fn exit_needs_press_and_release_on_the_button() {
    let mut b = ExitButton::new();
    assert!(!b.release(true));
    b.press(true);
    b.press(false);
    assert!(b.held);
    assert!(!b.release(false));
    assert!(!b.held);
    b.press(true);
    assert!(b.release(true));
}
