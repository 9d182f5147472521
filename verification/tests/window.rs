use herald::tui::model::window::ListWindow;

fn win(height: usize) -> ListWindow {
    let mut w = ListWindow::new();
    w.set_height(height);
    w
}

#[test]
fn cursor_moves_before_window_scrolls() {
    let mut w = win(3);
    assert!(w.select_next(10));
    assert!(w.select_next(10));
    assert_eq!((w.offset, w.cursor), (0, 2));
    assert!(w.select_next(10));
    assert_eq!((w.offset, w.cursor), (1, 2));
    assert_eq!(w.selected(), 3);
}

#[test]
fn stops_at_last_item() {
    let mut w = win(3);
    for _ in 0..20 {
        w.select_next(5);
    }
    assert_eq!(w.selected(), 4);
    assert!(!w.select_next(5));
}

#[test]
fn select_prev_scrolls_at_top_edge() {
    let mut w = win(3);
    for _ in 0..5 {
        w.select_next(10);
    }
    assert_eq!((w.offset, w.cursor), (3, 2));
    w.cursor = 0;
    assert!(w.select_prev());
    assert_eq!((w.offset, w.cursor), (2, 0));
}

#[test]
fn clamp_after_shrink() {
    let mut w = win(5);
    for _ in 0..50 {
        w.select_next(100);
    }
    w.clamp(3);
    assert!(w.selected() < 3);
    w.clamp(0);
    assert_eq!(w.selected(), 0);
}

#[test]
fn near_end_triggers_lazy_load() {
    let mut w = win(10);
    assert!(!w.near_end(50, 10));
    for _ in 0..39 {
        w.select_next(50);
    }
    assert_eq!(w.selected(), 39);
    assert!(!w.near_end(50, 10));
    w.select_next(50);
    assert!(w.near_end(50, 10));
}

#[test]
fn select_absolute_centers_window() {
    let mut w = win(10);
    w.select(50, 100);
    assert_eq!(w.selected(), 50);
    assert!(w.offset <= 50 && 50 < w.offset + 10);
    w.select(999, 100);
    assert_eq!(w.selected(), 99);
}

#[test]
fn empty_list_is_safe() {
    let mut w = win(5);
    assert!(!w.select_next(0));
    assert!(!w.select_prev());
    w.clamp(0);
    assert_eq!(w.selected(), 0);
}

#[test]
fn next_then_prev_restores_selection() {
    let mut w = win(3);
    for _ in 0..2 {
        w.select_next(10);
    }
    let before = w.selected();
    assert!(w.select_next(10));
    assert!(w.select_prev());
    assert_eq!(w.selected(), before);
}

#[test]
fn set_height_keeps_at_least_one_row() {
    let mut w = ListWindow::new();
    w.set_height(0);
    assert_eq!(w.height, 1);
    assert_eq!(w.visible_len(0), 0);
    assert_eq!(w.visible_len(7), 1);
}

#[test]
fn reset_goes_to_top_and_default_has_no_rows() {
    let mut w = win(4);
    w.select(20, 30);
    w.reset();
    assert_eq!((w.offset, w.cursor, w.height), (0, 0, 4));
    let d = ListWindow::default();
    assert_eq!((d.offset, d.cursor, d.height), (0, 0, 0));
}
