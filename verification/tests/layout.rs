use mdir::ui::dialog::Rect;
use mdir::ui::layout::{AppLayout, MIN_PANE_WIDTH};

fn wanted(w: u16, ratio: f32) -> u16 {
    ((w as f32) * ratio) as u16
}

#[test]
fn calculate_does_not_panic_on_tiny_sizes() {
    for &(w, h) in &[(0u16, 0u16), (1, 1), (10, 3), (30, 5), (39, 10), (40, 10)] {
        let area = Rect::new(0, 0, w, h);
        let layout = AppLayout::calculate(area, wanted(w, 0.5));
        assert!(layout.left_pane.width <= w);
        assert!(layout.right_pane.x.saturating_add(layout.right_pane.width) <= w);
    }
}

#[test]
fn calculate_keeps_min_pane_width_on_normal_size() {
    let area = Rect::new(0, 0, 120, 40);
    let layout = AppLayout::calculate(area, wanted(120, 0.5));
    assert!(layout.left_pane.width >= MIN_PANE_WIDTH);
    assert!(layout.right_pane.width >= MIN_PANE_WIDTH);
}

#[test]
fn calculate_splits_at_the_wanted_column() {
    let layout = AppLayout::calculate(Rect::new(0, 0, 100, 30), 30);
    assert_eq!(layout.border_x(), 30);
    assert_eq!(layout.right_pane.x, 30);
    assert_eq!(layout.right_pane.width, 70);
    assert_eq!(layout.pane_visible_rows(), 26);
    assert_eq!(layout.statusbar.y, 28);
    assert_eq!(layout.bottom_bar.y, 29);
    let pushed = AppLayout::calculate(Rect::new(0, 0, 100, 30), 95);
    assert_eq!(pushed.border_x(), 80);
    let low = AppLayout::calculate(Rect::new(0, 0, 100, 30), 3);
    assert_eq!(low.border_x(), 20);
}

#[test]
fn rect_new_clips_to_u16() {
    let r = Rect::new(65000, 10, 1000, 5);
    assert_eq!(r.width, 535);
    assert_eq!(r.height, 5);
}
